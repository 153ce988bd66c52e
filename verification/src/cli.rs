//! What the command line asks for when an alias is added, and the host entry
//! that it describes.

use vstd::prelude::*;
use crate::error::Error;
use crate::model::{Auth, AuthView, HostEntry, HostEntryView};
use crate::text::opt_text;

verus! {

/// The authentication method named on the command line.
#[derive(Debug, Clone, Copy, PartialEq, Eq, Structural)]
pub enum AuthType {
    Cert,
    Password,
}

/// The arguments that describe an alias to add or to replace.
#[derive(Debug, PartialEq, Eq)]
pub struct AddArgs {
    pub name: String,
    pub host: String,
    pub user: String,
    pub port: u16,
    pub auth: AuthType,
    /// Identity file for key-based authentication.
    pub identity_file: Option<String>,
    /// Password for password authentication; without one the client prompts.
    pub password: Option<String>,
}

impl AddArgs {
    /// The authentication method that the arguments describe: none when a
    /// key-based method is asked for without an identity file. A password
    /// given beside a key-based method, or an identity file beside a password
    /// method, is ignored.
    pub open spec fn requested_auth(&self) -> Option<AuthView> {
        match self.auth {
            AuthType::Cert => match self.identity_file {
                Some(identity_file) => Some(AuthView::Cert { identity_file: identity_file@ }),
                None => None,
            },
            AuthType::Password => Some(AuthView::Password { password: opt_text(self.password) }),
        }
    }

    /// The host entry that the arguments describe, if their authentication
    /// method is complete.
    pub open spec fn requested_entry(&self) -> Option<HostEntryView> {
        match self.requested_auth() {
            Some(auth) => Some(
                HostEntryView {
                    name: self.name@,
                    user: self.user@,
                    host: self.host@,
                    port: self.port,
                    auth,
                },
            ),
            None => None,
        }
    }

    /// Builds the host entry that the arguments describe.
    ///
    /// Fails with [`Error::MissingIdentityFile`] exactly when key-based
    /// authentication is asked for without an identity file, so that such a
    /// request is turned down before anything is stored.
    pub fn into_entry(self) -> (r: Result<HostEntry, Error>)
        ensures
            match r {
                Ok(entry) => self.requested_entry() == Some(entry@),
                Err(e) => self.requested_entry() is None && e == Error::MissingIdentityFile,
            },
    {
        let auth = match self.auth {
            AuthType::Cert => match self.identity_file {
                Some(identity_file) => Auth::Cert { identity_file },
                None => { return Err(Error::MissingIdentityFile); },
            },
            AuthType::Password => Auth::Password { password: self.password },
        };
        Ok(HostEntry { name: self.name, user: self.user, host: self.host, port: self.port, auth })
    }
}

} // verus!
