//! The failures this library reports, each with a one-line message.

use vstd::prelude::*;
use vstd::string::*;

verus! {

/// What was being done to the configuration directory or file when it failed.
#[derive(Debug, Clone, Copy, PartialEq, Eq)]
pub enum IoAction {
    Create,
    Read,
    Write,
}

/// Every failure of the alias manager.
#[derive(Debug, PartialEq, Eq)]
pub enum Error {
    /// No directory override is set and the home directory is unknown.
    HomeUnresolvable,
    /// Creating the directory, or reading or writing the file at `path`, failed.
    ConfigIo { action: IoAction, path: String },
    /// The file at `path` does not hold a configuration.
    ConfigParse { path: String },
    /// No host entry is called `name`.
    AliasNotFound { name: String },
    /// The remote shell client is not on the search path.
    ClientNotFound,
    /// The client, or the password helper in front of it, could not be started.
    Spawn { via_helper: bool },
    /// A key-based entry was requested without an identity file.
    MissingIdentityFile,
}

impl IoAction {
    /// The verb that names the action in a message.
    pub open spec fn verb(self) -> Seq<char> {
        match self {
            IoAction::Create => "create"@,
            IoAction::Read => "read"@,
            IoAction::Write => "write"@,
        }
    }
}

impl Error {
    /// The message shown to the user for this failure.
    pub open spec fn message_text(&self) -> Seq<char> {
        match *self {
            Error::HomeUnresolvable => "cannot resolve home directory"@,
            Error::ConfigIo { action, path } => action.verb() + " "@ + path@,
            Error::ConfigParse { path } => "parse "@ + path@,
            Error::AliasNotFound { name } => "alias '"@ + name@ + "' not found"@,
            Error::ClientNotFound => "ssh not found in PATH"@,
            Error::Spawn { via_helper } => if via_helper {
                "failed to spawn sshpass/ssh"@
            } else {
                "failed to spawn ssh"@
            },
            Error::MissingIdentityFile => "--identity-file is required for --auth cert"@,
        }
    }

    /// Builds the message shown to the user.
    pub fn message(&self) -> (s: String)
        ensures
            s@ == self.message_text(),
    {
        match self {
            Error::HomeUnresolvable => "cannot resolve home directory".to_owned(),
            Error::ConfigIo { action, path } => {
                let verb = match action {
                    IoAction::Create => "create",
                    IoAction::Read => "read",
                    IoAction::Write => "write",
                };
                let mut s = verb.to_owned();
                s.append(" ");
                s.append(path.as_str());
                s
            },
            Error::ConfigParse { path } => {
                let mut s = "parse ".to_owned();
                s.append(path.as_str());
                s
            },
            Error::AliasNotFound { name } => {
                let mut s = "alias '".to_owned();
                s.append(name.as_str());
                s.append("' not found");
                s
            },
            Error::ClientNotFound => "ssh not found in PATH".to_owned(),
            Error::Spawn { via_helper } => if *via_helper {
                "failed to spawn sshpass/ssh".to_owned()
            } else {
                "failed to spawn ssh".to_owned()
            },
            Error::MissingIdentityFile => "--identity-file is required for --auth cert".to_owned(),
        }
    }
}

} // verus!
