//! The persisted data: a configuration is an ordered list of host entries,
//! each with one authentication method.

use vstd::prelude::*;
use crate::text::{clone_opt_string, opt_text};

verus! {

/// Port of the remote shell service when an entry names none.
pub const DEFAULT_PORT: u16 = 22;

/// How a host entry authenticates.
#[derive(Debug, PartialEq, Eq)]
pub enum Auth {
    /// Key-based: `identity_file` is a path, possibly starting with `~/`.
    Cert { identity_file: String },
    /// Password-based; without a stored password the client prompts.
    Password { password: Option<String> },
}

/// A named connection profile.
#[derive(Debug, PartialEq, Eq)]
pub struct HostEntry {
    pub name: String,
    pub user: String,
    pub host: String,
    pub port: u16,
    pub auth: Auth,
}

/// The whole configuration: host entries in the order they were added.
#[derive(Debug, PartialEq, Eq)]
pub struct Config {
    pub hosts: Vec<HostEntry>,
}

/// Mathematical value of an [`Auth`].
pub enum AuthView {
    Cert { identity_file: Seq<char> },
    Password { password: Option<Seq<char>> },
}

/// Mathematical value of a [`HostEntry`].
pub struct HostEntryView {
    pub name: Seq<char>,
    pub user: Seq<char>,
    pub host: Seq<char>,
    pub port: u16,
    pub auth: AuthView,
}

/// The values of a sequence of host entries, in order.
pub open spec fn entry_views(v: Seq<HostEntry>) -> Seq<HostEntryView> {
    v.map_values(|h: HostEntry| h@)
}

impl View for Auth {
    type V = AuthView;

    open spec fn view(&self) -> AuthView {
        match *self {
            Auth::Cert { identity_file } => AuthView::Cert { identity_file: identity_file@ },
            Auth::Password { password } => AuthView::Password { password: opt_text(password) },
        }
    }
}

impl View for HostEntry {
    type V = HostEntryView;

    open spec fn view(&self) -> HostEntryView {
        HostEntryView {
            name: self.name@,
            user: self.user@,
            host: self.host@,
            port: self.port,
            auth: self.auth@,
        }
    }
}

impl View for Config {
    type V = Seq<HostEntryView>;

    open spec fn view(&self) -> Seq<HostEntryView> {
        entry_views(self.hosts@)
    }
}

/// Whether no two entries of `hosts` share a name.
pub open spec fn names_unique(hosts: Seq<HostEntryView>) -> bool {
    forall|i: int, j: int| 0 <= i < j < hosts.len() ==> hosts[i].name != hosts[j].name
}

/// Whether every entry of `hosts` has a name that is not empty.
pub open spec fn names_present(hosts: Seq<HostEntryView>) -> bool {
    forall|i: int| 0 <= i < hosts.len() ==> (#[trigger] hosts[i]).name.len() > 0
}

impl Config {
    /// Whether every entry has a name and no two entries share one. The empty
    /// configuration is well formed, and adding, replacing and removing
    /// entries keep a configuration well formed.
    pub open spec fn well_formed(&self) -> bool {
        names_unique(self@) && names_present(self@)
    }
}

impl Clone for Auth {
    fn clone(&self) -> (r: Self)
        ensures
            r@ == self@,
    {
        match self {
            Auth::Cert { identity_file } => Auth::Cert { identity_file: identity_file.clone() },
            Auth::Password { password } => Auth::Password { password: clone_opt_string(password) },
        }
    }
}

impl Clone for HostEntry {
    fn clone(&self) -> (r: Self)
        ensures
            r@ == self@,
    {
        HostEntry {
            name: self.name.clone(),
            user: self.user.clone(),
            host: self.host.clone(),
            port: self.port,
            auth: self.auth.clone(),
        }
    }
}

impl Clone for Config {
    fn clone(&self) -> (r: Self)
        ensures
            r@ == self@,
    {
        let mut hosts: Vec<HostEntry> = Vec::new();
        let mut i: usize = 0;
        while i < self.hosts.len()
            invariant
                i <= self.hosts.len(),
                hosts@.len() == i,
                forall|j: int| 0 <= j < i ==> hosts@[j]@ == self.hosts@[j]@,
            decreases self.hosts.len() - i,
        {
            hosts.push(self.hosts[i].clone());
            i += 1;
        }
        Config { hosts }
    }
}

impl Default for Config {
    /// The empty configuration.
    fn default() -> (r: Self)
        ensures
            r@ == Seq::<HostEntryView>::empty(),
            r.well_formed(),
    {
        let r = Config { hosts: Vec::new() };
        r
    }
}

/// The port an entry gets when the configuration file gives none.
pub fn default_port() -> (port: u16)
    ensures
        port == DEFAULT_PORT,
{
    DEFAULT_PORT
}

} // verus!
