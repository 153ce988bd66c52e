//! The shape of the configuration file, and how host entries are written to
//! it and read from it.
//!
//! The file is one object with the list `hosts`. Each host has `name`,
//! `user`, `host`, `port` and `auth`; a missing `port` stands for the default
//! port. `auth` carries `type`, which is `cert` or `password`, and with it
//! `identityFile` for `cert` or, if one is stored, `password` for `password`.
//! Turning the file's text into records and back is left to the caller.

use vstd::prelude::*;
use crate::error::Error;
use crate::model::{
    default_port, Auth, AuthView, Config, HostEntry, HostEntryView, DEFAULT_PORT,
};
use crate::text::{clone_opt_string, opt_text};

verus! {

/// The `auth` object of a host in the file.
#[derive(Debug, PartialEq, Eq)]
pub struct AuthRecord {
    /// The field `type`.
    pub kind: String,
    /// The field `identityFile`, if present.
    pub identity_file: Option<String>,
    /// The field `password`, if present.
    pub password: Option<String>,
}

/// A host object in the file.
#[derive(Debug, PartialEq, Eq)]
pub struct HostRecord {
    pub name: String,
    pub user: String,
    pub host: String,
    /// The field `port`, if present.
    pub port: Option<u16>,
    pub auth: AuthRecord,
}

/// The object that the file holds.
#[derive(Debug, PartialEq, Eq)]
pub struct ConfigRecord {
    pub hosts: Vec<HostRecord>,
}

/// Mathematical value of an [`AuthRecord`].
pub struct AuthRecordView {
    pub kind: Seq<char>,
    pub identity_file: Option<Seq<char>>,
    pub password: Option<Seq<char>>,
}

/// Mathematical value of a [`HostRecord`].
pub struct HostRecordView {
    pub name: Seq<char>,
    pub user: Seq<char>,
    pub host: Seq<char>,
    pub port: Option<u16>,
    pub auth: AuthRecordView,
}

impl View for AuthRecord {
    type V = AuthRecordView;

    open spec fn view(&self) -> AuthRecordView {
        AuthRecordView {
            kind: self.kind@,
            identity_file: opt_text(self.identity_file),
            password: opt_text(self.password),
        }
    }
}

impl View for HostRecord {
    type V = HostRecordView;

    open spec fn view(&self) -> HostRecordView {
        HostRecordView {
            name: self.name@,
            user: self.user@,
            host: self.host@,
            port: self.port,
            auth: self.auth@,
        }
    }
}

impl View for ConfigRecord {
    type V = Seq<HostRecordView>;

    open spec fn view(&self) -> Seq<HostRecordView> {
        self.hosts@.map_values(|r: HostRecord| r@)
    }
}

/// The `type` of key-based authentication.
pub const CERT_KIND: &'static str = "cert";

/// The `type` of password authentication.
pub const PASSWORD_KIND: &'static str = "password";

/// The authentication method that an `auth` object stands for: none when its
/// type is unknown or a key-based one names no identity file. Fields that the
/// type does not call for are ignored.
pub open spec fn decoded_auth(a: AuthRecordView) -> Option<AuthView> {
    if a.kind == CERT_KIND@ {
        match a.identity_file {
            Some(identity_file) => Some(AuthView::Cert { identity_file }),
            None => None,
        }
    } else if a.kind == PASSWORD_KIND@ {
        Some(AuthView::Password { password: a.password })
    } else {
        None
    }
}

/// The port that a host object stands for: the default where it gives none.
pub open spec fn decoded_port(port: Option<u16>) -> u16 {
    match port {
        Some(p) => p,
        None => DEFAULT_PORT,
    }
}

/// The host entry that a host object stands for, if its `auth` is valid.
pub open spec fn decoded_host(r: HostRecordView) -> Option<HostEntryView> {
    match decoded_auth(r.auth) {
        Some(auth) => Some(
            HostEntryView {
                name: r.name,
                user: r.user,
                host: r.host,
                port: decoded_port(r.port),
                auth,
            },
        ),
        None => None,
    }
}

/// The configuration that the records stand for: the entries of the hosts in
/// their order, if every host is valid.
pub open spec fn decoded(records: Seq<HostRecordView>) -> Option<Seq<HostEntryView>> {
    if forall|i: int| 0 <= i < records.len() ==> (#[trigger] decoded_host(records[i])) is Some {
        Some(records.map_values(|r: HostRecordView| decoded_host(r)->0))
    } else {
        None
    }
}

/// The `auth` object written for an authentication method. A password that
/// is not stored is left out.
pub open spec fn encoded_auth(a: AuthView) -> AuthRecordView {
    match a {
        AuthView::Cert { identity_file } => AuthRecordView {
            kind: CERT_KIND@,
            identity_file: Some(identity_file),
            password: None,
        },
        AuthView::Password { password } => AuthRecordView {
            kind: PASSWORD_KIND@,
            identity_file: None,
            password,
        },
    }
}

/// The host object written for a host entry. The port is always written.
pub open spec fn encoded_host(h: HostEntryView) -> HostRecordView {
    HostRecordView {
        name: h.name,
        user: h.user,
        host: h.host,
        port: Some(h.port),
        auth: encoded_auth(h.auth),
    }
}

/// The records written for a configuration: one per entry, in order.
pub open spec fn encoded(hosts: Seq<HostEntryView>) -> Seq<HostRecordView> {
    hosts.map_values(|h: HostEntryView| encoded_host(h))
}

/// Whether `e` says that the file at `path` holds no configuration.
pub open spec fn is_parse_error(e: Error, path: Seq<char>) -> bool {
    e matches Error::ConfigParse { path: p } && p@ == path
}

/// The two types of authentication are different words.
pub proof fn lemma_kinds_differ()
    ensures
        CERT_KIND@ != PASSWORD_KIND@,
{
    reveal_strlit("cert");
    reveal_strlit("password");
    assert(CERT_KIND@.len() == 4);
    assert(PASSWORD_KIND@.len() == 8);
}

/// Reads an authentication method from its record.
pub fn decode_auth(a: &AuthRecord) -> (auth: Option<Auth>)
    ensures
        match auth {
            Some(auth) => decoded_auth(a@) == Some(auth@),
            None => decoded_auth(a@) is None,
        },
{
    if a.kind == CERT_KIND.to_owned() {
        match &a.identity_file {
            Some(identity_file) => Some(Auth::Cert { identity_file: identity_file.clone() }),
            None => None,
        }
    } else if a.kind == PASSWORD_KIND.to_owned() {
        Some(Auth::Password { password: clone_opt_string(&a.password) })
    } else {
        None
    }
}

/// Reads a host entry from its record.
pub fn decode_host(r: &HostRecord) -> (entry: Option<HostEntry>)
    ensures
        match entry {
            Some(entry) => decoded_host(r@) == Some(entry@),
            None => decoded_host(r@) is None,
        },
{
    match decode_auth(&r.auth) {
        Some(auth) => Some(
            HostEntry {
                name: r.name.clone(),
                user: r.user.clone(),
                host: r.host.clone(),
                port: match r.port {
                    Some(p) => p,
                    None => default_port(),
                },
                auth,
            },
        ),
        None => None,
    }
}

/// Reads a configuration from the records of the file at `path`.
///
/// Fails with [`Error::ConfigParse`] carrying `path` exactly when some host
/// is not valid: its `type` is neither `cert` nor `password`, or it is
/// `cert` without an `identityFile`. The hosts are taken in their order and
/// as they stand: a name that occurs twice is read twice.
pub fn config_from_record(record: &ConfigRecord, path: &str) -> (r: Result<Config, Error>)
    ensures
        match r {
            Ok(cfg) => decoded(record@) == Some(cfg@),
            Err(e) => decoded(record@) is None && is_parse_error(e, path@),
        },
{
    let mut hosts: Vec<HostEntry> = Vec::new();
    let mut i: usize = 0;
    while i < record.hosts.len()
        invariant
            i <= record.hosts.len(),
            hosts@.len() == i,
            forall|j: int| 0 <= j < i ==> decoded_host(record@[j]) == Some(hosts@[j]@),
        decreases record.hosts.len() - i,
    {
        match decode_host(&record.hosts[i]) {
            Some(entry) => {
                hosts.push(entry);
            },
            None => {
                assert(decoded_host(record@[i as int]) is None);
                return Err(Error::ConfigParse { path: path.to_owned() });
            },
        }
        i += 1;
    }
    let cfg = Config { hosts };
    Ok(cfg)
}

/// The record written for an authentication method.
pub fn encode_auth(a: &Auth) -> (record: AuthRecord)
    ensures
        record@ == encoded_auth(a@),
{
    match a {
        Auth::Cert { identity_file } => AuthRecord {
            kind: CERT_KIND.to_owned(),
            identity_file: Some(identity_file.clone()),
            password: None,
        },
        Auth::Password { password } => AuthRecord {
            kind: PASSWORD_KIND.to_owned(),
            identity_file: None,
            password: clone_opt_string(password),
        },
    }
}

/// The record written for a host entry.
pub fn encode_host(h: &HostEntry) -> (record: HostRecord)
    ensures
        record@ == encoded_host(h@),
{
    HostRecord {
        name: h.name.clone(),
        user: h.user.clone(),
        host: h.host.clone(),
        port: Some(h.port),
        auth: encode_auth(&h.auth),
    }
}

/// The records written for a configuration.
pub fn record_of(cfg: &Config) -> (record: ConfigRecord)
    ensures
        record@ == encoded(cfg@),
{
    let mut hosts: Vec<HostRecord> = Vec::new();
    let mut i: usize = 0;
    while i < cfg.hosts.len()
        invariant
            i <= cfg.hosts.len(),
            hosts@.len() == i,
            forall|j: int| 0 <= j < i ==> hosts@[j]@ == encoded_host(cfg@[j]),
        decreases cfg.hosts.len() - i,
    {
        hosts.push(encode_host(&cfg.hosts[i]));
        i += 1;
    }
    let record = ConfigRecord { hosts };
    record
}

/// Reading what was written for an authentication method gives it back.
pub proof fn lemma_auth_round_trip(a: AuthView)
    ensures
        decoded_auth(encoded_auth(a)) == Some(a),
{
    lemma_kinds_differ();
}

/// Reading what was written for a host entry gives the entry back.
pub proof fn lemma_host_round_trip(h: HostEntryView)
    ensures
        decoded_host(encoded_host(h)) == Some(h),
{
    lemma_auth_round_trip(h.auth);
}

/// Reading the records written for a configuration gives the configuration
/// back: every entry, in order, with either authentication method and with or
/// without a stored password.
pub proof fn lemma_record_round_trip(hosts: Seq<HostEntryView>)
    ensures
        decoded(encoded(hosts)) == Some(hosts),
{
    let records = encoded(hosts);
    assert forall|i: int| 0 <= i < records.len() implies (#[trigger] decoded_host(records[i]))
        == Some(hosts[i]) by {
        lemma_host_round_trip(hosts[i]);
    }
}

/// A host without a port is read with the default port.
pub proof fn lemma_missing_port_is_default(r: HostRecordView)
    requires
        r.port is None,
        decoded_host(r) is Some,
    ensures
        decoded_host(r)->0.port == DEFAULT_PORT,
{
}

} // verus!
