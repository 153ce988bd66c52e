//! From a host entry to the command line of the remote shell client.
//!
//! The arguments are, in this order: the port flag and the port unless the
//! port is the default; for a key-based entry the identity flag and the
//! identity file, a leading `~/` replaced by the home directory; the caller's
//! extra arguments as given; and last the target `user@host`.

use vstd::prelude::*;
use vstd::string::*;
use crate::error::Error;
use crate::model::{Auth, AuthView, HostEntry, HostEntryView, DEFAULT_PORT};
use crate::platform::{find_executable, home_dir, join_path, joined_path};
use crate::text::{
    decimal, join_spaces, join_words, opt_as_str, opt_str_text, opt_text, port_text, texts,
};

verus! {

/// Name of the remote shell client.
pub const CLIENT: &'static str = "ssh";

/// Name under which the client is looked for when [`CLIENT`] is not found.
pub const CLIENT_FALLBACK: &'static str = "ssh.exe";

/// Name of the helper that hands a stored password to the client.
pub const HELPER: &'static str = "sshpass";

/// The client's flag for a port.
pub const PORT_FLAG: &'static str = "-p";

/// The client's flag for an identity file.
pub const IDENTITY_FLAG: &'static str = "-i";

/// The helper's flag for the password.
pub const PASSWORD_FLAG: &'static str = "-p";

/// Whether `path` starts with the home-directory shorthand `~/`.
pub open spec fn has_home_prefix(path: Seq<char>) -> bool {
    path.len() >= 2 && path[0] == '~' && path[1] == '/'
}

/// `path` with a leading `~/` replaced by `home`; unchanged when it has no
/// such prefix or the home directory is unknown.
pub open spec fn expanded_path(path: Seq<char>, home: Option<Seq<char>>) -> Seq<char> {
    match home {
        Some(home) => if has_home_prefix(path) {
            joined_path(home, path.skip(2))
        } else {
            path
        },
        None => path,
    }
}

/// The identity file that the client is given: the expanded path of a
/// key-based entry, none for a password entry.
pub open spec fn expanded_identity(auth: AuthView, home: Option<Seq<char>>) -> Option<Seq<char>> {
    match auth {
        AuthView::Cert { identity_file } => Some(expanded_path(identity_file, home)),
        AuthView::Password { .. } => None,
    }
}

/// Whether the arguments for `auth` depend on the home directory.
pub open spec fn uses_home(auth: AuthView) -> bool {
    auth matches AuthView::Cert { identity_file } && has_home_prefix(identity_file)
}

/// The stored password of a password entry.
pub open spec fn stored_password(auth: AuthView) -> Option<Seq<char>> {
    match auth {
        AuthView::Cert { .. } => None,
        AuthView::Password { password } => password,
    }
}

/// The connection target, `user@host`.
pub open spec fn target(h: HostEntryView) -> Seq<char> {
    h.user + seq!['@'] + h.host
}

/// The port arguments: none for the default port.
pub open spec fn port_args(port: u16) -> Seq<Seq<char>> {
    if port == DEFAULT_PORT {
        Seq::empty()
    } else {
        seq![PORT_FLAG@, decimal(port as nat)]
    }
}

/// The identity arguments for an identity file already expanded.
pub open spec fn identity_args(identity: Option<Seq<char>>) -> Seq<Seq<char>> {
    match identity {
        Some(path) => seq![IDENTITY_FLAG@, path],
        None => Seq::empty(),
    }
}

/// The client's arguments for `h`, given the identity file already expanded.
pub open spec fn assembled_args(
    h: HostEntryView,
    identity: Option<Seq<char>>,
    extra: Seq<Seq<char>>,
) -> Seq<Seq<char>> {
    port_args(h.port) + identity_args(identity) + extra + seq![target(h)]
}

/// The client's arguments for `h` on a machine whose home directory is `home`.
pub open spec fn client_args(
    h: HostEntryView,
    extra: Seq<Seq<char>>,
    home: Option<Seq<char>>,
) -> Seq<Seq<char>> {
    assembled_args(h, expanded_identity(h.auth, home), extra)
}

/// The command line for `h` as one text: the client's name and its
/// arguments, separated by single spaces.
pub open spec fn command_text(
    h: HostEntryView,
    extra: Seq<Seq<char>>,
    home: Option<Seq<char>>,
) -> Seq<char> {
    join_words(seq![CLIENT@] + client_args(h, extra, home))
}

/// A process to start: the executable and its arguments.
#[derive(Debug, PartialEq, Eq)]
pub struct Launch {
    pub program: String,
    pub args: Vec<String>,
    /// Whether `program` is the password helper in front of the client.
    pub via_helper: bool,
}

/// Mathematical value of a [`Launch`].
pub struct LaunchView {
    pub program: Seq<char>,
    pub args: Seq<Seq<char>>,
    pub via_helper: bool,
}

impl View for Launch {
    type V = LaunchView;

    open spec fn view(&self) -> LaunchView {
        LaunchView { program: self.program@, args: texts(self.args@), via_helper: self.via_helper }
    }
}

/// The process that connects to `h`: the helper in front of the client when
/// the entry stores a password and the helper was found, else the client.
pub open spec fn planned_launch(
    h: HostEntryView,
    extra: Seq<Seq<char>>,
    home: Option<Seq<char>>,
    client: Seq<char>,
    helper: Option<Seq<char>>,
) -> LaunchView {
    let args = client_args(h, extra, home);
    match (stored_password(h.auth), helper) {
        (Some(password), Some(helper)) => LaunchView {
            program: helper,
            args: seq![PASSWORD_FLAG@, password, client] + args,
            via_helper: true,
        },
        _ => LaunchView { program: client, args, via_helper: false },
    }
}

/// Whether `path` starts with `~/`.
pub fn starts_with_home(path: &str) -> (b: bool)
    ensures
        b == has_home_prefix(path@),
{
    path.unicode_len() >= 2 && path.get_char(0) == '~' && path.get_char(1) == '/'
}

/// Replaces a leading `~/` of `path` by the home directory; without the
/// prefix, or without a home directory, `path` is returned as it is.
///
/// An unknown home directory is no failure here: the client is then handed
/// the path as written, which may hide a misconfigured machine.
pub fn expand_tilde(path: &str, home: Option<&str>) -> (expanded: String)
    ensures
        expanded@ == expanded_path(path@, opt_str_text(home)),
{
    match home {
        Some(home) => {
            if starts_with_home(path) {
                let rest = path.substring_char(2, path.unicode_len());
                join_path(home, rest)
            } else {
                path.to_owned()
            }
        },
        None => path.to_owned(),
    }
}

/// The identity file handed to the client for `auth`.
pub fn identity_path(auth: &Auth, home: Option<&str>) -> (identity: Option<String>)
    ensures
        opt_text(identity) == expanded_identity(auth@, opt_str_text(home)),
{
    match auth {
        Auth::Cert { identity_file } => Some(expand_tilde(identity_file.as_str(), home)),
        Auth::Password { .. } => None,
    }
}

/// The connection target of `h`.
pub fn target_of(h: &HostEntry) -> (t: String)
    ensures
        t@ == target(h@),
{
    let mut t = h.user.clone();
    t.append("@");
    t.append(h.host.as_str());
    proof {
        reveal_strlit("@");
    }
    t
}

/// Appends copies of the strings of `src` to `dst`, in order.
fn append_all(dst: &mut Vec<String>, src: &[String])
    ensures
        texts(final(dst)@) == texts(old(dst)@) + texts(src@),
{
    let ghost before = dst@;
    let mut i: usize = 0;
    while i < src.len()
        invariant
            i <= src.len(),
            dst@.len() == before.len() + i,
            forall|j: int| 0 <= j < before.len() ==> dst@[j] == before[j],
            forall|j: int| 0 <= j < i ==> dst@[before.len() + j]@ == src@[j]@,
        decreases src.len() - i,
    {
        dst.push(src[i].clone());
        i += 1;
    }
}

/// Assembles the client's arguments from an entry and its identity file,
/// already expanded.
pub fn assemble_args(h: &HostEntry, identity: Option<String>, extra: &[String]) -> (args: Vec<String>)
    ensures
        texts(args@) == assembled_args(h@, opt_text(identity), texts(extra@)),
{
    let mut args: Vec<String> = Vec::new();
    if h.port != DEFAULT_PORT {
        args.push(PORT_FLAG.to_owned());
        args.push(port_text(h.port));
    }
    match identity {
        Some(path) => {
            args.push(IDENTITY_FLAG.to_owned());
            args.push(path);
        },
        None => {},
    }
    let ghost head = texts(args@);
    append_all(&mut args, extra);
    args.push(target_of(h));
    assert(texts(args@) =~= head + texts(extra@) + seq![target(h@)]);
    args
}

/// The client's arguments for `h` followed by `extra`, on a machine whose
/// home directory is `home`.
pub fn build_args(h: &HostEntry, extra: &[String], home: Option<&str>) -> (args: Vec<String>)
    ensures
        texts(args@) == client_args(h@, texts(extra@), opt_str_text(home)),
{
    let identity = identity_path(&h.auth, home);
    assemble_args(h, identity, extra)
}

/// The command line for `h` as text, on a machine whose home directory is
/// `home`. Nothing is looked up: the client need not be installed.
pub fn export_command_with_home(h: &HostEntry, extra: &[String], home: Option<&str>) -> (line: String)
    ensures
        line@ == command_text(h@, texts(extra@), opt_str_text(home)),
{
    let args = build_args(h, extra, home);
    let mut words: Vec<String> = Vec::new();
    words.push(CLIENT.to_owned());
    append_all(&mut words, args.as_slice());
    assert(texts(words@) =~= seq![CLIENT@] + texts(args@));
    join_spaces(&words)
}

/// Whether the arguments for `auth` depend on the home directory.
pub fn needs_home(auth: &Auth) -> (b: bool)
    ensures
        b == uses_home(auth@),
{
    match auth {
        Auth::Cert { identity_file } => starts_with_home(identity_file.as_str()),
        Auth::Password { .. } => false,
    }
}

/// The home directory, looked up only where the arguments for `auth` depend
/// on it.
fn home_for(auth: &Auth) -> (home: Option<String>)
    ensures
        !uses_home(auth@) ==> home is None,
{
    if needs_home(auth) {
        home_dir()
    } else {
        None
    }
}

/// The command line for `h` as text, with `~/` expanded to the home
/// directory of the current user where that can be found.
///
/// Where the entry's arguments do not depend on the home directory the text
/// is fixed by `h` and `extra`; else it is the text for whatever home
/// directory the machine reported, or for none.
pub fn export_command(h: &HostEntry, extra: &[String]) -> (line: String)
    ensures
        exists|home: Option<Seq<char>>| line@ == command_text(h@, texts(extra@), home),
        !uses_home(h@.auth) ==> line@ == command_text(h@, texts(extra@), None),
{
    let home = home_for(&h.auth);
    export_command_with_home(h, extra, opt_as_str(&home))
}

/// Where the remote shell client is: looked for as [`CLIENT`], then as
/// [`CLIENT_FALLBACK`].
fn ssh_bin() -> (client: Option<String>) {
    match find_executable(CLIENT) {
        Some(path) => Some(path),
        None => find_executable(CLIENT_FALLBACK),
    }
}

/// Where the password helper is, if it is installed.
fn sshpass_bin() -> (helper: Option<String>) {
    find_executable(HELPER)
}

/// Decides what to start to connect to `h`, from what was found on the
/// machine: the client at `client`, the password helper at `helper`, the home
/// directory `home`.
///
/// Fails with [`Error::ClientNotFound`] exactly when there is no client.
/// With a stored password and a helper, the helper is started with the
/// password and the client's command line as its arguments: the password then
/// stands in the argument list in plain text.
pub fn plan_connect(
    h: &HostEntry,
    extra: &[String],
    home: Option<&str>,
    client: Option<String>,
    helper: Option<String>,
) -> (plan: Result<Launch, Error>)
    ensures
        client is None ==> plan == Err::<Launch, Error>(Error::ClientNotFound),
        client matches Some(c) ==> plan matches Ok(launch) && launch@ == planned_launch(
            h@,
            texts(extra@),
            opt_str_text(home),
            c@,
            opt_text(helper),
        ),
{
    let client = match client {
        Some(client) => client,
        None => { return Err(Error::ClientNotFound); },
    };
    let args = build_args(h, extra, home);
    if let Auth::Password { password: Some(password) } = &h.auth {
        if let Some(helper) = helper {
            let mut all: Vec<String> = Vec::new();
            all.push(PASSWORD_FLAG.to_owned());
            all.push(password.clone());
            all.push(client);
            append_all(&mut all, args.as_slice());
            assert(texts(all@) =~= seq![PASSWORD_FLAG@, password@, client@] + texts(args@));
            return Ok(Launch { program: helper, args: all, via_helper: true });
        }
    }
    Ok(Launch { program: client, args, via_helper: false })
}

/// Finds the client, and the helper and the home directory where the entry
/// calls for them, and decides what to start to connect to `h`.
///
/// Fails only with [`Error::ClientNotFound`]. Otherwise the plan is the one
/// of [`planned_launch`] for what the machine reported.
pub fn connect(h: &HostEntry, extra: &[String]) -> (plan: Result<Launch, Error>)
    ensures
        plan matches Err(e) ==> e == Error::ClientNotFound,
        plan matches Ok(launch) ==> exists|
            home: Option<Seq<char>>,
            client: Seq<char>,
            helper: Option<Seq<char>>,
        |
            {
                &&& launch@ == planned_launch(h@, texts(extra@), home, client, helper)
                &&& !uses_home(h@.auth) ==> home is None
                &&& stored_password(h@.auth) is None ==> helper is None
            },
{
    let client = ssh_bin();
    if client.is_none() {
        return Err(Error::ClientNotFound);
    }
    let home = home_for(&h.auth);
    let helper = match &h.auth {
        Auth::Password { password: Some(_) } => sshpass_bin(),
        _ => None,
    };
    plan_connect(h, extra, opt_as_str(&home), client, helper)
}

/// The exit code to report for a finished process: its own, or -1 when it
/// ended without one.
pub open spec fn exit_code_of(status: Option<i32>) -> i32 {
    match status {
        Some(code) => code,
        None => -1i32,
    }
}

/// The exit code to report for a finished process.
pub fn exit_code(status: Option<i32>) -> (code: i32)
    ensures
        code == exit_code_of(status),
{
    match status {
        Some(code) => code,
        None => -1,
    }
}

/// What a connection attempt comes to. `outcome` is `None` when the process
/// of `launch` could not be started, else the status it ended with.
///
/// Fails with [`Error::Spawn`] exactly when the process could not be
/// started; the error says whether the helper stood in front of the client.
pub fn connect_result(launch: &Launch, outcome: Option<Option<i32>>) -> (r: Result<i32, Error>)
    ensures
        r == match outcome {
            Some(status) => Ok::<i32, Error>(exit_code_of(status)),
            None => Err::<i32, Error>(Error::Spawn { via_helper: launch.via_helper }),
        },
{
    match outcome {
        Some(status) => Ok(exit_code(status)),
        None => Err(Error::Spawn { via_helper: launch.via_helper }),
    }
}

} // verus!
