//! Is a newer release out? The caller fetches the tag of the latest release;
//! this module compares it with the running version by semantic-version
//! order.

use vstd::prelude::*;
use vstd::string::*;
use crate::config::Overrides;

verus! {

/// `semver::Version`, carried from the parser to the comparison as a value
/// that is not looked into.
#[verifier::external_type_specification]
#[verifier::external_body]
pub struct ExVersion(semver::Version);

/// The version that `semver::Version::parse` reads from `text`; `None` where
/// it reports an error.
pub uninterp spec fn semver_parse(text: Seq<char>) -> Option<semver::Version>;

/// Whether `a` comes after `b` in the order of `semver::Version`.
pub uninterp spec fn semver_newer(a: semver::Version, b: semver::Version) -> bool;

/// Calls `semver::Version::parse`. Not verified: the result is taken to be a
/// function of the text, named [`semver_parse`].
#[verifier::external_body]
pub(crate) fn parse_version(text: &str) -> (version: Option<semver::Version>)
    ensures
        version == semver_parse(text@),
{
    semver::Version::parse(text).ok()
}

/// Compares two versions with `>`, the order that `semver::Version` derives.
/// Not verified: the result is taken to be a function of the two versions,
/// named [`semver_newer`].
#[verifier::external_body]
pub(crate) fn version_newer(a: &semver::Version, b: &semver::Version) -> (newer: bool)
    ensures
        newer == semver_newer(*a, *b),
{
    a > b
}

/// Environment variable that names the repository whose releases are looked
/// at.
pub const REPO_VAR: &'static str = "SSHR_REPO";

/// Environment variable that is read when [`REPO_VAR`] is not set.
pub const REPO_VAR_COMPAT: &'static str = "SSHC_REPO";

/// Repository whose releases are looked at when no override names another.
pub const DEFAULT_REPO: &'static str = "repasscloud/ssh-r";

/// Address of the latest release of `repo`.
pub open spec fn release_url_of(repo: Seq<char>) -> Seq<char> {
    "https://api.github.com/repos/"@ + repo + "/releases/latest"@
}

/// The user agent sent with the request, for the running `version`.
pub open spec fn user_agent_of(version: Seq<char>) -> Seq<char> {
    "ssh-r/"@ + version
}

/// `tag` without its leading `v`s.
pub open spec fn without_tag_prefix(tag: Seq<char>) -> Seq<char>
    decreases tag.len(),
{
    if tag.len() > 0 && tag[0] == 'v' {
        without_tag_prefix(tag.skip(1))
    } else {
        tag
    }
}

/// Whether `latest` is an update over `current`, each a parsed version or
/// nothing: something that parses is newer than something that does not, and
/// nothing is newer than something that does not parse.
pub open spec fn is_update(latest: Option<semver::Version>, current: Option<semver::Version>) -> bool {
    match latest {
        Some(l) => match current {
            Some(c) => semver_newer(l, c),
            None => true,
        },
        None => false,
    }
}

/// The update to announce for the release tagged `tag` when `current` is
/// running: the pair of the running and the latest version, or nothing.
pub open spec fn update_for(current: Seq<char>, tag: Seq<char>) -> Option<(Seq<char>, Seq<char>)> {
    let latest = without_tag_prefix(tag);
    if is_update(semver_parse(latest), semver_parse(current)) {
        Some((current, latest))
    } else {
        None
    }
}

/// The texts of an optional pair of strings.
pub open spec fn opt_pair_text(p: Option<(String, String)>) -> Option<(Seq<char>, Seq<char>)> {
    match p {
        Some((a, b)) => Some((a@, b@)),
        None => None,
    }
}

/// Address of the latest release of the repository that `overrides` names,
/// or of the default repository.
pub fn release_url(overrides: &Overrides) -> (url: String)
    ensures
        url@ == release_url_of(
            match overrides.chosen() {
                Some(repo) => repo,
                None => DEFAULT_REPO@,
            },
        ),
{
    let repo = match overrides.in_force() {
        Some(repo) => repo,
        None => DEFAULT_REPO,
    };
    let mut url = "https://api.github.com/repos/".to_owned();
    url.append(repo);
    url.append("/releases/latest");
    url
}

/// The user agent sent with the request.
pub fn user_agent(version: &str) -> (agent: String)
    ensures
        agent@ == user_agent_of(version@),
{
    let mut agent = "ssh-r/".to_owned();
    agent.append(version);
    agent
}

/// Removes the leading `v`s of a release tag.
pub fn strip_tag_prefix(tag: &str) -> (version: String)
    ensures
        version@ == without_tag_prefix(tag@),
{
    let n = tag.unicode_len();
    let mut i: usize = 0;
    assert(tag@.skip(0) =~= tag@);
    while i < n && tag.get_char(i) == 'v'
        invariant
            i <= n,
            n == tag@.len(),
            without_tag_prefix(tag@) == without_tag_prefix(tag@.skip(i as int)),
        decreases n - i,
    {
        assert(tag@.skip(i as int).skip(1) =~= tag@.skip(i + 1));
        i += 1;
    }
    tag.substring_char(i, n).to_owned()
}

/// Whether `latest` is an update over `current`, each as it was parsed.
pub fn release_is_newer(latest: &Option<semver::Version>, current: &Option<semver::Version>) -> (newer: bool)
    ensures
        newer == is_update(*latest, *current),
{
    match latest {
        Some(l) => match current {
            Some(c) => version_newer(l, c),
            None => true,
        },
        None => false,
    }
}

/// Compares the running version `current` with the tag of the latest
/// release. Returns the running and the latest version when the latest is
/// newer, nothing otherwise.
pub fn check_updates(current: &str, tag: &str) -> (update: Option<(String, String)>)
    ensures
        opt_pair_text(update) == update_for(current@, tag@),
{
    let latest = strip_tag_prefix(tag);
    let latest_version = parse_version(latest.as_str());
    let current_version = parse_version(current);
    if release_is_newer(&latest_version, &current_version) {
        Some((current.to_owned(), latest))
    } else {
        None
    }
}

} // verus!
