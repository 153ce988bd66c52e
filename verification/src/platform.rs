//! What the library asks of the machine it runs on: the user's home
//! directory, the executables on the search path, whether a path exists, and
//! how the platform joins two paths.
//!
//! Paths are held as text. A path that is not valid Unicode is converted with
//! replacement characters.

use vstd::prelude::*;

verus! {

/// The text that `std::path::Path::join` gives for `base` joined with
/// `child`, by the path rules of the platform the library is compiled for.
pub uninterp spec fn joined_path(base: Seq<char>, child: Seq<char>) -> Seq<char>;

/// Calls `std::path::Path::join`. Not verified: the result is taken to be a
/// function of the two texts, named [`joined_path`].
#[verifier::external_body]
pub(crate) fn join_path(base: &str, child: &str) -> (joined: String)
    ensures
        joined@ == joined_path(base@, child@),
{
    std::path::Path::new(base).join(child).to_string_lossy().into_owned()
}

/// Calls `directories::BaseDirs::new` and reads `home_dir` from it. Not
/// verified, and nothing is claimed of the result: it depends on the
/// environment and on the user database.
#[verifier::external_body]
pub(crate) fn home_dir() -> (home: Option<String>) {
    directories::BaseDirs::new().map(|dirs| dirs.home_dir().to_string_lossy().into_owned())
}

/// Calls `which::which` for `name`; `None` when it reports an error. Not
/// verified, and nothing is claimed of the result: it depends on the search
/// path and on what is on disk.
#[verifier::external_body]
pub(crate) fn find_executable(name: &str) -> (path: Option<String>) {
    which::which(name).ok().map(|path| path.to_string_lossy().into_owned())
}

/// Calls `std::path::Path::exists`. Not verified, and nothing is claimed of
/// the result: it depends on what is on disk.
#[verifier::external_body]
pub(crate) fn path_exists(path: &str) -> (exists: bool) {
    std::path::Path::new(path).exists()
}

} // verus!
