//! Paths as text, with the questions that only the platform and the file
//! system can answer.

use vstd::prelude::*;

verus! {

/// One path adjoined to another in the sense of `Path::join`, both as text.
pub uninterp spec fn joined_path(base: Seq<char>, path: Seq<char>) -> Seq<char>;

/// `path` adjoined to `base`.
///
/// Trusted: calls `Path::join` on the two texts. The result depends on the two
/// texts alone, in the way of the platform that the library is built for; the
/// contract only gives that result its name.
#[verifier::external_body]
pub(crate) fn path_join(base: &str, path: &str) -> (joined: String)
    ensures
        joined@ == joined_path(base@, path@),
{
    std::path::Path::new(base).join(path).to_string_lossy().into_owned()
}

/// Whether a path, as text, is absolute in the sense of `Path::is_absolute`.
pub uninterp spec fn absolute_path(path: Seq<char>) -> bool;

/// Whether `path` is absolute.
///
/// Trusted: calls `Path::is_absolute`. The answer depends on the text alone,
/// in the way of the platform that the library is built for; the contract only
/// gives that answer its name.
#[verifier::external_body]
pub(crate) fn path_is_absolute(path: &str) -> (absolute: bool)
    ensures
        absolute == absolute_path(path@),
{
    std::path::Path::new(path).is_absolute()
}

/// Whether `path` leads to something that exists.
///
/// Trusted: calls `Path::exists`. The answer depends on the file system, so
/// the contract promises nothing about it.
#[verifier::external_body]
pub(crate) fn path_exists(path: &str) -> bool {
    std::path::Path::new(path).exists()
}

/// Whether `path` leads to a directory.
///
/// Trusted: calls `Path::is_dir`. The answer depends on the file system, so
/// the contract promises nothing about it.
#[verifier::external_body]
pub(crate) fn path_is_dir(path: &str) -> bool {
    std::path::Path::new(path).is_dir()
}

} // verus!
