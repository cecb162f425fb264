//! Path operations of the standard library that the dispatcher relies on.
//!
//! Paths are held as text. What `std::path` computes from a path is given a
//! name here, so that contracts elsewhere can speak of it exactly; nothing in
//! this module is proved, every item states what the standard library is
//! trusted to do on the platform the crate is built for.

use vstd::prelude::*;

verus! {

/// What `Path::join` gives for a base path and a path adjoined to it.
pub uninterp spec fn path_join(base: Seq<char>, tail: Seq<char>) -> Seq<char>;

/// What `Path::extension` gives: the text after the last dot of the final
/// component, when there is one.
pub uninterp spec fn path_extension(path: Seq<char>) -> Option<Seq<char>>;

/// What `Path::file_name` gives: the final component of the path, when it has one.
pub uninterp spec fn path_file_name(path: Seq<char>) -> Option<Seq<char>>;

/// What `Path::parent` gives: the path without its final component, when it has one.
pub uninterp spec fn path_parent(path: Seq<char>) -> Option<Seq<char>>;

/// What `str::to_lowercase` gives: the lowercase equivalent of a text.
pub uninterp spec fn lowercase(text: Seq<char>) -> Seq<char>;

/// What formatting a path with `{:?}` gives: the path quoted and escaped.
pub uninterp spec fn path_debug(path: Seq<char>) -> Seq<char>;

/// Calls `Path::join`. The result is a function of the two texts alone, and
/// is valid text because both arguments are.
#[verifier::external_body]
pub(crate) fn join(base: &str, tail: &str) -> (joined: String)
    ensures
        joined@ == path_join(base@, tail@),
{
    std::path::Path::new(base).join(tail).to_string_lossy().into_owned()
}

/// Calls `Path::extension`. The result is a function of the path's text alone.
#[verifier::external_body]
pub(crate) fn extension(path: &str) -> (ext: Option<String>)
    ensures
        ext is Some == path_extension(path@) is Some,
        ext matches Some(e) ==> e@ == path_extension(path@)->0,
{
    std::path::Path::new(path).extension().map(|e| e.to_string_lossy().into_owned())
}

/// Calls `Path::file_name`. The result is a function of the path's text alone.
#[verifier::external_body]
pub(crate) fn file_name(path: &str) -> (name: Option<String>)
    ensures
        name is Some == path_file_name(path@) is Some,
        name matches Some(n) ==> n@ == path_file_name(path@)->0,
{
    std::path::Path::new(path).file_name().map(|n| n.to_string_lossy().into_owned())
}

/// Calls `Path::parent`. The result is a function of the path's text alone.
#[verifier::external_body]
pub(crate) fn parent(path: &str) -> (dir: Option<String>)
    ensures
        dir is Some == path_parent(path@) is Some,
        dir matches Some(d) ==> d@ == path_parent(path@)->0,
{
    std::path::Path::new(path).parent().map(|d| d.to_string_lossy().into_owned())
}

/// Calls `str::to_lowercase`. The result is a function of the text alone.
#[verifier::external_body]
pub(crate) fn to_lowercase(text: &str) -> (lower: String)
    ensures
        lower@ == lowercase(text@),
{
    text.to_lowercase()
}

/// Formats a path with `{:?}`. The result is a function of the path's text alone.
#[verifier::external_body]
pub(crate) fn debug_format(path: &str) -> (quoted: String)
    ensures
        quoted@ == path_debug(path@),
{
    format!("{:?}", std::path::Path::new(path))
}

/// Calls `Path::is_file`, which asks the file system whether the path names
/// a regular file. The answer depends on what is on disk, so nothing is
/// promised of it.
#[verifier::external_body]
pub(crate) fn is_file(path: &str) -> (regular: bool) {
    std::path::Path::new(path).is_file()
}

/// Calls `Path::exists`, which asks the file system whether the path names
/// anything. The answer depends on what is on disk, so nothing is promised
/// of it.
#[verifier::external_body]
pub(crate) fn is_present(path: &str) -> (present: bool) {
    std::path::Path::new(path).exists()
}

} // verus!
