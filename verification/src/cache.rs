//! The local cache of interpreter and kernel binaries.
//!
//! Binaries live in one flat directory below the user's home directory. This
//! module derives the paths; whether a file is there is for the file system
//! to say, and every function that depends on the answer either asks once or
//! takes the answer as an argument.

use crate::paths;
use crate::paths::path_join;
use crate::text::{spec_owned_text, spec_text};
use vstd::prelude::*;

verus! {

/// The directory that the cache is rooted in: the home directory, or the
/// current directory where no home directory is known.
pub open spec fn spec_cache_base(home: Option<Seq<char>>) -> Seq<char> {
    match home {
        Some(h) => h,
        None => "."@,
    }
}

/// The cache directory: `.cache/nanvix-registry` below the base.
pub open spec fn spec_cache_directory(home: Option<Seq<char>>) -> Seq<char> {
    path_join(path_join(spec_cache_base(home), ".cache"@), "nanvix-registry"@)
}

/// The directory of cached binaries: `bin` below the cache directory.
pub open spec fn spec_binary_cache_directory(home: Option<Seq<char>>) -> Seq<char> {
    path_join(spec_cache_directory(home), "bin"@)
}

/// The place of a binary in the cache: its name below the directory of
/// cached binaries.
pub open spec fn spec_cached_binary_path(home: Option<Seq<char>>, name: Seq<char>) -> Seq<char> {
    path_join(spec_binary_cache_directory(home), name)
}

/// What a lookup yields for a path, given whether the path was found.
pub open spec fn spec_lookup(path: Seq<char>, present: bool) -> Option<Seq<char>> {
    if present {
        Some(path)
    } else {
        None
    }
}

/// Get the default cache directory for the registry, given the user's home
/// directory if it is known.
pub fn get_cache_directory(home: Option<&str>) -> (dir: String)
    ensures
        dir@ == spec_cache_directory(spec_text(home)),
{
    let base = match home {
        Some(h) => h,
        None => ".",
    };
    let cache = paths::join(base, ".cache");
    paths::join(cache.as_str(), "nanvix-registry")
}

/// Get the binary cache directory.
pub fn get_binary_cache_directory(home: Option<&str>) -> (dir: String)
    ensures
        dir@ == spec_binary_cache_directory(spec_text(home)),
{
    let cache = get_cache_directory(home);
    paths::join(cache.as_str(), "bin")
}

/// The path at which a binary of the given name is cached.
pub fn cached_binary_path(home: Option<&str>, binary_name: &str) -> (path: String)
    ensures
        path@ == spec_cached_binary_path(spec_text(home), binary_name@),
{
    let bin = get_binary_cache_directory(home);
    paths::join(bin.as_str(), binary_name)
}

/// Return the cached path of a binary if it is in the cache. `present` is
/// what the file system answered when asked for
/// `cached_binary_path(home, binary_name)`.
pub fn get_cached_binary_path(home: Option<&str>, binary_name: &str, present: bool) -> (found:
    Option<String>)
    ensures
        spec_owned_text(found) == spec_lookup(
            spec_cached_binary_path(spec_text(home), binary_name@),
            present,
        ),
{
    if present {
        Some(cached_binary_path(home, binary_name))
    } else {
        None
    }
}

/// Check if a binary exists in the cache. Asks the file system once for the
/// binary's cached path; the answer is returned as it came.
pub fn is_binary_cached(home: Option<&str>, binary_name: &str) -> (cached: bool) {
    let path = cached_binary_path(home, binary_name);
    paths::is_present(path.as_str())
}

/// A lookup finds a binary exactly when the cache was observed to hold it,
/// and what it finds is the binary's cached path: the lookup and the check
/// share one path derivation and agree on one observation.
pub proof fn lemma_lookup_agrees_with_check(
    home: Option<Seq<char>>,
    name: Seq<char>,
    present: bool,
)
    ensures
        spec_lookup(spec_cached_binary_path(home, name), present) is Some <==> present,
        present ==> spec_lookup(spec_cached_binary_path(home, name), present) == Some(
            spec_cached_binary_path(home, name),
        ),
{
}

/// Every cached binary lies directly in the directory of cached binaries,
/// which lies in the cache directory.
pub proof fn lemma_cache_layout(home: Option<Seq<char>>, name: Seq<char>)
    ensures
        spec_cached_binary_path(home, name) == path_join(
            path_join(
                path_join(path_join(spec_cache_base(home), ".cache"@), "nanvix-registry"@),
                "bin"@,
            ),
            name,
        ),
{
}

} // verus!
