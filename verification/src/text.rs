//! Texts: how contracts speak of optional ones, and how two are compared.

use vstd::prelude::*;
use vstd::string::{StrSliceExecFns, StringExecFns};

verus! {

/// The view of an optional text.
pub open spec fn spec_text(text: Option<&str>) -> Option<Seq<char>> {
    match text {
        Some(t) => Some(t@),
        None => None,
    }
}

/// The view of an optional owned text.
pub open spec fn spec_owned_text(text: Option<String>) -> Option<Seq<char>> {
    match text {
        Some(t) => Some(t@),
        None => None,
    }
}

/// Whether a text begins with another.
pub open spec fn spec_has_prefix(text: Seq<char>, prefix: Seq<char>) -> bool {
    prefix.len() <= text.len() && text.subrange(0, prefix.len() as int) == prefix
}

/// Whether a text ends with another.
pub open spec fn spec_has_suffix(text: Seq<char>, suffix: Seq<char>) -> bool {
    suffix.len() <= text.len() && text.subrange(text.len() - suffix.len(), text.len() as int)
        == suffix
}

/// Whether two texts are the same, character by character.
pub fn same_text(a: &str, b: &str) -> (same: bool)
    ensures
        same == (a@ == b@),
{
    String::from_str(a).eq(&String::from_str(b))
}

/// Whether a text begins with another.
pub fn has_prefix(text: &str, prefix: &str) -> (found: bool)
    ensures
        found == spec_has_prefix(text@, prefix@),
{
    let length = prefix.unicode_len();
    if length > text.unicode_len() {
        false
    } else {
        same_text(text.substring_char(0, length), prefix)
    }
}

/// Whether a text ends with another.
pub fn has_suffix(text: &str, suffix: &str) -> (found: bool)
    ensures
        found == spec_has_suffix(text@, suffix@),
{
    let length = suffix.unicode_len();
    let whole = text.unicode_len();
    if length > whole {
        false
    } else {
        same_text(text.substring_char(whole - length, whole), suffix)
    }
}

} // verus!
