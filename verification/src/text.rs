//! Tests on text that the standard library makes and that the rest of the
//! crate states its contracts over.

use vstd::prelude::*;

verus! {

/// Whether `pattern` occurs in `text` as a run of consecutive characters.
pub open spec fn has_substring(text: Seq<char>, pattern: Seq<char>) -> bool {
    exists|i: int|
        0 <= i && i + pattern.len() <= text.len() && #[trigger] text.subrange(
            i,
            i + pattern.len(),
        ) == pattern
}

/// Whether some pattern of `patterns` occurs in `url`.
pub open spec fn is_blocked(url: Seq<char>, patterns: Seq<Seq<char>>) -> bool {
    exists|k: int| 0 <= k < patterns.len() && has_substring(url, #[trigger] patterns[k])
}

/// `str::contains` with a string pattern: whether the pattern matches a
/// sub-slice of the text. Both are valid UTF-8, so a match of the bytes is a
/// match of the characters.
#[verifier::external_body]
pub(crate) fn str_contains(text: &str, pattern: &str) -> (found: bool)
    ensures
        found == has_substring(text@, pattern@),
{
    text.contains(pattern)
}

/// `==` on string slices: whether the two hold the same characters.
#[verifier::external_body]
pub(crate) fn str_eq(a: &str, b: &str) -> (same: bool)
    ensures
        same == (a@ == b@),
{
    a == b
}

} // verus!
