//! The safety check on query text.

use vstd::prelude::*;

verus! {

/// Whether `needle` occurs in `haystack` as a run of consecutive characters.
pub open spec fn contains_text(haystack: Seq<char>, needle: Seq<char>) -> bool {
    exists|start: int|
        0 <= start <= haystack.len() - needle.len() && #[trigger] haystack.subrange(
            start,
            start + needle.len(),
        ) == needle
}

/// `str::contains` with a string slice as the pattern.
///
/// Believed: it returns `true` exactly when the pattern matches a sub-slice of
/// the text, that is, when the pattern's characters occur in the text
/// consecutively.
#[verifier::external_body]
fn str_contains(haystack: &str, needle: &str) -> (found: bool)
    ensures
        found == contains_text(haystack@, needle@),
{
    haystack.contains(needle)
}

/// The queries that pass the check: those that hold `select` or `SELECT`
/// somewhere, letter case as written. This is an allow-list on the text, not a
/// parser: a statement that changes data passes if it also holds the word.
pub open spec fn query_accepted(query: Seq<char>) -> bool {
    contains_text(query, "select"@) || contains_text(query, "SELECT"@)
}

pub fn query_validator(query: &str) -> (valid: bool)
    ensures
        valid == query_accepted(query@),
{
    if !str_contains(query, "select") && !str_contains(query, "SELECT") {
        return false;
    }
    true
}

} // verus!
