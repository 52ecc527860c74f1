//! Wildcard patterns: `?` stands for any one character, `*` for any
//! run of characters, and every other character for itself. There is
//! no escape character.

use vstd::prelude::*;
use wildmatch::WildMatch;

verus! {

/// `pattern` matches the whole of `input`.
pub open spec fn wildcard_matches(pattern: Seq<char>, input: Seq<char>) -> bool
    decreases pattern.len(), input.len(),
{
    if pattern.len() == 0 {
        input.len() == 0
    } else if pattern[0] == '*' {
        wildcard_matches(pattern.drop_first(), input) || (input.len() > 0 && wildcard_matches(
            pattern,
            input.drop_first(),
        ))
    } else {
        input.len() > 0 && (pattern[0] == '?' || pattern[0] == input[0]) && wildcard_matches(
            pattern.drop_first(),
            input.drop_first(),
        )
    }
}

/// Matches `input` against `pattern` with `wildmatch::WildMatch::new`
/// and `WildMatch::matches` (case-sensitive). The contract states what
/// the crate documents: `?` matches exactly one character, `*` any
/// number of them, and the pattern must match the whole input.
#[verifier::external_body]
pub(crate) fn matches_wildcard(pattern: &str, input: &str) -> (r: bool)
    ensures
        r == wildcard_matches(pattern@, input@),
{
    WildMatch::new(pattern).matches(input)
}

} // verus!
