//! Regular-expression matching, done by the `regex` crate.
//!
//! Nothing here is proved: each function states what the crate's
//! documentation says of the call it makes, over a name for the call's
//! result.

use vstd::prelude::*;

verus! {

/// The text that capture group 1 takes in the leftmost match of `pattern` in
/// `text`, as `regex::Regex::captures` finds it; `None` where `pattern` is
/// not a regular expression the crate compiles, where nothing matches, or
/// where group 1 takes no part in the match.
pub uninterp spec fn first_group(pattern: Seq<char>, text: Seq<char>) -> Option<Seq<char>>;

/// `text` with every non-overlapping match of `pattern` replaced by
/// `replacement`, as `regex::Regex::replace_all` builds it; `None` where
/// `pattern` is not a regular expression the crate compiles.
pub uninterp spec fn all_replaced(
    pattern: Seq<char>,
    text: Seq<char>,
    replacement: Seq<char>,
) -> Option<Seq<char>>;

/// The text of an optional string.
pub open spec fn option_text(value: Option<String>) -> Option<Seq<char>> {
    match value {
        Some(text) => Some(text@),
        None => None,
    }
}

/// Compiles `pattern` with `regex::Regex::new`, searches `text` with
/// `Regex::captures` and copies out group 1 (`Captures::get`,
/// `Match::as_str`). Trusted: the result is what `first_group` names. The
/// calls return an error or `None` and do not panic.
#[verifier::external_body]
pub(crate) fn capture_first_group(pattern: &str, text: &str) -> (found: Option<String>)
    ensures
        option_text(found) == first_group(pattern@, text@),
{
    match regex::Regex::new(pattern) {
        Ok(compiled) => match compiled.captures(text) {
            Some(captures) => match captures.get(1) {
                Some(group) => Some(group.as_str().to_string()),
                None => None,
            },
            None => None,
        },
        Err(_) => None,
    }
}

/// Compiles `pattern` with `regex::Regex::new` and rewrites `text` with
/// `Regex::replace_all`. Trusted: the result is what `all_replaced` names.
/// The calls return an error or a string and do not panic.
#[verifier::external_body]
pub(crate) fn replace_every(pattern: &str, text: &str, replacement: &str) -> (rewritten: Option<
    String,
>)
    ensures
        option_text(rewritten) == all_replaced(pattern@, text@, replacement@),
{
    match regex::Regex::new(pattern) {
        Ok(compiled) => Some(compiled.replace_all(text, replacement).into_owned()),
        Err(_) => None,
    }
}

} // verus!
