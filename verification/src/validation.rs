//! Length limits on request fields, counted in characters.

use vstd::prelude::*;

verus! {

/// Whether a text has at least `min` characters and, where a limit is given,
/// at most `max`.
pub open spec fn length_ok(text: Seq<char>, min: u64, max: Option<u64>) -> bool {
    min <= text.len() && match max {
        Some(m) => text.len() <= m,
        None => true,
    }
}

/// Calls `validator::ValidateLength::validate_length` on a `str` with a
/// minimum, an optional maximum and no exact length.
///
/// Trusted: the text's length is its number of characters, and the result
/// says whether it lies within the limits.
#[verifier::external_body]
fn validate_length(text: &str, min: u64, max: Option<u64>) -> (ok: bool)
    ensures
        ok == length_ok(text@, min, max),
{
    validator::ValidateLength::validate_length(text, Some(min), max, None)
}

/// Whether `text` has between `min` and `max` characters.
pub fn length_between(text: &str, min: u64, max: u64) -> (ok: bool)
    ensures
        ok == (min <= text@.len() <= max),
{
    validate_length(text, min, Some(max))
}

/// Whether `text` has at least `min` characters.
pub fn length_at_least(text: &str, min: u64) -> (ok: bool)
    ensures
        ok == (min <= text@.len()),
{
    validate_length(text, min, None)
}

} // verus!
