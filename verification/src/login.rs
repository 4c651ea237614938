//! Decisions around the login prompt: when to fall back from the terminal
//! device to standard input, and what counts as the answer.

use vstd::prelude::*;
use crate::text::{contains_text, occurs_in, trim, trimmed};

verus! {

/// The lower-case form of a text as the standard library computes it.
pub uninterp spec fn unicode_lowercase(s: Seq<char>) -> Seq<char>;

/// Lower-cases a text by Unicode's rules.
///
/// Trusted: `str::to_lowercase` of the standard library. The contract only
/// names the result: the same text always gets the same lower-case form.
#[verifier::external_body]
fn lowercase(s: &str) -> (r: String)
    ensures
        r@ == unicode_lowercase(s@),
{
    s.to_lowercase()
}

/// Whether a lower-cased failure message tells that no terminal device
/// could be opened.
pub open spec fn names_missing_device(lowered: Seq<char>) -> bool {
    occurs_in(lowered, "device not configured"@)
}

/// Tells whether a lower-cased failure message names a missing terminal
/// device.
pub fn is_missing_device(lowered: &str) -> (r: bool)
    ensures
        r == names_missing_device(lowered@),
{
    contains_text(lowered, "device not configured")
}

/// Whether a failed prompt is to be repeated on standard input: when the
/// failure message, in whatever case, tells that no terminal device could
/// be opened.
pub fn wants_stdin_fallback(failure: &str) -> (r: bool)
    ensures
        r == names_missing_device(unicode_lowercase(failure@)),
{
    let lowered = lowercase(failure);
    is_missing_device(lowered.as_str())
}

/// The answer in a line read from standard input: the line without the
/// white space around it.
pub fn answer_of(line: &str) -> (r: String)
    ensures
        r@ == trimmed(line@),
{
    trim(line)
}

} // verus!
