//! Text primitives shared by the rule library: blankness (for `required`)
//! and the email grammar (for `email`).

use vstd::prelude::*;
use vstd::string::StrSliceExecFns;

verus! {

/// What the fixed email pattern accepts: whether the whole of `s` matches
/// the RFC-5322-derived `local-part@domain` grammar, case-insensitively,
/// anchored at both ends.
pub uninterp spec fn email_matches(s: Seq<char>) -> bool;

/// Whether `c` counts as whitespace, as `char::is_whitespace` decides it.
pub uninterp spec fn whitespace_char(c: char) -> bool;

/// A text is blank when every character is whitespace; trimming leading
/// and trailing whitespace from a blank text (and only from one) leaves
/// the empty string.
pub open spec fn blank(s: Seq<char>) -> bool {
    forall|i: int| 0 <= i < s.len() ==> whitespace_char(s[i])
}

/// Relies on `char::is_whitespace`: true iff `c` has the Unicode
/// `White_Space` property; a pure function of `c`.
#[verifier::external_body]
fn char_is_whitespace(c: char) -> (r: bool)
    ensures
        r == whitespace_char(c),
{
    c.is_whitespace()
}

/// Relies on `regex::RegexBuilder::{new, case_insensitive, build}` and
/// `regex::Regex::is_match`: whether the fixed anchored email pattern,
/// compiled case-insensitively, matches the whole of `s`. The pattern is a
/// valid constant, so `build` cannot fail, and the outcome is a function
/// of the characters of `s` alone.
#[verifier::external_body]
pub(crate) fn email_is_match(s: &str) -> (r: bool)
    ensures
        r == email_matches(s@),
{
    let re = regex::RegexBuilder::new(
        r#"^(?:[a-z0-9!#$%&'*+/=?^_`{|}~-]+(?:\.[a-z0-9!#$%&'*+/=?^_`{|}~-]+)*|"(?:[\x01-\x08\x0b\x0c\x0e-\x1f\x21\x23-\x5b\x5d-\x7f]|\\[\x01-\x09\x0b\x0c\x0e-\x7f])*")@(?:(?:[a-z0-9](?:[a-z0-9-]*[a-z0-9])?\.)+[a-z0-9](?:[a-z0-9-]*[a-z0-9])?|\[(?:(?:25[0-5]|2[0-4][0-9]|[01]?[0-9][0-9]?)\.){3}(?:25[0-5]|2[0-4][0-9]|[01]?[0-9][0-9]?|[a-z0-9-]*[a-z0-9]:(?:[\x01-\x08\x0b\x0c\x0e-\x1f\x21-\x5a\x53-\x7f]|\\[\x01-\x09\x0b\x0c\x0e-\x7f])+)\])$"#,
    )
        .case_insensitive(true)
        .build()
        .unwrap();
    re.is_match(s)
}

/// True iff `s` holds at least one non-whitespace character, that is, iff
/// trimming whitespace from `s` leaves a non-empty text.
pub fn has_content(s: &str) -> (r: bool)
    ensures
        r == !blank(s@),
{
    let n = s.unicode_len();
    for i in 0..n
        invariant
            n == s@.len(),
            forall|j: int| 0 <= j < i ==> whitespace_char(s@[j]),
    {
        if !char_is_whitespace(s.get_char(i)) {
            return true;
        }
    }
    false
}

} // verus!
