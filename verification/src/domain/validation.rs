//! The field rules that request bodies are held to, and the report that
//! names the fields breaking them.
//!
//! A report has one line per broken rule, `"{field}: {message}\n"`, fields
//! in alphabetical order and, within a field, an email check before a length
//! check before a range check before a pattern check.  The messages read
//! "length is lower than {min}", "length is greater than {max}", "lower than
//! {min}", "greater than {max}", "does not match pattern /{pattern}/" and
//! "not a valid email: {reason}".
use vstd::prelude::*;
use vstd::utf8::encode_utf8;

use crate::text::{decimal, push_decimal};

verus! {

broadcast use vstd::string::group_string_axioms;

/// The length of a string field: its number of UTF-8 bytes.
pub open spec fn byte_len(s: Seq<char>) -> nat {
    encode_utf8(s).len()
}

/// The number of UTF-8 bytes of `s`.
pub fn byte_count(s: &String) -> (n: usize)
    ensures
        n == byte_len(s@),
{
    s.as_str().as_bytes().len()
}

/// The message for a length outside `min..=max`, if it is.
pub open spec fn length_violation(len: nat, min: nat, max: nat) -> Option<Seq<char>> {
    if len < min {
        Some("length is lower than "@ + decimal(min))
    } else if len > max {
        Some("length is greater than "@ + decimal(max))
    } else {
        None
    }
}

/// Checks a length against `min..=max`.
pub fn check_length(len: usize, min: usize, max: usize) -> (r: Option<String>)
    ensures
        match length_violation(len as nat, min as nat, max as nat) {
            Some(m) => r matches Some(s) && s@ == m,
            None => r is None,
        },
{
    if len < min {
        let mut m = String::from_str("length is lower than ");
        push_decimal(&mut m, min as u64);
        Some(m)
    } else if len > max {
        let mut m = String::from_str("length is greater than ");
        push_decimal(&mut m, max as u64);
        Some(m)
    } else {
        None
    }
}

/// The message for a number below `min` or, when there is an upper bound,
/// above `max`, if it is.
pub open spec fn range_violation(v: int, min: nat, max: Option<nat>) -> Option<Seq<char>> {
    if v < min {
        Some("lower than "@ + decimal(min))
    } else if max is Some && v > max->0 {
        Some("greater than "@ + decimal(max->0))
    } else {
        None
    }
}

/// Checks a number against `min` and, if given, `max`.
pub fn check_range(v: i64, min: u32, max: Option<u32>) -> (r: Option<String>)
    ensures
        match range_violation(v as int, min as nat, match max { Some(h) => Some(h as nat), None => None }) {
            Some(m) => r matches Some(s) && s@ == m,
            None => r is None,
        },
{
    if v < min as i64 {
        let mut m = String::from_str("lower than ");
        push_decimal(&mut m, min as u64);
        return Some(m);
    }
    match max {
        Some(hi) => {
            if v > hi as i64 {
                let mut m = String::from_str("greater than ");
                push_decimal(&mut m, hi as u64);
                Some(m)
            } else {
                None
            }
        },
        None => None,
    }
}

/// The message for a pattern that the value does not match.
pub open spec fn pattern_message(pattern: Seq<char>) -> Seq<char> {
    "does not match pattern /"@ + pattern + "/"@
}

/// The report line for a field's violation, or nothing.
pub open spec fn line_text(field: Seq<char>, violation: Option<Seq<char>>) -> Seq<char> {
    match violation {
        Some(m) => field + ": "@ + m + "\n"@,
        None => Seq::empty(),
    }
}

/// The view of an optional message.
pub open spec fn opt_view(v: Option<String>) -> Option<Seq<char>> {
    match v {
        Some(s) => Some(s@),
        None => None,
    }
}

/// Appends the report line for a field's violation, if any.
pub fn note(report: &mut String, field: &str, violation: Option<String>)
    ensures
        final(report)@ == old(report)@ + line_text(field@, opt_view(violation)),
        line_text(field@, opt_view(violation)).len() == 0 <==> violation is None,
{
    proof {
        reveal_strlit("\n");
    }
    match violation {
        Some(m) => {
            report.append(field);
            report.append(": ");
            report.append(m.as_str());
            report.append("\n");
        },
        None => {
            assert(report@ =~= old(report)@ + Seq::<char>::empty());
        },
    }
}

/// The result of a validation: no report when it is empty.
pub fn finish(report: String) -> (r: Result<(), String>)
    ensures
        report@.len() == 0 ==> r is Ok,
        report@.len() > 0 ==> (r matches Err(t) && t@ == report@),
{
    if report.as_str().unicode_len() == 0 {
        Ok(())
    } else {
        Err(report)
    }
}

/// An ASCII digit.
pub open spec fn ascii_digit(c: char) -> bool {
    '0' <= c <= '9'
}

/// An ASCII capital letter or digit.
pub open spec fn upper_alnum(c: char) -> bool {
    ('A' <= c <= 'Z') || ascii_digit(c)
}

/// The timestamp pattern of `created_at` fields, as the rule writes it.
pub open spec fn timestamp_pattern() -> Seq<char> {
    "^[0-9]{4}-[0-9]{2}-[0-9]{2}T[0-9]{2}:[0-9]{2}:[0-9]{2}Z$"@
}

/// Whether `s` matches `^[0-9]{4}-[0-9]{2}-[0-9]{2}T[0-9]{2}:[0-9]{2}:[0-9]{2}Z$`:
/// twenty characters, `-` at 4 and 7, `T` at 10, `:` at 13 and 16, `Z` at
/// 19, ASCII digits elsewhere.
pub open spec fn matches_timestamp(s: Seq<char>) -> bool {
    &&& s.len() == 20
    &&& forall|i: int| 0 <= i < 20 ==> #[trigger] timestamp_char_ok(s[i], i)
}

/// The character the timestamp pattern admits at position `i`.
pub open spec fn timestamp_char_ok(c: char, i: int) -> bool {
    if i == 4 || i == 7 {
        c == '-'
    } else if i == 10 {
        c == 'T'
    } else if i == 13 || i == 16 {
        c == ':'
    } else if i == 19 {
        c == 'Z'
    } else {
        ascii_digit(c)
    }
}

fn timestamp_char_check(c: char, i: usize) -> (r: bool)
    ensures
        r == timestamp_char_ok(c, i as int),
{
    if i == 4 || i == 7 {
        c == '-'
    } else if i == 10 {
        c == 'T'
    } else if i == 13 || i == 16 {
        c == ':'
    } else if i == 19 {
        c == 'Z'
    } else {
        '0' <= c && c <= '9'
    }
}

/// Checks `s` against the timestamp pattern.
pub fn is_timestamp(s: &str) -> (r: bool)
    ensures
        r == matches_timestamp(s@),
{
    let n = s.unicode_len();
    if n != 20 {
        return false;
    }
    let mut i: usize = 0;
    while i < 20
        invariant
            s@.len() == 20,
            i <= 20,
            forall|j: int| 0 <= j < i ==> #[trigger] timestamp_char_ok(s@[j], j),
        decreases 20 - i,
    {
        let c = s.get_char(i);
        if !timestamp_char_check(c, i) {
            return false;
        }
        i += 1;
    }
    true
}

/// Checks `created_at`: the pattern's message when it does not match.
pub fn check_timestamp(s: &str) -> (r: Option<String>)
    ensures
        if matches_timestamp(s@) {
            r is None
        } else {
            r matches Some(m) && m@ == pattern_message(timestamp_pattern())
        },
{
    if is_timestamp(s) {
        None
    } else {
        let mut m = String::from_str("does not match pattern /");
        m.append("^[0-9]{4}-[0-9]{2}-[0-9]{2}T[0-9]{2}:[0-9]{2}:[0-9]{2}Z$");
        m.append("/");
        Some(m)
    }
}

/// The email check of the `garde` crate (`garde::rules::email::parse_email`):
/// the `Display` of its error when the address is refused, `None` when it is
/// accepted.  The rule combines a length limit, a pattern for the local
/// part and a domain or address-literal check; it is named, not restated.
pub uninterp spec fn garde_email_error(s: Seq<char>) -> Option<Seq<char>>;

/// `garde::rules::email::parse_email`: `None` when it accepts the address,
/// else the text of its error.  It refuses the empty string ("value is empty")
/// and a string without '@' ("value is missing `@`").
#[verifier::external_body]
pub fn email_error(s: &str) -> (r: Option<String>)
    ensures
        opt_view(r) == garde_email_error(s@),
        s@.len() == 0 ==> opt_view(r) == Some("value is empty"@),
        s@.len() > 0 && !s@.contains('@') ==> opt_view(r) == Some("value is missing `@`"@),
{
    match garde::rules::email::parse_email(s) {
        Ok(()) => None,
        Err(e) => Some(e.to_string()),
    }
}

/// The message of the email rule, if the address is refused.
pub open spec fn email_violation(s: Seq<char>) -> Option<Seq<char>> {
    match garde_email_error(s) {
        Some(e) => Some("not a valid email: "@ + e),
        None => None,
    }
}

/// Checks an email address with the `garde` rule.
pub fn check_email(s: &str) -> (r: Option<String>)
    ensures
        opt_view(r) == email_violation(s@),
{
    match email_error(s) {
        Some(e) => {
            let mut m = String::from_str("not a valid email: ");
            m.append(e.as_str());
            Some(m)
        },
        None => None,
    }
}

} // verus!
