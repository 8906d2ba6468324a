//! The local wall clock, as far as the work-hours rule needs it.

use vstd::prelude::*;
use crate::text::text_le;

verus! {

/// Whether `c` is a decimal digit.
pub open spec fn is_digit(c: char) -> bool {
    '0' <= c <= '9'
}

/// The value of the decimal digit `c`.
pub open spec fn digit_value(c: char) -> int {
    c as u32 - 48
}

/// Whether `t` is a time of day written `HH:MM`: two digits each, the hour
/// below 24 and the minute below 60.
pub open spec fn is_time_of_day(t: Seq<char>) -> bool {
    &&& t.len() == 5
    &&& is_digit(t[0]) && is_digit(t[1]) && t[2] == ':' && is_digit(t[3]) && is_digit(t[4])
    &&& digit_value(t[0]) * 10 + digit_value(t[1]) < 24
    &&& digit_value(t[3]) * 10 + digit_value(t[4]) < 60
}

/// The minute of the day that a time of day names.
pub open spec fn minute_of_day(t: Seq<char>) -> int {
    (digit_value(t[0]) * 10 + digit_value(t[1])) * 60 + digit_value(t[3]) * 10 + digit_value(t[4])
}

/// Two times of day sort as texts exactly as their minutes of the day sort
/// as numbers.
pub proof fn lemma_time_order(a: Seq<char>, b: Seq<char>)
    requires
        is_time_of_day(a),
        is_time_of_day(b),
    ensures
        text_le(a, b) <==> minute_of_day(a) <= minute_of_day(b),
{
    reveal_with_fuel(text_le, 6);
    let a1 = a.drop_first();
    let a2 = a1.drop_first();
    let a3 = a2.drop_first();
    let a4 = a3.drop_first();
    let b1 = b.drop_first();
    let b2 = b1.drop_first();
    let b3 = b2.drop_first();
    let b4 = b3.drop_first();
    assert(a1[0] == a[1] && a2[0] == a[2] && a3[0] == a[3] && a4[0] == a[4]);
    assert(b1[0] == b[1] && b2[0] == b[2] && b3[0] == b[3] && b4[0] == b[4]);
    assert(a4.drop_first().len() == 0);
}

/// Reads the local time of day from `chrono::Local::now()`, formatted with
/// `%H:%M`. Trusted: the result is the zero-padded hour (00 to 23), a colon
/// and the zero-padded minute (00 to 59). Which time it names depends on the
/// clock and the time zone of the machine, so nothing more is claimed. Like
/// the outside function, it fails on a machine whose clock stands before 1970.
#[verifier::external_body]
pub(crate) fn local_time_of_day() -> (r: String)
    ensures
        is_time_of_day(r@),
{
    chrono::Local::now().format("%H:%M").to_string()
}

/// Whole seconds from the instant that an RFC 3339 timestamp names to now:
/// `chrono::DateTime::parse_from_rfc3339`, then the signed distance from
/// `chrono::Local::now()` in seconds. None for a text that is no such
/// timestamp. Trusted, and nothing is claimed of the number: it depends on
/// the clock, and is negative for a timestamp that lies ahead of it.
#[verifier::external_body]
pub(crate) fn seconds_since(timestamp: &str) -> (r: Option<i64>) {
    let then = chrono::DateTime::parse_from_rfc3339(timestamp).ok()?;
    Some(chrono::Local::now().signed_duration_since(then).num_seconds())
}

} // verus!
