//! The clock: today's date, wall-clock timestamps and the monotonic clock
//! that drives the countdown. Every item here reads the machine's clock, so
//! none of them promises a particular value.

use crate::text::{all_digits, is_digit};
use std::time::{Duration, Instant};
use vstd::prelude::*;

verus! {

#[verifier::external_type_specification]
#[verifier::external_body]
pub struct ExInstant(Instant);

/// Whether `s` has the form that chrono's `%Y-%m-%d` writes: the year as at
/// least four digits (zero-padded), with a sign before it for years outside
/// 0 to 9999; then `-`, the month as two digits, `-`, the day as two digits.
pub open spec fn is_date_text(s: Seq<char>) -> bool {
    let body = if s.len() > 0 && (s[0] == '+' || s[0] == '-') {
        s.drop_first()
    } else {
        s
    };
    let n = body.len();
    &&& n >= 10
    &&& all_digits(body.take(n - 6))
    &&& body[n - 6] == '-'
    &&& is_digit(body[n - 5])
    &&& is_digit(body[n - 4])
    &&& body[n - 3] == '-'
    &&& is_digit(body[n - 2])
    &&& is_digit(body[n - 1])
}

/// Today's date in the local time zone: chrono's `Local::now()` formatted
/// with `%Y-%m-%d`. Which date it is depends on the clock and on the
/// machine's time zone; the text has the form that chrono's formatting code
/// writes for these three fields (see [`is_date_text`]).
#[verifier::external_body]
pub fn today_string() -> (r: String)
    ensures
        is_date_text(r@),
{
    chrono::Local::now().format("%Y-%m-%d").to_string()
}

/// The current local time as an RFC 3339 timestamp: chrono's
/// `Local::now().to_rfc3339()`. It depends on the clock; nothing is stated.
#[verifier::external_body]
pub(crate) fn now_rfc3339() -> String {
    chrono::Local::now().to_rfc3339()
}

/// Whether chrono's `DateTime::parse_from_rfc3339` accepts the text. The
/// parser reads only its argument.
pub uninterp spec fn rfc3339_accepts(text: Seq<char>) -> bool;

/// Whole hours from the instant written in `stamp` to now: chrono's
/// `DateTime::parse_from_rfc3339(stamp)`, then
/// `Local::now().signed_duration_since(..).num_hours()`. It is `None` exactly
/// when the parser refuses the text; the number of hours depends on the clock
/// and is left unsaid.
#[verifier::external_body]
pub(crate) fn hours_since_rfc3339(stamp: &str) -> (r: Option<i64>)
    ensures
        r is Some <==> rfc3339_accepts(stamp@),
{
    match chrono::DateTime::parse_from_rfc3339(stamp) {
        Ok(fetched) => Some(chrono::Local::now().signed_duration_since(fetched).num_hours()),
        Err(_) => None,
    }
}

/// A reading of the monotonic clock: `std::time::Instant::now()`. Nothing is
/// stated of it.
#[verifier::external_body]
pub(crate) fn instant_now() -> Instant {
    Instant::now()
}

/// Time gone by since `since`: `Instant::elapsed`. It depends on the clock;
/// nothing is stated.
#[verifier::external_body]
pub(crate) fn elapsed_since(since: &Instant) -> Duration {
    since.elapsed()
}

/// The whole seconds of a duration: `Duration::as_secs`. The duration is
/// opaque here, so nothing is stated of the number.
#[verifier::external_body]
pub(crate) fn whole_seconds(d: &Duration) -> u64 {
    d.as_secs()
}

} // verus!
