//! Wall-clock stamps for relayed output, in the `HH:MM:SS` form.

use vstd::prelude::*;
use crate::text::digit_char;

verus! {

/// `n` (below 100) written with exactly two digits, zero-padded.
pub open spec fn two_digits(n: nat) -> Seq<char> {
    seq![digit_char(n / 10), digit_char(n % 10)]
}

/// The text `HH:MM:SS` of a time of day.
pub open spec fn clock_text(h: nat, m: nat, s: nat) -> Seq<char> {
    two_digits(h) + seq![':'] + two_digits(m) + seq![':'] + two_digits(s)
}

/// `t` is the `HH:MM:SS` text of some time of day; a leap second shows as 60.
pub open spec fn is_clock_text(t: Seq<char>) -> bool {
    exists|h: nat, m: nat, s: nat| h < 24 && m < 60 && s <= 60 && t == clock_text(h, m, s)
}

/// What stands in for the time when the clock cannot be read.
pub const UNKNOWN_TIME: &'static str = "--:--:--";

/// `t` is a stamp: the text of a time of day, or the unknown time.
pub open spec fn is_stamp(t: Seq<char>) -> bool {
    is_clock_text(t) || t == UNKNOWN_TIME@
}

/// The UTC time of day, `HH:MM:SS`, at `secs` seconds after the Unix epoch.
pub open spec fn time_of_day_text(secs: int) -> Seq<char> {
    let d = secs % 86400;
    clock_text((d / 3600) as nat, (d % 3600 / 60) as nat, (d % 60) as nat)
}

/// Relies on `std::time::SystemTime::elapsed`, taken from the Unix epoch:
/// the whole seconds since the epoch, none when the clock reads earlier.
/// Which time it is depends on the clock, so nothing is promised of it.
#[verifier::external_body]
fn unix_seconds_now() -> (r: Option<u64>) {
    match std::time::UNIX_EPOCH.elapsed() {
        Ok(d) => Some(d.as_secs()),
        Err(_) => None,
    }
}

/// The last second of the year 9999, well inside chrono's range of dates.
pub const LATEST_STAMPED_SECOND: i64 = 253402300799;

/// Relies on `chrono::DateTime::from_timestamp(secs, 0)`, none only when the
/// day falls outside `NaiveDate`'s years, and its `%H:%M:%S` format: the
/// hour, minute and second of the time of day, each zero-padded to two
/// digits.
#[verifier::external_body]
fn utc_time_of_day(secs: i64) -> (r: Option<String>)
    ensures
        r matches Some(t) ==> t@ == time_of_day_text(secs as int),
        0 <= secs <= LATEST_STAMPED_SECOND ==> r is Some,
{
    match chrono::DateTime::from_timestamp(secs, 0) {
        Some(t) => Some(t.format("%H:%M:%S").to_string()),
        None => None,
    }
}

/// A time of day is a clock text.
pub proof fn lemma_time_of_day_is_clock_text(secs: int)
    ensures
        is_clock_text(time_of_day_text(secs)),
{
    let d = secs % 86400;
    assert(0 <= d < 86400);
    assert(d / 3600 < 24) by (nonlinear_arith)
        requires
            0 <= d < 86400,
    ;
    assert(0 <= d % 3600 < 3600);
    assert(d % 3600 / 60 < 60) by (nonlinear_arith)
        requires
            0 <= d % 3600 < 3600,
    ;
    assert(0 <= d % 3600 / 60);
    assert(0 <= d / 3600);
    let h = (d / 3600) as nat;
    let m = (d % 3600 / 60) as nat;
    let s = (d % 60) as nat;
    assert(h < 24 && m < 60 && s <= 60 && time_of_day_text(secs) == clock_text(h, m, s));
}

/// The stamp for a time-of-day text, or the unknown time where there is none.
pub fn stamp_or_unknown(text: Option<String>) -> (r: String)
    ensures
        match text {
            Some(t) => r@ == t@,
            None => r@ == UNKNOWN_TIME@,
        },
{
    match text {
        Some(t) => t,
        None => String::from_str(UNKNOWN_TIME),
    }
}

/// The UTC time of day at `secs` seconds after the Unix epoch, or the unknown
/// time where chrono cannot represent that instant.
pub fn time_of_day(secs: i64) -> (r: String)
    ensures
        r@ == time_of_day_text(secs as int) || r@ == UNKNOWN_TIME@,
        0 <= secs <= LATEST_STAMPED_SECOND ==> r@ == time_of_day_text(secs as int),
        is_stamp(r@),
{
    proof {
        lemma_time_of_day_is_clock_text(secs as int);
    }
    stamp_or_unknown(utc_time_of_day(secs))
}

/// The stamp for a clock reading in whole seconds since the Unix epoch: the
/// UTC time of day, or the unknown time when there is no reading or it lies
/// beyond what can be stamped.
pub fn stamp_at(now: Option<u64>) -> (r: String)
    ensures
        is_stamp(r@),
        now is None ==> r@ == UNKNOWN_TIME@,
        now matches Some(s) ==> (s <= LATEST_STAMPED_SECOND ==> r@ == time_of_day_text(s as int)),
{
    match now {
        Some(s) => {
            if s <= 0x7fff_ffff_ffff_ffffu64 {
                time_of_day(s as i64)
            } else {
                String::from_str(UNKNOWN_TIME)
            }
        },
        None => String::from_str(UNKNOWN_TIME),
    }
}

/// The stamp for now: the UTC time of day, or the unknown time when the
/// clock reads before the epoch or beyond what can be stamped.
pub fn stamp_now() -> (r: String)
    ensures
        is_stamp(r@),
{
    stamp_at(unix_seconds_now())
}

} // verus!
