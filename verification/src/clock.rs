//! Wall-clock timestamps for recordings: the system clock read as whole
//! seconds since the Unix epoch, written as `YYYY-MM-DDTHH:MM:SSZ` in UTC.
use vstd::prelude::*;
use std::time::{Duration, SystemTime};

verus! {

#[verifier::external_type_specification]
#[verifier::external_body]
pub struct ExSystemTime(SystemTime);

/// The latest time, in seconds since the Unix epoch, that is written as a
/// timestamp (about the year 190 000, well inside the calendar range).
pub const MAX_STAMP_SECS: u64 = 6_000_000_000_000;

/// Seconds since the Unix epoch to midnight, 1 January 10000 UTC: every
/// earlier time has a four-digit year.
pub const FOUR_DIGIT_YEAR_END: u64 = 253_402_300_800;

/// The text that `chrono` writes for the UTC time `secs` seconds after the
/// Unix epoch with the pattern `%Y-%m-%dT%H:%M:%SZ`.
pub uninterp spec fn utc_stamp(secs: int) -> Seq<char>;

/// `SystemTime::now`: the system clock's current reading. Nothing is
/// stated of it: it is whatever the clock says.
#[verifier::external_body]
fn system_time_now() -> SystemTime {
    SystemTime::now()
}

/// `SystemTime::duration_since(UNIX_EPOCH)`: the time elapsed since the
/// Unix epoch, or None when `t` lies before it. Which of the two comes back
/// depends on the clock reading, so nothing is stated of it.
#[verifier::external_body]
fn elapsed_since_epoch(t: &SystemTime) -> Option<Duration> {
    t.duration_since(std::time::UNIX_EPOCH).ok()
}

/// `Duration::as_secs`: the whole seconds of `d`.
#[verifier::external_body]
fn whole_seconds(d: &Duration) -> u64 {
    d.as_secs()
}

/// `chrono::DateTime::from_timestamp(secs, 0)` formatted with
/// `%Y-%m-%dT%H:%M:%SZ`: `DateTime::from_timestamp` returns `Some` for every
/// time inside chrono's calendar (years up to 262 142), so for `secs` up to
/// `MAX_STAMP_SECS` the text is there. It ends with the pattern's literal
/// `Z`, and before the year 10000 the year takes four digits, so the text
/// is 20 characters long.
#[verifier::external_body]
fn format_utc(secs: u64) -> (r: Option<String>)
    requires
        secs <= MAX_STAMP_SECS,
    ensures
        r is Some,
        r matches Some(s) ==> s@ == utc_stamp(secs as int) && s@.len() > 0 && s@.last() == 'Z' && (secs
            < FOUR_DIGIT_YEAR_END ==> s@.len() == 20),
{
    match chrono::DateTime::from_timestamp(secs as i64, 0) {
        Some(t) => Some(t.format("%Y-%m-%dT%H:%M:%SZ").to_string()),
        None => None,
    }
}

/// The timestamp of the time `secs` seconds after the Unix epoch, or None
/// past `MAX_STAMP_SECS`.
pub fn timestamp_at(secs: u64) -> (r: Option<String>)
    ensures
        secs <= MAX_STAMP_SECS ==> (r matches Some(s) && s@ == utc_stamp(secs as int) && s@.len() > 0
            && s@.last() == 'Z' && (secs < FOUR_DIGIT_YEAR_END ==> s@.len() == 20)),
        secs > MAX_STAMP_SECS ==> r is None,
{
    if secs <= MAX_STAMP_SECS {
        format_utc(secs)
    } else {
        None
    }
}

/// The current time as a timestamp, or None when the system clock reads
/// before the Unix epoch or past `MAX_STAMP_SECS`.
pub fn current_timestamp() -> (r: Option<String>)
    ensures
        r matches Some(s) ==> s@.len() > 0 && s@.last() == 'Z' && exists|secs: int|
            0 <= secs <= MAX_STAMP_SECS && s@ == utc_stamp(secs),
{
    let now = system_time_now();
    match elapsed_since_epoch(&now) {
        Some(d) => {
            let secs = whole_seconds(&d);
            timestamp_at(secs)
        },
        None => None,
    }
}

} // verus!
