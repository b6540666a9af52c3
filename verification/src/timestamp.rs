//! Stored-timestamp conversion.
//!
//! The store keeps each recording's date as seconds since its own
//! reference instant, which lies a fixed number of seconds after the
//! Unix epoch. Conversion to a Unix timestamp is plain arithmetic and
//! is verified here; conversion from a Unix timestamp to civil time
//! (year, month, day, ...) is the calendar's business and is delegated
//! to an outside crate behind a trusted wrapper.

use vstd::prelude::*;
use chrono::Datelike;
use chrono::Timelike;

verus! {

/// Seconds between the Unix epoch (1970-01-01T00:00:00Z) and the
/// store's reference instant (2001-01-01T00:00:00Z).
pub const STORE_EPOCH_OFFSET: i64 = 978_307_200;

/// A civil UTC date and time, split into plain components.
#[derive(Clone, Copy, PartialEq, Eq, Structural, Debug)]
pub struct CivilDateTime {
    pub year: i32,
    /// 1 to 12.
    pub month: u8,
    /// 1 to 31.
    pub day: u8,
    /// 0 to 23.
    pub hour: u8,
    /// 0 to 59.
    pub minute: u8,
    /// 0 to 59.
    pub second: u8,
}

/// Component ranges that any civil time satisfies.
pub open spec fn civil_wf(c: CivilDateTime) -> bool {
    &&& 1 <= c.month <= 12
    &&& 1 <= c.day <= 31
    &&& c.hour <= 23
    &&& c.minute <= 59
    &&& c.second <= 59
}

/// The Unix timestamp of a stored timestamp: the stored value shifted by
/// the epoch offset, saturating at the top of the machine range.
pub open spec fn unix_of_stored(t: int) -> int {
    if t + STORE_EPOCH_OFFSET > i64::MAX {
        i64::MAX as int
    } else {
        t + STORE_EPOCH_OFFSET
    }
}

/// Shift a stored timestamp to a Unix timestamp (saturating at the top
/// of the range, which real stored dates never reach).
pub fn core_data_to_unix_timestamp(t: i64) -> (r: i64)
    ensures
        r as int == unix_of_stored(t as int),
{
    if t > i64::MAX - STORE_EPOCH_OFFSET {
        i64::MAX
    } else {
        t + STORE_EPOCH_OFFSET
    }
}

/// The civil UTC time (year, month, day, hour, minute, second) that the
/// calendar assigns to a Unix timestamp.
pub uninterp spec fn civil_of(secs: int) -> (int, int, int, int, int, int);

/// The components of `c` are the civil time of the Unix timestamp `secs`.
pub open spec fn is_civil_of(c: CivilDateTime, secs: int) -> bool {
    &&& c.year as int == civil_of(secs).0
    &&& c.month as int == civil_of(secs).1
    &&& c.day as int == civil_of(secs).2
    &&& c.hour as int == civil_of(secs).3
    &&& c.minute as int == civil_of(secs).4
    &&& c.second as int == civil_of(secs).5
}

/// Relies on chrono's `DateTime::<Utc>::from_timestamp` and the
/// `Datelike`/`Timelike` accessors: the result is a pure function of the
/// timestamp; `from_timestamp` returns `None` only out of the calendar's
/// range, which contains at least the years 1 through 9999; and the
/// accessors return a month in 1..=12, a day in 1..=31, an hour in
/// 0..=23, and a minute and second in 0..=59.
#[verifier::external_body]
fn unix_to_civil(secs: i64) -> (r: Option<CivilDateTime>)
    ensures
        r is Some ==> r->Some_0.year as int == civil_of(secs as int).0,
        r is Some ==> r->Some_0.month as int == civil_of(secs as int).1,
        r is Some ==> r->Some_0.day as int == civil_of(secs as int).2,
        r is Some ==> r->Some_0.hour as int == civil_of(secs as int).3,
        r is Some ==> r->Some_0.minute as int == civil_of(secs as int).4,
        r is Some ==> r->Some_0.second as int == civil_of(secs as int).5,
        r is Some ==> civil_wf(r->Some_0),
        -62_135_596_800 <= secs <= 253_402_300_799 ==> r is Some,
{
    match chrono::DateTime::<chrono::Utc>::from_timestamp(secs, 0) {
        None => None,
        Some(dt) => Some(CivilDateTime {
            year: dt.year(),
            month: dt.month() as u8,
            day: dt.day() as u8,
            hour: dt.hour() as u8,
            minute: dt.minute() as u8,
            second: dt.second() as u8,
        }),
    }
}

/// The civil UTC time of a stored timestamp: shift to a Unix timestamp,
/// then ask the calendar. `None` only outside the calendar's range.
pub fn stored_to_civil(t: i64) -> (r: Option<CivilDateTime>)
    ensures
        r is Some ==> is_civil_of(r->Some_0, unix_of_stored(t as int)) && civil_wf(r->Some_0),
        -63_113_904_000 <= t <= 252_423_993_599 ==> r is Some,
{
    let unix = core_data_to_unix_timestamp(t);
    unix_to_civil(unix)
}

} // verus!
