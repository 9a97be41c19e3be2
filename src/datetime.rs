//! Calendar dates of the images' 32-bit creation timestamps.
use vstd::prelude::*;

verus! {

/// A UTC calendar date and time, to the second.
#[derive(Debug, Clone, Copy, PartialEq, Eq, Structural)]
pub struct DateTime {
    pub year: i32,
    pub month: u32,
    pub day: u32,
    pub hour: u32,
    pub minute: u32,
    pub second: u32,
}

/// What chrono's `DateTime::from_timestamp(secs, 0)` gives as year, month,
/// day, hour, minute and second in UTC; `None` where chrono has no such date.
pub uninterp spec fn utc_calendar_of(secs: int) -> Option<(i32, u32, u32, u32, u32, u32)>;

/// The calendar date and time `secs` seconds after the Unix epoch.
pub open spec fn datetime_of(secs: int) -> Option<DateTime> {
    match utc_calendar_of(secs) {
        Some(c) => Some(
            DateTime { year: c.0, month: c.1, day: c.2, hour: c.3, minute: c.4, second: c.5 },
        ),
        None => None,
    }
}

/// Relies on chrono's `DateTime::from_timestamp` with zero nanoseconds, and its
/// `Datelike` and `Timelike` accessors: the UTC calendar fields of a count of
/// seconds since the Unix epoch, or `None` out of chrono's range.
#[verifier::external_body]
fn utc_calendar(secs: u32) -> (r: Option<(i32, u32, u32, u32, u32, u32)>)
    ensures
        r == utc_calendar_of(secs as int),
{
    match chrono::DateTime::from_timestamp(secs as i64, 0) {
        Some(d) => Some((
            chrono::Datelike::year(&d),
            chrono::Datelike::month(&d),
            chrono::Datelike::day(&d),
            chrono::Timelike::hour(&d),
            chrono::Timelike::minute(&d),
            chrono::Timelike::second(&d),
        )),
        None => None,
    }
}

impl DateTime {
    /// The date and time of a timestamp in seconds since the Unix epoch.
    pub fn from_timestamp(secs: u32) -> (r: Option<DateTime>)
        ensures
            r == datetime_of(secs as int),
    {
        match utc_calendar(secs) {
            Some(c) => Some(
                DateTime { year: c.0, month: c.1, day: c.2, hour: c.3, minute: c.4, second: c.5 },
            ),
            None => None,
        }
    }
}

} // verus!
