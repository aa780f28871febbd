use vstd::prelude::*;
use crate::geo::grid::{floor_div, lemma_floor_index_bounds};

verus! {

/// The seconds in a day.
pub const SECONDS_PER_DAY: i64 = 86_400;

/// The seconds in an hour.
pub const SECONDS_PER_HOUR: i64 = 3_600;

/// The nanoseconds in a second.
pub const NANOS_PER_SECOND: u32 = 1_000_000_000;

/// The last second of the year 9999, in seconds since the start of 1970.
pub const LAST_SECOND_OF_YEAR_9999: i64 = 253_402_300_799;

/// An instant of universal time: whole seconds since the start of 1970, and the nanoseconds
/// that have passed of the next second.
#[derive(Clone, Copy, PartialEq, Eq, Structural, Debug)]
pub struct Timestamp {
    pub secs: i64,
    pub nanos: u32,
}

impl Timestamp {
    /// The instant in nanoseconds since the start of 1970.
    pub open spec fn total_nanos(self) -> int {
        self.secs * NANOS_PER_SECOND + self.nanos
    }

    /// The instant `secs` seconds and `nanos` nanoseconds after the start of 1970.
    pub fn new(secs: i64, nanos: u32) -> (result: Timestamp)
        ensures
            result.secs == secs,
            result.nanos == nanos,
    {
        Timestamp { secs, nanos }
    }

    /// The distance in time between two instants, in nanoseconds.
    pub fn nanos_between(&self, other: &Timestamp) -> (result: i128)
        ensures
            result == vstd::math::abs(self.total_nanos() - other.total_nanos()),
    {
        let this: i128 = (self.secs as i128) * 1_000_000_000 + (self.nanos as i128);
        let that: i128 = (other.secs as i128) * 1_000_000_000 + (other.nanos as i128);
        if this >= that {
            this - that
        } else {
            that - this
        }
    }
}

/// The second of the day on which an instant falls, from 0 to 86399.
pub open spec fn second_of_day(secs: int) -> int {
    secs % (SECONDS_PER_DAY as int)
}

/// The hour of the day on which an instant falls, from 0 to 23.
pub open spec fn hour_of_day(secs: int) -> int {
    second_of_day(secs) / (SECONDS_PER_HOUR as int)
}

/// The hour of the day, in universal time, of the instant `secs` seconds after the start of
/// 1970.
pub fn utc_hour(secs: i64) -> (result: u32)
    ensures
        result == hour_of_day(secs as int),
        result < 24,
{
    let day: i64 = floor_div(secs, SECONDS_PER_DAY);
    proof {
        lemma_floor_index_bounds(secs as int, SECONDS_PER_DAY as int);
        vstd::arithmetic::div_mod::lemma_fundamental_div_mod(secs as int, SECONDS_PER_DAY as int);
    }
    let second: i128 = (secs as i128) - (day as i128) * 86_400;
    (second / 3_600) as u32
}

/// The calendar day, in universal time, on which the instant `secs` seconds after the start of
/// 1970 falls, written as the year, the month and the day of the month in digits, or `None`
/// for an instant beyond the calendar.
pub uninterp spec fn utc_date_stamp(secs: int) -> Option<Seq<char>>;

/// Calls `chrono::DateTime::from_timestamp` and formats what it gives with
/// `chrono::DateTime::format` and the pattern `%Y%m%d`. The result is the named date stamp of
/// the instant, and `None` exactly where chrono has no date for it. The calendar of chrono
/// reaches beyond the year 262000 on both sides, so an instant from 1970 to the end of 9999
/// has a date.
#[verifier::external_body]
pub(crate) fn date_stamp(secs: i64) -> (result: Option<String>)
    ensures
        match result {
            Some(text) => utc_date_stamp(secs as int) == Some(text@),
            None => utc_date_stamp(secs as int).is_none(),
        },
        0 <= secs <= LAST_SECOND_OF_YEAR_9999 ==> result.is_some(),
{
    match chrono::DateTime::from_timestamp(secs, 0) {
        Some(instant) => Some(instant.format("%Y%m%d").to_string()),
        None => None,
    }
}

} // verus!
