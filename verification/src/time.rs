//! Conversion of backend timestamps into calendar date and time.

use vstd::prelude::*;

verus! {

/// A backend timestamp: whole seconds since 1970-01-01T00:00:00Z and the
/// nanoseconds behind the last whole second.
#[derive(Debug, Clone, Copy, PartialEq, Eq)]
pub struct Timestamp {
    pub seconds: i64,
    pub nanos: i32,
}

/// A calendar date and time of day in UTC.
///
/// A leap second is written as second 59 with a nanosecond part of one
/// billion or more.
#[derive(Debug, Clone, Copy, PartialEq, Eq)]
pub struct UtcDateTime {
    pub year: i32,
    pub month: u32,
    pub day: u32,
    pub hour: u32,
    pub minute: u32,
    pub second: u32,
    pub nanosecond: u32,
}

impl UtcDateTime {
    /// The fields name a day of a month and a time of day.
    pub open spec fn wf(self) -> bool {
        &&& 1 <= self.month <= 12
        &&& 1 <= self.day <= 31
        &&& self.hour < 24
        &&& self.minute < 60
        &&& self.second < 60
        &&& self.nanosecond < 2_000_000_000
    }
}

/// The first second that has a calendar date: midnight of January 1 of the
/// year -262143.
pub open spec fn min_seconds() -> int {
    -8_334_601_228_800
}

/// The last second that has a calendar date: the end of December 31 of the
/// year 262142.
pub open spec fn max_seconds() -> int {
    8_210_266_876_799
}

/// The pair of seconds and nanoseconds names a moment that has a calendar
/// date: the seconds are in range, and the nanoseconds stay below one billion,
/// or below two billion in the last second of a minute (a leap second).
pub open spec fn representable(seconds: int, nanos: int) -> bool {
    &&& min_seconds() <= seconds <= max_seconds()
    &&& 0 <= nanos < 2_000_000_000
    &&& nanos >= 1_000_000_000 ==> seconds % 60 == 59
}

/// The calendar date and time that `chrono` gives to a UNIX timestamp.
pub uninterp spec fn utc_from_timestamp(seconds: int, nanos: int) -> Option<UtcDateTime>;

/// The calendar date and time of a backend timestamp; absent where the
/// timestamp has none.
pub open spec fn datetime_of(ts: Timestamp) -> Option<UtcDateTime> {
    if ts.nanos < 0 {
        None
    } else {
        utc_from_timestamp(ts.seconds as int, ts.nanos as int)
    }
}

/// Trusted: `chrono::DateTime::<Utc>::from_timestamp`, read out through
/// `Datelike` and `Timelike`.
///
/// The contract claims that the call depends on its two arguments alone, that
/// it succeeds exactly on the timestamps within the range of dates that
/// `chrono` supports and with a valid nanosecond part, and that the fields read
/// from the result are within the ranges that `chrono` documents for them.
#[verifier::external_body]
pub(crate) fn calendar_from_timestamp(seconds: i64, nanos: u32) -> (r: Option<UtcDateTime>)
    ensures
        r == utc_from_timestamp(seconds as int, nanos as int),
        r is Some <==> representable(seconds as int, nanos as int),
        r matches Some(dt) ==> dt.wf(),
{
    let moment = chrono::DateTime::from_timestamp(seconds, nanos)?;
    Some(UtcDateTime {
        year: chrono::Datelike::year(&moment),
        month: chrono::Datelike::month(&moment),
        day: chrono::Datelike::day(&moment),
        hour: chrono::Timelike::hour(&moment),
        minute: chrono::Timelike::minute(&moment),
        second: chrono::Timelike::second(&moment),
        nanosecond: chrono::Timelike::nanosecond(&moment),
    })
}

} // verus!
