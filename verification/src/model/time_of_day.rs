//! The time of day, in UTC, that a broker timestamp falls on.

use vstd::prelude::*;

verus! {

/// The first second that has a date: the start of the year -9999.
pub const FIRST_DATED_SECOND: i64 = -377_705_116_800;

/// The last second that has a date: the end of the year 9999.
pub const LAST_DATED_SECOND: i64 = 253_402_300_799;

/// A time of day, to the second.
#[derive(Debug, Clone, Copy, PartialEq, Eq, Structural)]
pub struct TimeOfDay {
    pub hour: u8,
    pub minute: u8,
    pub second: u8,
}

/// The number of whole seconds in `nanoseconds`, rounded towards zero.
pub open spec fn seconds_in(nanoseconds: int) -> int {
    if nanoseconds >= 0 {
        nanoseconds / 1_000_000_000
    } else {
        -((-nanoseconds) / 1_000_000_000)
    }
}

/// The number of whole seconds in a span of `seconds` and `nanoseconds`
/// together, rounded towards zero. The two counts may differ in sign.
pub open spec fn whole_seconds_of(seconds: int, nanoseconds: int) -> int {
    let carried = seconds + seconds_in(nanoseconds);
    let rest = nanoseconds - seconds_in(nanoseconds) * 1_000_000_000;
    if carried < 0 && rest > 0 {
        carried + 1
    } else if carried > 0 && rest < 0 {
        carried - 1
    } else {
        carried
    }
}

/// Whether a count of seconds since the Unix epoch falls on a date.
pub open spec fn is_dated(timestamp: int) -> bool {
    FIRST_DATED_SECOND <= timestamp <= LAST_DATED_SECOND
}

/// The time of day in UTC of a count of seconds since the Unix epoch.
pub open spec fn time_of_day_of(timestamp: int) -> TimeOfDay {
    TimeOfDay {
        hour: ((timestamp % 86_400) / 3_600) as u8,
        minute: ((timestamp % 3_600) / 60) as u8,
        second: (timestamp % 60) as u8,
    }
}

/// Whether `seconds` is far enough from the ends of its type that adding
/// the seconds of any count of nanoseconds to it cannot overflow.
spec fn is_span(seconds: i64) -> bool {
    i64::MIN + 3 <= seconds <= i64::MAX - 3
}

/// Adds `time::Duration::seconds` and `time::Duration::nanoseconds` and
/// reads `whole_seconds` of the sum. The contract claims what the crate's
/// source shows: the sum is kept as seconds and nanoseconds of one sign, so
/// that its whole seconds are those of the span, rounded towards zero. The
/// addition fails where the seconds overflow, which `requires` leaves out.
#[verifier::external_body]
fn span_whole_seconds(seconds: i64, nanoseconds: i32) -> (whole: i64)
    requires
        is_span(seconds),
    ensures
        whole == whole_seconds_of(seconds as int, nanoseconds as int),
{
    (time::Duration::seconds(seconds) + time::Duration::nanoseconds(i64::from(nanoseconds)))
        .whole_seconds()
}

/// Calls `time::OffsetDateTime::from_unix_timestamp` and reads the time of
/// day of the instant. The contract claims what the crate's source shows:
/// the call succeeds exactly for the seconds that fall on a date, and the
/// time of day is that of the second within its day, in UTC.
#[verifier::external_body]
fn unix_time_of_day(timestamp: i64) -> (time: Option<TimeOfDay>)
    ensures
        time == if is_dated(timestamp as int) {
            Some(time_of_day_of(timestamp as int))
        } else {
            None
        },
{
    match time::OffsetDateTime::from_unix_timestamp(timestamp) {
        Ok(at) => Some(
            TimeOfDay { hour: at.hour(), minute: at.minute(), second: at.second() },
        ),
        Err(_) => None,
    }
}

/// The time of day in UTC of the instant that lies `seconds` and
/// `nanoseconds` after the Unix epoch, if the instant falls on a date.
pub fn time_from_seconds_and_nanoseconds(seconds: i64, nanoseconds: i32) -> (time: Option<
    TimeOfDay,
>)
    ensures
        time == if is_dated(whole_seconds_of(seconds as int, nanoseconds as int)) {
            Some(time_of_day_of(whole_seconds_of(seconds as int, nanoseconds as int)))
        } else {
            None
        },
{
    if seconds < i64::MIN + 3 || seconds > i64::MAX - 3 {
        return None;
    }
    unix_time_of_day(span_whole_seconds(seconds, nanoseconds))
}

/// The time of day in UTC of the instant that lies `seconds` and
/// `nanoseconds` after the Unix epoch. The instant has to fall on a date.
pub fn create_time_from_seconds_and_nanoseconds(seconds: i64, nanoseconds: i32) -> (time:
    TimeOfDay)
    requires
        is_dated(whole_seconds_of(seconds as int, nanoseconds as int)),
    ensures
        time == time_of_day_of(whole_seconds_of(seconds as int, nanoseconds as int)),
{
    unix_time_of_day(span_whole_seconds(seconds, nanoseconds)).unwrap()
}

} // verus!
