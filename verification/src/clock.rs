//! Times: reading the clock and writing points in time and durations.

use chrono::{DateTime, Datelike, Timelike, Utc};
use vstd::prelude::*;

use crate::text::{decimal, decimal_text};

verus! {

/// Seconds in a day.
pub const DAY_SECS: i64 = 86_400;

/// The first second of the calendar, the start of the year -262143.
pub const CALENDAR_START: i64 = -8_334_601_228_800;

/// The last second of the calendar, the end of the year 262142.
pub const CALENDAR_END: i64 = 8_210_266_876_799;

/// Whether a number of seconds since 1970 falls into the calendar.
pub open spec fn in_calendar(secs: int) -> bool {
    CALENDAR_START <= secs <= CALENDAR_END
}

/// The days from the first of January 1970 to the day of a point in time, which
/// is given in seconds since 1970.
pub open spec fn day_number(secs: int) -> int {
    secs / DAY_SECS as int
}

/// The hour of the day of a point in time.
pub open spec fn hour_of(secs: int) -> int {
    secs % DAY_SECS as int / 3600
}

/// The days from Sunday to the weekday of a point in time. The first day of
/// 1970 was a Thursday.
pub open spec fn weekday_number(secs: int) -> int {
    (day_number(secs) + 4) % 7
}

/// The seconds that an unsigned timestamp stands for once its bits are read as
/// a signed number.
pub open spec fn signed_timestamp(ts: u64) -> int {
    if ts <= i64::MAX {
        ts as int
    } else {
        ts - 0x1_0000_0000_0000_0000
    }
}

/// Reads the bits of an unsigned timestamp as a signed number.
pub fn to_signed(ts: u64) -> (secs: i64)
    ensures
        secs == signed_timestamp(ts),
{
    proof {
        assert(ts <= 0x7fff_ffff_ffff_ffff ==> ts as i64 == ts) by (bit_vector);
        assert(ts > 0x7fff_ffff_ffff_ffff ==> ts as i64 == ts - 0x1_0000_0000_0000_0000)
            by (bit_vector);
    }
    #[verifier::truncate]
    (ts as i64)
}

/// Reads the bits of a signed number as an unsigned timestamp.
pub fn to_unsigned(secs: i64) -> (ts: u64)
    ensures
        signed_timestamp(ts) == secs,
{
    proof {
        assert(secs >= 0 ==> secs as u64 == secs) by (bit_vector);
        assert(secs < 0 ==> secs as u64 == secs + 0x1_0000_0000_0000_0000) by (bit_vector);
    }
    #[verifier::truncate]
    (secs as u64)
}

/// The whole seconds since 1970, or nothing if the clock is set to an earlier
/// time.
///
/// Trusted: reads the clock with `std::time::SystemTime::duration_since`.
/// Nothing is claimed of the result.
#[verifier::external_body]
fn seconds_since_epoch() -> Option<u64> {
    std::time::SystemTime::now()
        .duration_since(std::time::UNIX_EPOCH)
        .ok()
        .map(|lasted| lasted.as_secs())
}

/// The timestamp for a reading of the clock; a time before 1970 counts as 1970.
pub fn timestamp_of_reading(reading: Option<u64>) -> (timestamp: u64)
    ensures
        timestamp == (match reading {
            Some(secs) => secs,
            None => 0,
        }),
{
    reading.unwrap_or(0)
}

/// The whole seconds since 1970. What the clock says is not constrained.
pub fn current_timestamp() -> u64 {
    timestamp_of_reading(seconds_since_epoch())
}

/// A point in time, in seconds since 1970 and nanoseconds, as RFC 3339 writes it
/// in UTC.
pub uninterp spec fn rfc3339_text(secs: int, nanos: int) -> Seq<char>;

/// Writes a point in time as RFC 3339 does, in UTC.
///
/// Trusted: calls `chrono::DateTime::from_timestamp` and, on its result,
/// `chrono::DateTime::to_rfc3339`. The contract claims that there is a text for
/// the seconds of the years from -262143 to 262142 and for no others, and that
/// the text depends on the seconds and nanoseconds alone.
#[verifier::external_body]
fn format_rfc3339(secs: i64, nanos: u32) -> (text: Option<String>)
    requires
        nanos < 1_000_000_000,
    ensures
        text is Some <==> in_calendar(secs as int),
        text matches Some(text) ==> text@ == rfc3339_text(secs as int, nanos as int),
{
    DateTime::<Utc>::from_timestamp(secs, nanos).map(|time| time.to_rfc3339())
}

/// The present time, in seconds since 1970 and nanoseconds.
///
/// Trusted: turns a reading of the clock into a `chrono::DateTime` with its
/// `From` impl for `std::time::SystemTime`, which also takes times before 1970.
/// The contract claims that the time falls into the calendar and that the
/// nanoseconds stay under a second; which time it is, is left open. A clock that
/// is set to a year past 262142 has no such time.
#[verifier::external_body]
fn present_time() -> (time: (i64, u32))
    ensures
        in_calendar(time.0 as int),
        time.1 < 1_000_000_000,
{
    let now = DateTime::<Utc>::from(std::time::SystemTime::now());
    (now.timestamp(), now.timestamp_subsec_nanos())
}

/// Whether a text is what RFC 3339 writes for some point in time of the
/// calendar.
pub open spec fn is_time_text(text: Seq<char>) -> bool {
    exists|secs: int, nanos: int|
        in_calendar(secs) && 0 <= nanos < 1_000_000_000 && text == #[trigger] rfc3339_text(
            secs,
            nanos,
        )
}

/// A timestamp as RFC 3339 writes it in UTC. The bits of the timestamp are read
/// as a signed number; where that is outside the calendar, another text stands
/// in for it.
pub open spec fn timestamp_text(ts: u64, fallback: Seq<char>) -> Seq<char> {
    if in_calendar(signed_timestamp(ts)) {
        rfc3339_text(signed_timestamp(ts), 0)
    } else {
        fallback
    }
}

/// Writes the present time as RFC 3339 does, in UTC.
fn present_text() -> (text: String)
    ensures
        is_time_text(text@),
{
    let (secs, nanos) = present_time();
    format_rfc3339(secs, nanos).unwrap()
}

/// Writes a timestamp as RFC 3339 does, in UTC, or the given text where the
/// timestamp is outside the calendar.
pub fn iso_timestamp_or(ts: u64, fallback: String) -> (text: String)
    ensures
        text@ == timestamp_text(ts, fallback@),
{
    match format_rfc3339(to_signed(ts), 0) {
        Some(text) => text,
        None => fallback,
    }
}

/// Writes a timestamp as RFC 3339 does, in UTC. The bits of the timestamp are
/// read as a signed number; where that is outside the calendar, the present
/// time is written in its place.
pub fn iso_timestamp(ts: u64) -> (text: String)
    ensures
        exists|present: Seq<char>|
            is_time_text(present) && text@ == #[trigger] timestamp_text(ts, present),
{
    iso_timestamp_or(ts, present_text())
}

/// A day of the week.
#[derive(Debug, Clone, Copy, PartialEq, Eq, Structural)]
pub enum Weekday {
    Mon,
    Tue,
    Wed,
    Thu,
    Fri,
    Sat,
    Sun,
}

impl Weekday {
    /// How many days after Sunday the day comes.
    pub open spec fn from_sunday(self) -> int {
        match self {
            Weekday::Sun => 0,
            Weekday::Mon => 1,
            Weekday::Tue => 2,
            Weekday::Wed => 3,
            Weekday::Thu => 4,
            Weekday::Fri => 5,
            Weekday::Sat => 6,
        }
    }

    /// How many days after Sunday the day comes.
    pub fn num_days_from_sunday(&self) -> (days: u32)
        ensures
            days == self.from_sunday(),
    {
        match self {
            Weekday::Sun => 0,
            Weekday::Mon => 1,
            Weekday::Tue => 2,
            Weekday::Wed => 3,
            Weekday::Thu => 4,
            Weekday::Fri => 5,
            Weekday::Sat => 6,
        }
    }
}

/// The weekday of a point in time, in UTC.
///
/// Trusted: calls `chrono::Datelike::weekday` on a `chrono::DateTime<Utc>`. The
/// contract claims that weekdays follow one another day by day, with the first
/// day of 1970 a Thursday.
#[verifier::external_body]
pub(crate) fn utc_weekday(secs: i64) -> (day: Weekday)
    requires
        in_calendar(secs as int),
    ensures
        day.from_sunday() == weekday_number(secs as int),
{
    match DateTime::<Utc>::from_timestamp(secs, 0).unwrap().weekday() {
        chrono::Weekday::Mon => Weekday::Mon,
        chrono::Weekday::Tue => Weekday::Tue,
        chrono::Weekday::Wed => Weekday::Wed,
        chrono::Weekday::Thu => Weekday::Thu,
        chrono::Weekday::Fri => Weekday::Fri,
        chrono::Weekday::Sat => Weekday::Sat,
        chrono::Weekday::Sun => Weekday::Sun,
    }
}

/// The hour of the day of a point in time, in UTC.
///
/// Trusted: calls `chrono::Timelike::hour` on a `chrono::DateTime<Utc>`. The
/// contract claims that it counts the whole hours since midnight.
#[verifier::external_body]
pub(crate) fn utc_hour(secs: i64) -> (hour: u32)
    requires
        in_calendar(secs as int),
    ensures
        hour == hour_of(secs as int),
{
    DateTime::<Utc>::from_timestamp(secs, 0).unwrap().hour()
}

/// A duration in hours and minutes, or in minutes where it is under an hour.
pub open spec fn duration_text(secs: u64) -> Seq<char> {
    let hours = secs as nat / 3600;
    let minutes = secs as nat % 3600 / 60;
    if hours > 0 {
        decimal_text(hours) + "h "@ + decimal_text(minutes) + "m"@
    } else {
        decimal_text(minutes) + "m"@
    }
}

/// Writes a duration in hours and minutes.
pub fn format_duration(secs: u64) -> (text: String)
    ensures
        text@ == duration_text(secs),
{
    let hours: u64 = secs / 3600;
    let minutes: u64 = (secs % 3600) / 60;
    if hours > 0 {
        let mut text = decimal(hours as u128);
        text.append("h ");
        text.append(decimal(minutes as u128).as_str());
        text.append("m");
        text
    } else {
        let mut text = decimal(minutes as u128);
        text.append("m");
        text
    }
}

/// Timestamps that fit are the seconds themselves; those that do not wrap round
/// to the negative numbers.
pub proof fn law_signed_timestamp_keeps_bits(ts: u64)
    ensures
        ts < 0x8000_0000_0000_0000 ==> signed_timestamp(ts) == ts,
        ts >= 0x8000_0000_0000_0000 ==> signed_timestamp(ts) + 0x1_0000_0000_0000_0000 == ts,
{
}

/// A timestamp up to the end of the year 262142 is written as the time it is,
/// one that wraps round to a negative number not below the start of the year
/// -262143 as the time before 1970, and any other one as the fallback.
pub proof fn law_timestamp_is_written_as_its_time(ts: u64, fallback: Seq<char>)
    ensures
        ts <= 8_210_266_876_799 ==> timestamp_text(ts, fallback) == rfc3339_text(ts as int, 0),
        ts + 8_334_601_228_800 >= 0x1_0000_0000_0000_0000 ==> timestamp_text(ts, fallback)
            == rfc3339_text(ts - 0x1_0000_0000_0000_0000, 0),
        8_210_266_876_799 < ts && ts + 8_334_601_228_800 < 0x1_0000_0000_0000_0000
            ==> timestamp_text(ts, fallback) == fallback,
{
}

/// Counting from Sunday, the days of the week come in their order.
pub proof fn law_weekdays_in_order()
    ensures
        Weekday::Sun.from_sunday() == 0,
        Weekday::Mon.from_sunday() == 1,
        Weekday::Tue.from_sunday() == 2,
        Weekday::Wed.from_sunday() == 3,
        Weekday::Thu.from_sunday() == 4,
        Weekday::Fri.from_sunday() == 5,
        Weekday::Sat.from_sunday() == 6,
{
}

/// A duration is written as the whole hours and minutes that it holds; the hours
/// are left out where there are none.
pub proof fn law_duration_is_hours_and_minutes(secs: u64, hours: nat, minutes: nat)
    requires
        minutes < 60,
        hours * 3600 + minutes * 60 <= secs < hours * 3600 + minutes * 60 + 60,
    ensures
        hours == 0 ==> duration_text(secs) == decimal_text(minutes) + "m"@,
        hours > 0 ==> duration_text(secs) == decimal_text(hours) + "h "@ + decimal_text(minutes)
            + "m"@,
{
}

} // verus!
