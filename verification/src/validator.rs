//! The checks that a civil date-time and its time zone pass before a value
//! is built from them.

use vstd::prelude::*;
use crate::calendar::{date_exists, is_legal_date, Civil};
use crate::error::DateTimeError;
use crate::leap_second::{is_leap_seconds, leap_second};

verus! {

/// The largest offset from UTC, twelve hours, in milliseconds.
pub const MAX_ZONE: i32 = 43_200_000;

/// A time zone is at most twelve hours east or west of UTC.
pub open spec fn zone_ok(tz: int) -> bool {
    -MAX_ZONE <= tz <= MAX_ZONE
}

/// The wall clock shows such a time; second 60 is let through here.
pub open spec fn clock_ok(hour: int, minute: int, second: int) -> bool {
    hour <= 23 && minute <= 59 && second <= 60
}

/// A second 60 stands only where a leap second was inserted.
pub open spec fn leap_second_ok(c: Civil) -> bool {
    c.second == 60 ==> leap_second(
        c.year as int,
        c.month as int,
        c.day as int,
        c.hour as int,
        c.minute as int,
        c.second as int,
    )
}

/// The ten days from 5 to 14 October 1582, which the change of calendar
/// skipped.
pub open spec fn in_calendar_gap(year: int, month: int, day: int) -> bool {
    year == 1582 && month == 10 && 5 <= day <= 14
}

/// The civil date-time is one that a clock in some zone once showed, or will.
pub open spec fn civil_ok(c: Civil) -> bool {
    &&& clock_ok(c.hour as int, c.minute as int, c.second as int)
    &&& leap_second_ok(c)
    &&& !in_calendar_gap(c.year as int, c.month as int, c.day as int)
    &&& date_exists(c.year as int, c.month as int, c.day as int)
}

/// Everything that is asked of the input of a date-time.
pub open spec fn valid(c: Civil, tz: int) -> bool {
    zone_ok(tz) && civil_ok(c)
}

/// What the checks answer: success on valid input, `InvalidZone` for a zone
/// out of range whatever else is wrong, `InvalidDateTime` otherwise.
pub open spec fn verdict(r: Result<(), DateTimeError>, c: Civil, tz: int) -> bool {
    &&& r is Ok <==> valid(c, tz)
    &&& (r matches Err(DateTimeError::InvalidZone(_))) <==> !zone_ok(tz)
    &&& (r matches Err(DateTimeError::InvalidDateTime(_))) <==> zone_ok(tz) && !civil_ok(c)
}

fn no_such_zone() -> (e: DateTimeError)
    ensures
        e matches DateTimeError::InvalidZone(s) && s@ == "there is no such time zone"@,
{
    DateTimeError::InvalidZone("there is no such time zone".to_owned())
}

fn no_such_date() -> (e: DateTimeError)
    ensures
        e matches DateTimeError::InvalidDateTime(s) && s@ == "there is no such date and time"@,
{
    DateTimeError::InvalidDateTime("there is no such date and time".to_owned())
}

/// Refuses a time zone of more than twelve hours.
pub fn check_timezone(tz: i32) -> (r: Result<(), DateTimeError>)
    ensures
        r is Ok <==> zone_ok(tz as int),
        r is Err ==> r->Err_0 is InvalidZone,
{
    if tz < -MAX_ZONE || tz > MAX_ZONE {
        Err(no_such_zone())
    } else {
        Ok(())
    }
}

/// Refuses an hour above 23, a minute above 59 and a second above 60.
pub fn check_field_ranges(hour: u8, minute: u8, second: u8) -> (r: Result<(), DateTimeError>)
    ensures
        r is Ok <==> clock_ok(hour as int, minute as int, second as int),
        r is Err ==> r->Err_0 is InvalidDateTime,
{
    if hour > 23 || minute > 59 || second > 60 {
        Err(no_such_date())
    } else {
        Ok(())
    }
}

/// Refuses a second 60 anywhere but at a recorded leap second.
pub fn check_leap_second(c: &Civil) -> (r: Result<(), DateTimeError>)
    ensures
        r is Ok <==> leap_second_ok(*c),
        r is Err ==> r->Err_0 is InvalidDateTime,
{
    if c.second == 60 && !is_leap_seconds(c.year, c.month, c.day, c.hour, c.minute, c.second) {
        Err(no_such_date())
    } else {
        Ok(())
    }
}

/// Refuses the days that the change of calendar skipped.
pub fn check_calendar_gap(year: i32, month: u8, day: u8) -> (r: Result<(), DateTimeError>)
    ensures
        r is Ok <==> !in_calendar_gap(year as int, month as int, day as int),
        r is Err ==> r->Err_0 is InvalidDateTime,
{
    if year == 1582 && month == 10 && day > 4 && day < 15 {
        Err(no_such_date())
    } else {
        Ok(())
    }
}

/// Refuses what the range checks let through: a month that is none of the
/// twelve, a day 0, a day past the end of its month.
pub fn check_date_exists(year: i32, month: u8, day: u8) -> (r: Result<(), DateTimeError>)
    ensures
        r is Ok <==> date_exists(year as int, month as int, day as int),
        r is Err ==> r->Err_0 is InvalidDateTime,
{
    if is_legal_date(year, month, day) {
        Ok(())
    } else {
        Err(no_such_date())
    }
}

/// Runs every check, the zone first, and stops at the first that fails.
pub fn validate(c: &Civil, tz: i32) -> (r: Result<(), DateTimeError>)
    ensures
        verdict(r, *c, tz as int),
{
    check_timezone(tz)?;
    check_field_ranges(c.hour, c.minute, c.second)?;
    check_leap_second(c)?;
    check_calendar_gap(c.year, c.month, c.day)?;
    check_date_exists(c.year, c.month, c.day)
}

/// No date from 5 to 14 October 1582 is valid, whatever the time of day and
/// the zone.
pub proof fn gap_days_are_invalid(c: Civil, tz: int)
    requires
        c.year == 1582,
        c.month == 10,
        5 <= c.day <= 14,
    ensures
        !valid(c, tz),
{
}

/// Of two inputs with the same civil fields, the zone alone decides: within
/// twelve hours of UTC both fare alike, beyond it neither is valid.
pub proof fn zone_bound(c: Civil, tz: int)
    ensures
        valid(c, tz) <==> civil_ok(c) && -MAX_ZONE <= tz <= MAX_ZONE,
        valid(c, tz) ==> forall|other: int| zone_ok(other) ==> valid(c, other),
{
}

/// A second 60 is valid exactly at 23:59 of a day in the leap-second table.
pub proof fn second_60_needs_leap_second(c: Civil, tz: int)
    requires
        c.second == 60,
    ensures
        valid(c, tz) ==> c.hour == 23 && c.minute == 59 && crate::leap_second::leap_second_dates().contains(
            (c.year as int, c.month as int, c.day as int),
        ),
{
}

} // verus!
