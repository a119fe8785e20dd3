//! Calendar choice, year numbering and the length of months.

use vstd::prelude::*;

verus! {

/// Milliseconds in one second.
pub const MS_PER_SECOND: i64 = 1_000;

/// Milliseconds in one minute.
pub const MS_PER_MINUTE: i64 = 60_000;

/// Milliseconds in one hour.
pub const MS_PER_HOUR: i64 = 3_600_000;

/// Milliseconds in one day.
pub const MS_PER_DAY: i64 = 86_400_000;

/// Julian Day 2299160.5, the midnight that begins 15 October 1582, in
/// milliseconds. The Gregorian calendar holds from this instant onward.
pub const CUTOVER_JD: i64 = 198_647_467_200_000;

/// The two calendars of the civil time line.
#[derive(Clone, Copy, Debug, PartialEq, Eq, Structural)]
pub enum Calendar {
    Julian,
    Gregorian,
}

/// A civil date and wall-clock time. The year is numbered without a year 0:
/// -1 is followed by 1.
#[derive(Clone, Copy, Debug, PartialEq, Eq, Structural)]
pub struct Civil {
    pub year: i32,
    pub month: u8,
    pub day: u8,
    pub hour: u8,
    pub minute: u8,
    pub second: u8,
}

/// The calendar in force on a civil date: Julian strictly before
/// 15 October 1582, Gregorian from that day on.
pub open spec fn calendar_of(year: int, month: int, day: int) -> Calendar {
    if year < 1582 || (year == 1582 && month < 10) || (year == 1582 && month == 10 && day < 15) {
        Calendar::Julian
    } else {
        Calendar::Gregorian
    }
}

/// The calendar in force at an instant: Julian strictly before the cutover.
pub open spec fn calendar_at(jd: int) -> Calendar {
    if jd < CUTOVER_JD {
        Calendar::Julian
    } else {
        Calendar::Gregorian
    }
}

/// The engine's number for a public year. The engine counts astronomically,
/// with a year 0 where the public numbering goes from -1 straight to 1.
pub open spec fn engine_year(year: int) -> int {
    if year < 0 {
        year + 1
    } else {
        year
    }
}

/// The public number for an engine year.
pub open spec fn public_year(year: int) -> int {
    if year <= 0 {
        year - 1
    } else {
        year
    }
}

/// Whether an astronomically numbered year has a 29 February.
pub open spec fn leap_year(year: int, calendar: Calendar) -> bool {
    match calendar {
        Calendar::Julian => year % 4 == 0,
        Calendar::Gregorian => year % 4 == 0 && (year % 100 != 0 || year % 400 == 0),
    }
}

/// The number of days of a month of an astronomically numbered year, and 0
/// for a month outside 1..=12.
pub open spec fn month_length(year: int, month: int, calendar: Calendar) -> int {
    if month == 2 {
        if leap_year(year, calendar) {
            29
        } else {
            28
        }
    } else if month == 4 || month == 6 || month == 9 || month == 11 {
        30
    } else if 1 <= month <= 12 {
        31
    } else {
        0
    }
}

/// Whether the calendar in force has such a day: the month is one of the
/// twelve and the day one of that month's. The year is the public one.
pub open spec fn date_exists(year: int, month: int, day: int) -> bool {
    1 <= day <= month_length(engine_year(year), month, calendar_of(year, month, day))
}

pub fn calendar_of_date(year: i32, month: u8, day: u8) -> (calendar: Calendar)
    ensures
        calendar == calendar_of(year as int, month as int, day as int),
{
    if year < 1582 {
        Calendar::Julian
    } else if year == 1582 && month < 10 {
        Calendar::Julian
    } else if year == 1582 && month == 10 && day < 15 {
        Calendar::Julian
    } else {
        Calendar::Gregorian
    }
}

pub fn calendar_of_jd(jd: i64) -> (calendar: Calendar)
    ensures
        calendar == calendar_at(jd as int),
{
    if jd < CUTOVER_JD {
        Calendar::Julian
    } else {
        Calendar::Gregorian
    }
}

/// The engine's number for a public year.
pub fn to_engine_year(year: i32) -> (r: i32)
    ensures
        r == engine_year(year as int),
{
    if year < 0 {
        year + 1
    } else {
        year
    }
}

/// The public number for a year that the engine returned. `i32::MIN` has
/// none that fits.
pub fn from_engine_year(year: i32) -> (r: i32)
    requires
        year > i32::MIN,
    ensures
        r == public_year(year as int),
{
    if year <= 0 {
        year - 1
    } else {
        year
    }
}

pub fn is_leap_year(year: i32, calendar: Calendar) -> (r: bool)
    ensures
        r == leap_year(year as int, calendar),
{
    match calendar {
        Calendar::Julian => year % 4 == 0,
        Calendar::Gregorian => year % 4 == 0 && (year % 100 != 0 || year % 400 == 0),
    }
}

pub fn days_in_month(year: i32, month: u8, calendar: Calendar) -> (r: u8)
    ensures
        r == month_length(year as int, month as int, calendar),
{
    if month == 2 {
        if is_leap_year(year, calendar) {
            29
        } else {
            28
        }
    } else if month == 4 || month == 6 || month == 9 || month == 11 {
        30
    } else if 1 <= month && month <= 12 {
        31
    } else {
        0
    }
}

/// Whether the calendar in force has the day `year`-`month`-`day`.
pub fn is_legal_date(year: i32, month: u8, day: u8) -> (r: bool)
    ensures
        r == date_exists(year as int, month as int, day as int),
{
    let calendar = calendar_of_date(year, month, day);
    1 <= day && day <= days_in_month(to_engine_year(year), month, calendar)
}

/// The two numberings undo each other: every public year but 0 comes back
/// from the engine's numbering unchanged, and so does every engine year from
/// the public numbering. No engine year has the public number 0.
pub proof fn year_numbering_round_trip(year: int)
    ensures
        year != 0 ==> public_year(engine_year(year)) == year,
        engine_year(public_year(year)) == year,
        public_year(year) != 0,
{
}

/// The engine's numbering keeps the years in their order: of two public years,
/// neither of them 0, the earlier has the smaller engine number.
pub proof fn year_numbering_keeps_order(a: int, b: int)
    requires
        a != 0,
        b != 0,
    ensures
        a < b <==> engine_year(a) < engine_year(b),
{
}

} // verus!
