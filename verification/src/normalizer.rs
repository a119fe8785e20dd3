//! What is done to the fields of a request before a value is built from them:
//! a 29 February that the year lacks becomes 1 March, and an hour of
//! daylight-saving time is taken off.

use vstd::prelude::*;
use crate::calendar::{
    calendar_of, calendar_of_date, date_exists, days_in_month, engine_year, is_leap_year, leap_year,
    month_length, public_year, to_engine_year, Civil,
};
use crate::error::{DateTimeError, Error};
use crate::engine::CivilAnswer;
use crate::horo_date_time::{built_from_civil, HoroDateTime};
use crate::validator::{civil_ok, in_calendar_gap, validate, zone_ok};

verus! {

/// The fields with a 29 February moved to 1 March where the year, under the
/// calendar of its February, is no leap year.
pub open spec fn roll_feb_29(c: Civil) -> Civil {
    if c.month == 2 && c.day == 29 && !leap_year(
        engine_year(c.year as int),
        calendar_of(c.year as int, 2, 28),
    ) {
        Civil { month: 3, day: 1, ..c }
    } else {
        c
    }
}

/// The day before a civil date, as year, month and day: the day before
/// 15 October 1582 is the 4th, and the year before year 1 is -1.
pub open spec fn day_before(year: int, month: int, day: int) -> (int, int, int) {
    if year == 1582 && month == 10 && day == 15 {
        (1582, 10, 4)
    } else if day > 1 {
        (year, month, day - 1)
    } else if month > 1 {
        (
            year,
            month - 1,
            month_length(engine_year(year), month - 1, calendar_of(year, month - 1, 1)),
        )
    } else {
        (public_year(engine_year(year) - 1), 12, 31)
    }
}

/// The civil fields one hour earlier, minute and second unchanged.
pub open spec fn hour_earlier(c: Civil) -> (int, int, int, int) {
    if c.hour >= 1 {
        (c.year as int, c.month as int, c.day as int, c.hour - 1)
    } else {
        let d = day_before(c.year as int, c.month as int, c.day as int);
        (d.0, d.1, d.2, 23)
    }
}

/// Whether the hour of daylight-saving time is taken off: it is asked for,
/// and the fields and the zone are valid as they stand. Invalid fields are
/// left as they are, to be refused as they are.
pub open spec fn takes_hour_off(c: Civil, tz: int, st: bool) -> bool {
    st && zone_ok(tz) && civil_ok(c)
}

/// What normalizing gives: the fields after both steps, or nothing where the
/// hour before the first hour of the earliest year is asked for.
pub open spec fn normalized(c: Civil, tz: int, st: bool) -> Option<Civil> {
    let rolled = roll_feb_29(c);
    if takes_hour_off(rolled, tz, st) {
        let e = hour_earlier(rolled);
        if e.0 < i32::MIN {
            None
        } else {
            Some(
                Civil {
                    year: e.0 as i32,
                    month: e.1 as u8,
                    day: e.2 as u8,
                    hour: e.3 as u8,
                    ..rolled
                },
            )
        }
    } else {
        Some(rolled)
    }
}

/// How the outcome of building a value from the fields of a request depends
/// on the fields, the zone, the daylight-saving flag and the engine's answer.
pub open spec fn built_from_request(
    r: Result<HoroDateTime, Error>,
    c: Civil,
    tz: int,
    st: bool,
    answer: CivilAnswer,
) -> bool {
    match normalized(c, tz, st) {
        Some(n) => built_from_civil(r, n, tz, answer),
        None => r matches Err(Error::DateTime(DateTimeError::InvalidDateTime(_))),
    }
}

fn feb_29_rolled(c: Civil) -> (r: Civil)
    ensures
        r == roll_feb_29(c),
{
    if c.month == 2 && c.day == 29 && !is_leap_year(
        to_engine_year(c.year),
        calendar_of_date(c.year, 2, 28),
    ) {
        Civil { year: c.year, month: 3, day: 1, hour: c.hour, minute: c.minute, second: c.second }
    } else {
        c
    }
}

/// The day before an existing date, or nothing before 1 January of the
/// earliest year.
fn previous_day(year: i32, month: u8, day: u8) -> (r: Option<(i32, u8, u8)>)
    requires
        date_exists(year as int, month as int, day as int),
    ensures
        match r {
            Some(d) => (d.0 as int, d.1 as int, d.2 as int) == day_before(
                year as int,
                month as int,
                day as int,
            ),
            None => day_before(year as int, month as int, day as int).0 < i32::MIN,
        },
{
    if year == 1582 && month == 10 && day == 15 {
        Some((1582, 10, 4))
    } else if day > 1 {
        Some((year, month, day - 1))
    } else if month > 1 {
        let before: u8 = month - 1;
        let calendar = calendar_of_date(year, before, 1);
        Some((year, before, days_in_month(to_engine_year(year), before, calendar)))
    } else if year == i32::MIN {
        None
    } else if year == 1 || year == 0 {
        Some((year - 2, 12, 31))
    } else {
        Some((year - 1, 12, 31))
    }
}

/// Normalizes the fields of a request: first the 29 February, then the hour
/// of daylight-saving time.
pub fn normalize(c: Civil, time_zone: i32, st: bool) -> (r: Option<Civil>)
    ensures
        r == normalized(c, time_zone as int, st),
{
    let rolled = feb_29_rolled(c);
    if !st || validate(&rolled, time_zone).is_err() {
        return Some(rolled);
    }
    if rolled.hour >= 1 {
        return Some(
            Civil {
                year: rolled.year,
                month: rolled.month,
                day: rolled.day,
                hour: rolled.hour - 1,
                minute: rolled.minute,
                second: rolled.second,
            },
        );
    }
    match previous_day(rolled.year, rolled.month, rolled.day) {
        Some(d) => Some(
            Civil {
                year: d.0,
                month: d.1,
                day: d.2,
                hour: 23,
                minute: rolled.minute,
                second: rolled.second,
            },
        ),
        None => None,
    }
}

/// Builds the value of the fields of a request: the fields are normalized,
/// then checked; `answer` is what the engine gave for the normalized fields.
pub fn horo_date_time(
    year: i32,
    month: u8,
    day: u8,
    hour: u8,
    minute: u8,
    second: u8,
    time_zone: i32,
    st: bool,
    answer: CivilAnswer,
) -> (r: Result<HoroDateTime, Error>)
    ensures
        built_from_request(
            r,
            Civil { year, month, day, hour, minute, second },
            time_zone as int,
            st,
            answer,
        ),
        r matches Ok(v) ==> v.wf(),
{
    match normalize(Civil { year, month, day, hour, minute, second }, time_zone, st) {
        Some(n) => HoroDateTime::new(
            n.year,
            n.month,
            n.day,
            n.hour,
            n.minute,
            n.second,
            time_zone,
            answer,
        ),
        None => Err(
            Error::from(
                DateTimeError::InvalidDateTime("there is no such date and time".to_owned()),
            ),
        ),
    }
}

/// The day before a day that exists, and that the change of calendar did not
/// skip, is such a day too.
pub proof fn day_before_exists(year: int, month: int, day: int)
    requires
        date_exists(year, month, day),
        !in_calendar_gap(year, month, day),
    ensures
        ({
            let d = day_before(year, month, day);
            date_exists(d.0, d.1, d.2) && !in_calendar_gap(d.0, d.1, d.2)
        }),
{
}

/// A 29 February stays where the year has one, and only there: after the
/// first step no date is a 29 February of a year without one.
pub proof fn feb_29_only_in_leap_years(c: Civil)
    ensures
        ({
            let r = roll_feb_29(c);
            &&& r.month == 2 && r.day == 29 ==> r == c && date_exists(c.year as int, 2, 29)
            &&& date_exists(c.year as int, c.month as int, c.day as int) ==> r == c
            &&& r.year == c.year && r.hour == c.hour && r.minute == c.minute && r.second
                == c.second
        }),
{
}

} // verus!
