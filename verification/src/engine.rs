//! The calendar engine, seen from this crate: what it is asked and what it
//! answers. The engine itself is run by the caller. It turns civil fields
//! into Julian Day counts and back, under the calendar it is told, and counts
//! years astronomically.

use vstd::prelude::*;
use crate::calendar::{
    calendar_at, calendar_of, calendar_of_date, calendar_of_jd, engine_year, to_engine_year,
    Calendar, Civil, MS_PER_DAY, MS_PER_HOUR, MS_PER_MINUTE,
};
use crate::error::DateTimeError;
use crate::validator::{check_timezone, validate, verdict, zone_ok};

verus! {

/// What the engine is asked about a civil date-time in a zone: whether the
/// calendar has the date, and the day counts of the instant.
#[derive(Clone, Copy, Debug, PartialEq, Eq, Structural)]
pub struct CivilQuery {
    /// The year in the engine's numbering.
    pub year: i32,
    pub month: u8,
    pub day: u8,
    pub hour: u8,
    pub minute: u8,
    pub second: u8,
    /// The second under which the engine is asked whether the date exists:
    /// 59 in place of a second 60, which the engine's test cannot hold.
    pub probe_second: u8,
    /// The offset of the zone, east of UTC, in milliseconds: what is taken
    /// off the fields to reach UTC.
    pub tz: i32,
    /// The calendar under which the fields are read.
    pub calendar: Calendar,
}

/// What the engine is asked about an instant in a zone: its civil fields.
#[derive(Clone, Copy, Debug, PartialEq, Eq, Structural)]
pub struct JdQuery {
    /// The instant, in milliseconds since Julian Day 0.
    pub jd: i64,
    /// The calendar under which the instant is read.
    pub calendar: Calendar,
    /// The offset that the engine takes off the UTC fields to reach the
    /// local ones: the zone, negated.
    pub shift: i32,
}

/// The three day counts of one instant, each in milliseconds since Julian
/// Day 0 of its time scale.
#[derive(Clone, Copy, Debug, PartialEq, Eq, Structural)]
pub struct EngineTimes {
    pub jd_utc: i64,
    pub jd_et: i64,
    pub jd_ut1: i64,
}

/// What the calendar engine answered when it was asked for the day counts of
/// a civil date-time.
#[derive(Debug)]
pub enum CivilAnswer {
    /// The day counts.
    Times(EngineTimes),
    /// The engine has no such civil date.
    NoSuchDate,
    /// The engine could not compute the counts; its message.
    Failed(String),
}

/// What the calendar engine answered when it was asked for the civil fields
/// of an instant in a zone: the local date and time, the year in the engine's
/// own numbering, and the instant's day counts in ET and UT1.
#[derive(Clone, Copy, Debug, PartialEq, Eq, Structural)]
pub struct EngineDate {
    pub year: i32,
    pub month: i32,
    pub day: i32,
    pub hour: i32,
    pub minute: i32,
    /// The seconds of the minute, with their fraction, in milliseconds.
    pub millis: i32,
    pub jd_et: i64,
    pub jd_ut1: i64,
}

impl EngineDate {
    /// The fields are those of a date and a time of day, and the year has a
    /// public number.
    pub open spec fn usable(self) -> bool {
        &&& self.year > i32::MIN
        &&& 1 <= self.month <= 12
        &&& 1 <= self.day <= 31
        &&& 0 <= self.hour <= 23
        &&& 0 <= self.minute <= 59
        &&& 0 <= self.millis
    }

    /// The second that a value shows for these fields. An instant has no
    /// second 60: where rounding brought the seconds up to 60, the last
    /// millisecond of second 59 stands for them.
    pub open spec fn second(self) -> int {
        if self.millis >= MS_PER_MINUTE {
            59
        } else {
            self.millis as int / 1000
        }
    }

    /// The milliseconds below the second that a value shows for these fields.
    pub open spec fn ms(self) -> int {
        if self.millis >= MS_PER_MINUTE {
            999
        } else {
            self.millis as int % 1000
        }
    }

    pub fn is_usable(&self) -> (r: bool)
        ensures
            r == self.usable(),
    {
        self.year > i32::MIN && 1 <= self.month && self.month <= 12 && 1 <= self.day && self.day
            <= 31 && 0 <= self.hour && self.hour <= 23 && 0 <= self.minute && self.minute <= 59 && 0
            <= self.millis
    }
}

/// The question that the engine is asked about valid civil fields.
pub open spec fn civil_query_of(c: Civil, tz: int) -> CivilQuery {
    CivilQuery {
        year: engine_year(c.year as int) as i32,
        month: c.month,
        day: c.day,
        hour: c.hour,
        minute: c.minute,
        second: c.second,
        probe_second: if c.second == 60 {
            59u8
        } else {
            c.second
        },
        tz: tz as i32,
        calendar: calendar_of(c.year as int, c.month as int, c.day as int),
    }
}

/// The question that the engine is asked about an instant in a zone.
pub open spec fn jd_query_of(jd: int, tz: int) -> JdQuery {
    JdQuery { jd: jd as i64, calendar: calendar_at(jd), shift: (-tz) as i32 }
}

/// Checks civil fields and their zone, and says what the engine is to be
/// asked about them. The engine is asked nothing about invalid input.
pub fn civil_query(c: &Civil, time_zone: i32) -> (r: Result<CivilQuery, DateTimeError>)
    ensures
        verdict(
            match r {
                Ok(_) => Ok(()),
                Err(e) => Err(e),
            },
            *c,
            time_zone as int,
        ),
        r matches Ok(q) ==> q == civil_query_of(*c, time_zone as int),
{
    validate(c, time_zone)?;
    Ok(
        CivilQuery {
            year: to_engine_year(c.year),
            month: c.month,
            day: c.day,
            hour: c.hour,
            minute: c.minute,
            second: c.second,
            probe_second: if c.second == 60 {
                59
            } else {
                c.second
            },
            tz: time_zone,
            calendar: calendar_of_date(c.year, c.month, c.day),
        },
    )
}

/// Checks an instant and a zone, the instant first, and says what the engine
/// is to be asked about them.
pub fn jd_query(jd: i64, time_zone: i32) -> (r: Result<JdQuery, DateTimeError>)
    ensures
        match r {
            Ok(q) => jd >= 0 && zone_ok(time_zone as int) && q == jd_query_of(
                jd as int,
                time_zone as int,
            ),
            Err(DateTimeError::InvalidDateTime(_)) => jd < 0,
            Err(DateTimeError::InvalidZone(_)) => jd >= 0 && !zone_ok(time_zone as int),
        },
{
    if jd < 0 {
        return Err(
            DateTimeError::InvalidDateTime("the Julian Day is out of range".to_owned()),
        );
    }
    check_timezone(time_zone)?;
    Ok(JdQuery { jd, calendar: calendar_of_jd(jd), shift: -time_zone })
}

/// The hour, the minute and the milliseconds of the minute at `day_ms`
/// milliseconds after midnight, each cut off below, none rounded. The hour
/// is below 24 within the first day.
pub fn clock_of_day(day_ms: u32) -> (r: (u32, u8, u16))
    ensures
        r.0 * MS_PER_HOUR + r.1 * MS_PER_MINUTE + r.2 == day_ms,
        r.1 <= 59,
        r.2 <= 59_999,
        day_ms < MS_PER_DAY ==> r.0 <= 23,
{
    let rest: u32 = day_ms % 3_600_000;
    (day_ms / 3_600_000, (rest / 60_000) as u8, (rest % 60_000) as u16)
}

} // verus!
