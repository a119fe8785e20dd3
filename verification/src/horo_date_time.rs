//! The date-time value: civil fields in a time zone, paired with the Julian
//! Day counts of the same instant.

use vstd::prelude::*;
use crate::calendar::{from_engine_year, public_year, Civil};
use crate::engine::{civil_query_of, jd_query, CivilAnswer, EngineDate};
use crate::error::{DateTimeError, Error};
use crate::leap_second::leap_second;
use crate::validator::{civil_ok, valid, validate, zone_ok};

verus! {

/// A civil date-time in a time zone, with the day counts of its instant in
/// UTC, ET and UT1. A value is made whole or not at all, and never changed.
#[derive(Clone, Copy, Debug, PartialEq, Eq, Structural)]
pub struct HoroDateTime {
    /// The year, numbered without a year 0.
    pub year: i32,
    pub month: u8,
    pub day: u8,
    pub hour: u8,
    pub minute: u8,
    /// 0 to 59, and 60 at a leap second.
    pub second: u8,
    /// The part of the instant below the second, in whole milliseconds.
    pub ms: u16,
    /// The offset of the zone, east of UTC, in milliseconds.
    pub tz: i32,
    pub jd_utc: i64,
    pub jd_et: i64,
    pub jd_ut1: i64,
}

/// Whether a Julian Day count is one that a value can hold: not below 0, and
/// not beyond what 64 bits count.
pub open spec fn jd_ok(jd: int) -> bool {
    0 <= jd <= i64::MAX
}

/// How the outcome of building a value from civil fields depends on the
/// fields, the zone and the engine's answer.
pub open spec fn built_from_civil(
    r: Result<HoroDateTime, Error>,
    c: Civil,
    tz: int,
    answer: CivilAnswer,
) -> bool {
    match r {
        Ok(v) => {
            &&& valid(c, tz)
            &&& answer matches CivilAnswer::Times(t)
            &&& v == (HoroDateTime {
                year: c.year,
                month: c.month,
                day: c.day,
                hour: c.hour,
                minute: c.minute,
                second: c.second,
                ms: 0,
                tz: tz as i32,
                jd_utc: t.jd_utc,
                jd_et: t.jd_et,
                jd_ut1: t.jd_ut1,
            })
        },
        Err(Error::DateTime(DateTimeError::InvalidZone(_))) => !zone_ok(tz),
        Err(Error::DateTime(DateTimeError::InvalidDateTime(_))) => zone_ok(tz) && (!civil_ok(c)
            || answer is NoSuchDate),
        Err(Error::Function(m)) => {
            &&& valid(c, tz)
            &&& answer matches CivilAnswer::Failed(s)
            &&& m@ == s@
        },
    }
}

/// How the outcome of building a value from a Julian Day count depends on the
/// count, the zone and the engine's answer.
pub open spec fn built_from_jd(
    r: Result<HoroDateTime, Error>,
    jd: int,
    tz: int,
    answer: Result<EngineDate, String>,
) -> bool {
    match r {
        Ok(v) => {
            &&& jd_ok(jd)
            &&& zone_ok(tz)
            &&& answer matches Ok(e)
            &&& e.usable()
            &&& v == (HoroDateTime {
                year: public_year(e.year as int) as i32,
                month: e.month as u8,
                day: e.day as u8,
                hour: e.hour as u8,
                minute: e.minute as u8,
                second: e.second() as u8,
                ms: e.ms() as u16,
                tz: tz as i32,
                jd_utc: jd as i64,
                jd_et: e.jd_et,
                jd_ut1: e.jd_ut1,
            })
        },
        Err(Error::DateTime(DateTimeError::InvalidDateTime(_))) => !jd_ok(jd),
        Err(Error::DateTime(DateTimeError::InvalidZone(_))) => jd_ok(jd) && !zone_ok(tz),
        Err(Error::Function(m)) => {
            &&& jd_ok(jd)
            &&& zone_ok(tz)
            &&& match answer {
                Ok(e) => !e.usable(),
                Err(s) => m@ == s@,
            }
        },
    }
}

impl HoroDateTime {
    /// The civil fields of the value.
    pub open spec fn civil(self) -> Civil {
        Civil {
            year: self.year,
            month: self.month,
            day: self.day,
            hour: self.hour,
            minute: self.minute,
            second: self.second,
        }
    }

    /// What holds of every value that a constructor returned: the fields are
    /// in range, a second 60 is a recorded leap second, and the zone is at
    /// most twelve hours from UTC.
    pub open spec fn wf(self) -> bool {
        &&& 1 <= self.month <= 12
        &&& 1 <= self.day <= 31
        &&& self.hour <= 23
        &&& self.minute <= 59
        &&& self.second <= 60
        &&& self.second == 60 ==> leap_second(
            self.year as int,
            self.month as int,
            self.day as int,
            self.hour as int,
            self.minute as int,
            self.second as int,
        )
        &&& self.ms <= 999
        &&& zone_ok(self.tz as int)
    }

    /// Builds the value of a civil date-time in a zone. The input is checked
    /// first; `answer` is what the engine gave for these fields, and is looked
    /// at only when the input is valid.
    pub fn new(
        year: i32,
        month: u8,
        day: u8,
        hour: u8,
        minute: u8,
        second: u8,
        time_zone: i32,
        answer: CivilAnswer,
    ) -> (r: Result<HoroDateTime, Error>)
        ensures
            built_from_civil(
                r,
                Civil { year, month, day, hour, minute, second },
                time_zone as int,
                answer,
            ),
            r matches Ok(v) ==> v.wf(),
    {
        let c = Civil { year, month, day, hour, minute, second };
        match validate(&c, time_zone) {
            Err(e) => { return Err(Error::from(e)); },
            Ok(()) => {},
        }
        match answer {
            CivilAnswer::Times(t) => Ok(
                HoroDateTime {
                    year,
                    month,
                    day,
                    hour,
                    minute,
                    second,
                    ms: 0,
                    tz: time_zone,
                    jd_utc: t.jd_utc,
                    jd_et: t.jd_et,
                    jd_ut1: t.jd_ut1,
                },
            ),
            CivilAnswer::NoSuchDate => Err(
                Error::from(
                    DateTimeError::InvalidDateTime("the engine has no such date".to_owned()),
                ),
            ),
            CivilAnswer::Failed(s) => Err(Error::Function(s)),
        }
    }

    /// Builds the value of an instant in a zone. The count and the zone are
    /// checked first, the count before the zone; `answer` is what the engine
    /// gave for them, and is looked at only when both are in range.
    pub fn from_jd_zone(jd: i64, time_zone: i32, answer: Result<EngineDate, String>) -> (r: Result<
        HoroDateTime,
        Error,
    >)
        ensures
            built_from_jd(r, jd as int, time_zone as int, answer),
            r matches Ok(v) ==> v.wf() && v.second <= 59,
    {
        match jd_query(jd, time_zone) {
            Err(e) => { return Err(Error::from(e)); },
            Ok(_) => {},
        }
        let e = match answer {
            Ok(e) => e,
            Err(s) => { return Err(Error::Function(s)); },
        };
        if !e.is_usable() {
            return Err(Error::Function("the engine returned no date and time".to_owned()));
        }
        let (second, ms): (u8, u16) = if e.millis >= 60_000 {
            (59, 999)
        } else {
            ((e.millis / 1000) as u8, (e.millis % 1000) as u16)
        };
        Ok(
            HoroDateTime {
                year: from_engine_year(e.year),
                month: e.month as u8,
                day: e.day as u8,
                hour: e.hour as u8,
                minute: e.minute as u8,
                second,
                ms,
                tz: time_zone,
                jd_utc: jd,
                jd_et: e.jd_et,
                jd_ut1: e.jd_ut1,
            },
        )
    }

    /// The value of the instant `days` milliseconds after this one, in the
    /// same zone; before it where `days` is negative. `answer` is what the
    /// engine gave for that instant.
    pub fn plus_days(&self, days: i64, answer: Result<EngineDate, String>) -> (r: Result<
        HoroDateTime,
        Error,
    >)
        ensures
            built_from_jd(r, self.jd_utc + days, self.tz as int, answer),
            r matches Ok(v) ==> v.wf() && v.second <= 59,
    {
        match self.jd_utc.checked_add(days) {
            Some(jd) => HoroDateTime::from_jd_zone(jd, self.tz, answer),
            None => Err(
                Error::from(
                    DateTimeError::InvalidDateTime("the Julian Day is out of range".to_owned()),
                ),
            ),
        }
    }
}

/// Two steps add up: the value after `a` and then `b` milliseconds has the
/// day count of the first value plus `a + b`, exactly, and its zone.
pub proof fn plus_days_is_additive(
    v: HoroDateTime,
    a: int,
    b: int,
    first: Result<HoroDateTime, Error>,
    first_answer: Result<EngineDate, String>,
    second: Result<HoroDateTime, Error>,
    second_answer: Result<EngineDate, String>,
)
    requires
        built_from_jd(first, v.jd_utc + a, v.tz as int, first_answer),
        first is Ok,
        built_from_jd(
            second,
            first->Ok_0.jd_utc + b,
            first->Ok_0.tz as int,
            second_answer,
        ),
        second is Ok,
    ensures
        second->Ok_0.jd_utc == v.jd_utc + a + b,
        second->Ok_0.tz == v.tz,
{
}

/// Civil fields come back from the engine as they went: where the engine,
/// asked for the fields of an instant, answers with those that it was asked
/// about when the instant was counted, the value built from its answer shows
/// the fields that the first value was built from. This holds of every valid
/// input but a second 60, which no instant has, and a year 0, which stands
/// for the same year as -1.
pub proof fn fields_survive_the_engine(
    c: Civil,
    tz: int,
    jd: int,
    e: EngineDate,
    r: Result<HoroDateTime, Error>,
)
    requires
        valid(c, tz),
        c.second != 60,
        c.year != 0,
        jd_ok(jd),
        e.year == civil_query_of(c, tz).year,
        e.month == c.month,
        e.day == c.day,
        e.hour == c.hour,
        e.minute == c.minute,
        e.millis == c.second * 1000,
        built_from_jd(r, jd, tz, Ok(e)),
    ensures
        r is Ok,
        r->Ok_0.civil() == c,
        r->Ok_0.ms == 0,
        r->Ok_0.tz == tz,
        r->Ok_0.jd_utc == jd,
{
}

} // verus!
