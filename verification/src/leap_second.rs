//! The leap seconds that UTC has had.

use vstd::prelude::*;

verus! {

/// The days whose last minute had a 61st second, 23:59:60 UTC: the 27 that
/// were announced from 1972 to 2016. This is recorded history, not a rule.
pub open spec fn leap_second_dates() -> Set<(int, int, int)> {
    set![
        (1972, 6, 30),
        (1972, 12, 31),
        (1973, 12, 31),
        (1974, 12, 31),
        (1975, 12, 31),
        (1976, 12, 31),
        (1977, 12, 31),
        (1978, 12, 31),
        (1979, 12, 31),
        (1981, 6, 30),
        (1982, 6, 30),
        (1983, 6, 30),
        (1985, 6, 30),
        (1987, 12, 31),
        (1989, 12, 31),
        (1990, 12, 31),
        (1992, 6, 30),
        (1993, 6, 30),
        (1994, 6, 30),
        (1995, 12, 31),
        (1997, 6, 30),
        (1998, 12, 31),
        (2005, 12, 31),
        (2008, 12, 31),
        (2012, 6, 30),
        (2015, 6, 30),
        (2016, 12, 31),
    ]
}

/// Whether the civil instant is one of the recorded leap seconds.
pub open spec fn leap_second(
    year: int,
    month: int,
    day: int,
    hour: int,
    minute: int,
    second: int,
) -> bool {
    hour == 23 && minute == 59 && second == 60 && leap_second_dates().contains((year, month, day))
}

/// Whether a year had a leap second at the end of June.
fn june_leap_year(year: i32) -> (r: bool)
    ensures
        r == leap_second_dates().contains((year as int, 6, 30)),
{
    year == 1972 || year == 1981 || year == 1982 || year == 1983 || year == 1985 || year == 1992
        || year == 1993 || year == 1994 || year == 1997 || year == 2012 || year == 2015
}

/// Whether a year had a leap second at the end of December.
fn december_leap_year(year: i32) -> (r: bool)
    ensures
        r == leap_second_dates().contains((year as int, 12, 31)),
{
    (1972 <= year && year <= 1979) || year == 1987 || year == 1989 || year == 1990 || year == 1995
        || year == 1998 || year == 2005 || year == 2008 || year == 2016
}

/// Whether the civil instant is one of the recorded leap seconds.
pub fn is_leap_seconds(year: i32, month: u8, day: u8, hour: u8, minute: u8, second: u8) -> (r: bool)
    ensures
        r == leap_second(
            year as int,
            month as int,
            day as int,
            hour as int,
            minute as int,
            second as int,
        ),
{
    if hour != 23 || minute != 59 || second != 60 {
        return false;
    }
    if month == 6 && day == 30 {
        june_leap_year(year)
    } else if month == 12 && day == 31 {
        december_leap_year(year)
    } else {
        false
    }
}

/// The table has exactly 27 days, all of them a 30 June or a 31 December
/// between 1972 and 2016.
pub proof fn leap_second_table_shape()
    ensures
        leap_second_dates().finite(),
        leap_second_dates().len() == 27,
        forall|y: int, m: int, d: int| #[trigger]
            leap_second_dates().contains((y, m, d)) ==> 1972 <= y <= 2016 && ((m == 6 && d == 30)
                || (m == 12 && d == 31)),
{
    broadcast use vstd::set::group_set_axioms;

}

} // verus!
