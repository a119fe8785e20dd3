//! The body of a query: a range of civil date-times.

use vstd::prelude::*;

verus! {

/// The earliest year that a query may name.
pub const MIN_YEAR: i32 = 1900;

/// One end of the range, as civil fields.
#[derive(Clone, Copy, Debug, PartialEq, Eq, Structural)]
pub struct DateRequest {
    /// The year, 1900 at the least.
    pub year: i32,
    /// 1 to 12.
    pub month: u8,
    /// 1 to 31.
    pub day: u8,
    /// 0 to 23.
    pub hour: u8,
    /// 0 to 59.
    pub minute: u8,
    /// 0 to 59.
    pub second: u8,
}

/// The range that a query asks about.
#[derive(Clone, Copy, Debug, PartialEq, Eq, Structural)]
pub struct DateRangeRequest {
    pub start: DateRequest,
    pub end: DateRequest,
}

impl DateRequest {
    /// Every field is within its bounds. Whether the month has the day is
    /// not asked here.
    pub open spec fn in_range(self) -> bool {
        &&& self.year >= MIN_YEAR
        &&& 1 <= self.month <= 12
        &&& 1 <= self.day <= 31
        &&& self.hour <= 23
        &&& self.minute <= 59
        &&& self.second <= 59
    }

    pub fn is_valid(&self) -> (r: bool)
        ensures
            r == self.in_range(),
    {
        self.year >= MIN_YEAR && 1 <= self.month && self.month <= 12 && 1 <= self.day && self.day
            <= 31 && self.hour <= 23 && self.minute <= 59 && self.second <= 59
    }
}

impl DateRangeRequest {
    /// Both ends are within their bounds.
    pub open spec fn in_range(self) -> bool {
        self.start.in_range() && self.end.in_range()
    }

    pub fn is_valid(&self) -> (r: bool)
        ensures
            r == self.in_range(),
    {
        self.start.is_valid() && self.end.is_valid()
    }
}

} // verus!
