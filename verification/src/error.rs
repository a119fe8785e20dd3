//! What can go wrong when a date-time is built.

use vstd::prelude::*;
use vstd::std_specs::convert::FromSpecImpl;

verus! {

/// An input that the caller got wrong. Each variant carries a message for
/// the caller.
#[derive(Debug)]
pub enum DateTimeError {
    /// A field out of range, a day that no calendar has, a second 60 that was
    /// never inserted, or a Julian Day below 0.
    InvalidDateTime(String),
    /// A time zone more than twelve hours from UTC.
    InvalidZone(String),
}

/// Why no date-time was built.
#[derive(Debug)]
pub enum Error {
    /// The input was wrong.
    DateTime(DateTimeError),
    /// The calendar engine failed on an input that passed every check, or
    /// answered with fields that are no date-time.
    Function(String),
}

impl DateTimeError {
    /// The message that the error carries.
    pub open spec fn text(self) -> Seq<char> {
        match self {
            DateTimeError::InvalidDateTime(s) => s@,
            DateTimeError::InvalidZone(s) => s@,
        }
    }

    /// The message that the error carries.
    pub fn message(&self) -> (r: String)
        ensures
            r@ == self.text(),
    {
        match self {
            DateTimeError::InvalidDateTime(s) => s.clone(),
            DateTimeError::InvalidZone(s) => s.clone(),
        }
    }
}

impl From<DateTimeError> for Error {
    fn from(value: DateTimeError) -> (r: Error) {
        Error::DateTime(value)
    }
}

impl FromSpecImpl<DateTimeError> for Error {
    open spec fn obeys_from_spec() -> bool {
        true
    }

    open spec fn from_spec(value: DateTimeError) -> Error {
        Error::DateTime(value)
    }
}

impl Error {
    /// The message that the error carries.
    pub open spec fn text(self) -> Seq<char> {
        match self {
            Error::DateTime(e) => e.text(),
            Error::Function(s) => s@,
        }
    }

    /// Whether the caller's input is to blame, rather than the engine.
    pub open spec fn is_user_error(self) -> bool {
        self is DateTime
    }

    /// The message that the error carries.
    pub fn message(&self) -> (r: String)
        ensures
            r@ == self.text(),
    {
        match self {
            Error::DateTime(e) => e.message(),
            Error::Function(s) => s.clone(),
        }
    }

    /// The HTTP status that answers a request which ended in this error:
    /// 400 where the input was wrong, 500 where the engine failed.
    pub fn status_code(&self) -> (code: u16)
        ensures
            code == if self.is_user_error() { 400int } else { 500int },
    {
        match self {
            Error::DateTime(_) => 400,
            Error::Function(_) => 500,
        }
    }
}

} // verus!
