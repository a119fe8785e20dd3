//! Civil date-times on the Julian/Gregorian calendar line, checked and paired
//! with Julian Day counts.
//!
//! Every instant and every span is a whole number of milliseconds: a Julian
//! Day count is the number of milliseconds since Julian Day 0, and a time zone
//! is the offset east of UTC. The day counts themselves come from a calendar
//! engine that the caller runs; this crate decides what the engine is asked,
//! which inputs are refused before it is asked, and what is made of its
//! answers.

pub mod calendar;
pub mod engine;
pub mod leap_second;
pub mod error;
pub mod validator;
pub mod horo_date_time;
pub mod normalizer;
pub mod request;
pub mod window;
