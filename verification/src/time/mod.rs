//! Compact dates and times.
//!
//! A [`Date`] holds a year and a day of the year; a [`TimeAndDate`] packs a year, a day of
//! the year, an hour, a minute and the nanoseconds of a second into one 64-bit integer, with
//! the seconds beside it. The calendar itself is that of the `time` crate.
use vstd::prelude::*;

pub mod calendar;
pub mod date;
pub mod date_time_full;
pub mod format;
pub mod order;
pub mod time_date;

pub use calendar::{CalendarDate, ClockTime};
pub use date::Date;
pub use date_time_full::{Date2, DT};
pub use format::FormatTime;
pub use time_date::TimeAndDate;

verus! {
} // verus!
