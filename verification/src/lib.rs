//! Support and utilities: ranges of items and the changes that occur to them, bit packing of
//! bounded integers, compact dates and times, and picking elements of HTML documents.
use vstd::prelude::*;

pub mod bits;
pub mod collection;
pub mod combine_bits;
pub mod composer;
pub mod convert;
pub mod data_format;
pub mod deferred;
pub mod directory_walk;
pub mod packaging;
pub mod range;
pub mod scraper;
pub mod string;
pub mod sys_task;
pub mod text;
pub mod time;

verus! {
} // verus!
