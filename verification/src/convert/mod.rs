//! Conversions of the values inside shared pointers, containers and collections.
use vstd::prelude::*;

pub mod arc_rc;
pub mod multi;

verus! {
} // verus!
