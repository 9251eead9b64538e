//! Times and dates compared with `<`: by year, day of the year, hour, minute, second and
//! nanoseconds.
use vstd::prelude::*;
use std::cmp::Ordering;
use vstd::std_specs::cmp::PartialOrdSpecImpl;
use super::time_date::TimeAndDate;

verus! {

impl PartialOrd for TimeAndDate {
    fn partial_cmp(&self, other: &Self) -> (r: Option<Ordering>) {
        if self.earlier_than(other) {
            Some(Ordering::Less)
        } else if other.earlier_than(self) {
            Some(Ordering::Greater)
        } else {
            Some(Ordering::Equal)
        }
    }
}

impl PartialOrdSpecImpl for TimeAndDate {
    open spec fn obeys_partial_cmp_spec() -> bool {
        true
    }

    open spec fn partial_cmp_spec(&self, other: &Self) -> Option<Ordering> {
        if self.spec_earlier_than(*other) {
            Some(Ordering::Less)
        } else if other.spec_earlier_than(*self) {
            Some(Ordering::Greater)
        } else {
            Some(Ordering::Equal)
        }
    }
}

} // verus!
