//! Elements that help with composing text.
use vstd::prelude::*;

pub mod mode;
pub mod register;

verus! {
} // verus!
