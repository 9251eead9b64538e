//! The state and messages of the application that generates app packages, and the
//! bookkeeping of the tablet of views that shows them.
use vstd::prelude::*;

pub mod app_state;
pub mod package_names;
pub mod progress;
pub mod tablet;

verus! {
} // verus!
