//! Tasks that run apart from the interface, and the messages that report their progress.
use vstd::prelude::*;

pub mod icons;
pub mod message;
pub mod message_receiver;
pub mod plist;

verus! {
} // verus!
