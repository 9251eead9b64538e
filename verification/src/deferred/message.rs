//! The messages of the tasks.
use vstd::prelude::*;
use super::icons::{IconTaskMessage, icon_task_text};

verus! {

/// A message of one of the tasks.
#[derive(Debug, Clone)]
pub enum DeferredTaskMessage {
    IconsMessage(IconTaskMessage),
}

/// The text of a message of one of the tasks.
pub open spec fn deferred_task_text(m: DeferredTaskMessage) -> Seq<char> {
    match m {
        DeferredTaskMessage::IconsMessage(message) => icon_task_text(message),
    }
}

impl DeferredTaskMessage {
    /// The message as text for people to read.
    pub fn text(&self) -> (r: String)
        ensures
            r@ == deferred_task_text(*self),
    {
        match self {
            DeferredTaskMessage::IconsMessage(message) => message.text(),
        }
    }
}

} // verus!
