//! Receivers of the messages of the tasks.
use vstd::prelude::*;

verus! {

/// A type that receives messages, which functions can be generic over. The sender can be a
/// task running on another thread, as the receiver is both `Send` and `Sync`.
pub trait MessageReceiver<FinalMessage, InitMessage = FinalMessage>: Send + Sync {
    /// Receive a message.
    fn send(&self, message: InitMessage);
}

/// A type whose values can be sent to a receiver across threads.
pub trait Message: Send {}

} // verus!
