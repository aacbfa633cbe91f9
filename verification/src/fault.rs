//! Failures of the cooperating tasks.

use vstd::prelude::*;

verus! {

/// Why a task of the library stopped working.
#[derive(Debug, Copy, Clone, PartialEq, Eq, Structural)]
pub enum Fault {
    /// A secondary task asked for the input channel that only the primary
    /// task holds.
    NotPrimary,
    /// The peer of a channel is gone; the expected, non-fatal end of a task.
    ChannelClosed,
    /// A lock holder terminated abnormally while holding the lock; fatal.
    LockPoisoned,
    /// The consumer of emitted events is gone; fatal.
    SendFailure,
}

impl Fault {
    /// A diagnostic for logs.
    pub fn message(&self) -> (r: String)
        ensures
            self is NotPrimary ==> r@ == "Only the primary can receive messages!"@,
            self is ChannelClosed ==> r@ == "The channel peer is gone!"@,
            self is LockPoisoned ==> r@ == "A shared lock was poisoned!"@,
            self is SendFailure ==> r@ == "The event consumer is gone!"@,
    {
        match self {
            Fault::NotPrimary => "Only the primary can receive messages!".to_string(),
            Fault::ChannelClosed => "The channel peer is gone!".to_string(),
            Fault::LockPoisoned => "A shared lock was poisoned!".to_string(),
            Fault::SendFailure => "The event consumer is gone!".to_string(),
        }
    }
}

} // verus!
