use vstd::prelude::*;

verus! {

/// A send that found the receiver gone. It hands the unsent message back.
#[derive(Debug, PartialEq, Eq)]
pub struct SendError<T> {
    message: T,
}

impl<T> SendError<T> {
    /// The message that could not be delivered.
    pub closed spec fn value(&self) -> T {
        self.message
    }

    pub(crate) fn new(message: T) -> (r: Self)
        ensures
            r.value() == message,
    {
        SendError { message }
    }

    /// Takes the undelivered message back out of the error.
    pub fn into_value(self) -> (r: T)
        ensures
            r == self.value(),
    {
        self.message
    }
}

/// Why a non-blocking receive returned no message.
#[derive(Debug, Clone, Copy, PartialEq, Eq, Structural)]
pub enum TryRecvError {
    /// The sender is alive and has sent nothing yet.
    Empty,
    /// The sender is gone without sending, or the message was already received.
    Disconnected,
}

/// A receive that can never succeed: the sender is gone without sending, or the
/// message was already received.
#[derive(Debug, Clone, Copy, PartialEq, Eq, Structural)]
pub struct RecvError;

/// Why a timed receive returned no message.
#[derive(Debug, Clone, Copy, PartialEq, Eq, Structural)]
pub enum RecvTimeoutError {
    /// The deadline passed first; the receiver may try again.
    Timeout,
    /// The sender is gone without sending, or the message was already received.
    Disconnected,
}

} // verus!
