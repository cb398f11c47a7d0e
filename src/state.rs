use vstd::prelude::*;

verus! {

/// The four values of a channel's state word.
#[derive(Debug, Clone, Copy, PartialEq, Eq, Structural)]
pub enum State {
    /// Both endpoints are alive, nothing was sent and the receiver is not waiting.
    Empty,
    /// A message was sent and not yet received.
    Message,
    /// The receiver installed its waker and waits for the sender.
    Receiving,
    /// One endpoint is gone, or the message was received.
    Disconnected,
}

} // verus!
