//! A oneshot single-producer single-consumer channel.
//!
//! The control block of a channel is modelled by [`Channel`]: its state word, the
//! slot for the one message and the slot for the waker of a waiting receiver. Every
//! method on [`Sender`] and [`Receiver`] is one step of the handoff protocol, taken
//! at the atomic transition of the state word, and its contract says exactly how the
//! control block moves. The blocking and timed receive loops that park a thread are
//! built from these steps by the embedding program.

mod channel;
mod errors;
mod state;
mod waker;

pub use channel::{
    channel, deliveries, lemma_at_most_one_delivery, lemma_delivered_once, lemma_no_leaks,
    lemma_waiting_receiver_is_reachable, Channel, Receiver, RecvPoll, RecvStart, Sender,
};
pub use errors::{RecvError, RecvTimeoutError, SendError, TryRecvError};
pub use state::State;
pub use waker::ReceiverWaker;
