use core::marker::PhantomData;
use vstd::prelude::*;

use crate::errors::{RecvError, RecvTimeoutError, SendError, TryRecvError};
use crate::state::State;
use crate::waker::ReceiverWaker;

verus! {

/// The control block of one channel: the state word, the message slot and the
/// waker slot, with the bookkeeping that the protocol's guarantees are stated over.
pub struct Channel<T> {
    state: State,
    message: Option<T>,
    waker: Option<ReceiverWaker>,
    sender_alive: Ghost<bool>,
    receiver_alive: Ghost<bool>,
    waiting: Ghost<bool>,
    delivered: Ghost<bool>,
    frees: Ghost<nat>,
    fired: Ghost<Seq<ReceiverWaker>>,
}

/// The sending endpoint. `send` consumes it, so at most one message is sent.
pub struct Sender<T> {
    marker: PhantomData<T>,
}

/// The receiving endpoint.
pub struct Receiver<T> {
    marker: PhantomData<T>,
}

/// What the first look at the state word tells a blocking receive.
#[derive(Debug, PartialEq, Eq)]
pub enum RecvStart<T> {
    /// The receive is over, with this outcome.
    Done(Result<T, RecvError>),
    /// Nothing was sent yet: the receiver must install a waker and wait.
    MustWait,
    /// An asynchronous poll left a task waker installed; parking a thread now would
    /// never be woken, so a blocking receive is a usage error here.
    PolledAsync,
}

/// The outcome of a receive step that may leave the receiver waiting.
#[derive(Debug, PartialEq, Eq)]
pub enum RecvPoll<T> {
    /// The receiver's waker is installed; the sender will fire it.
    Pending,
    /// The receive is over, with this outcome.
    Ready(Result<T, RecvError>),
}

impl<T> Channel<T> {
    /// The value of the state word.
    pub closed spec fn state(&self) -> State {
        self.state
    }

    /// The message slot.
    pub closed spec fn message(&self) -> Option<T> {
        self.message
    }

    /// The waker slot.
    pub closed spec fn waker(&self) -> Option<ReceiverWaker> {
        self.waker
    }

    /// The sender has neither sent nor been dropped.
    pub closed spec fn sender_alive(&self) -> bool {
        self.sender_alive@
    }

    /// The receiver has not been dropped.
    pub closed spec fn receiver_alive(&self) -> bool {
        self.receiver_alive@
    }

    /// The receiver installed a waker and has not yet seen the outcome of its wait.
    pub closed spec fn waiting(&self) -> bool {
        self.waiting@
    }

    /// The message was handed to the receiver.
    pub closed spec fn delivered(&self) -> bool {
        self.delivered@
    }

    /// How many times the control block was freed.
    pub closed spec fn frees(&self) -> nat {
        self.frees@
    }

    /// The wakers taken out of the control block and fired, in order.
    pub closed spec fn fired(&self) -> Seq<ReceiverWaker> {
        self.fired@
    }

    /// How many times a waker left in the control block was fired.
    pub open spec fn wakes(&self) -> nat {
        self.fired().len()
    }

    /// The protocol's invariant, which every step preserves.
    pub open spec fn wf(&self) -> bool {
        &&& (self.message() is Some <==> self.state() == State::Message)
        &&& (self.waker() is Some <==> self.state() == State::Receiving)
        &&& (self.state() == State::Empty ==> self.sender_alive() && self.receiver_alive())
        &&& (self.state() == State::Receiving ==> self.sender_alive() && self.receiver_alive()
            && self.waiting())
        &&& (self.state() == State::Message ==> !self.sender_alive() && self.receiver_alive()
            && !self.delivered())
        &&& (self.state() == State::Disconnected ==> !self.sender_alive()
            || !self.receiver_alive())
        &&& (self.waiting() ==> self.receiver_alive() && self.state() != State::Empty)
        &&& (self.delivered() ==> self.state() == State::Disconnected && !self.sender_alive())
        &&& self.frees() == (if !self.sender_alive() && !self.receiver_alive() {
            1nat
        } else {
            0nat
        })
        &&& self.wakes() <= 1
        &&& (self.sender_alive() ==> self.wakes() == 0)
    }

    /// Nothing is left behind: the block was freed once and holds neither message nor waker.
    pub open spec fn released(&self) -> bool {
        &&& self.frees() == 1
        &&& self.message() is None
        &&& self.waker() is None
    }

    /// What every step keeps: an endpoint that is gone stays gone, a delivered message
    /// stays delivered, `Disconnected` is never left, and the count of frees and the
    /// list of fired wakers only grow.
    pub open spec fn evolves_to(&self, after: &Self) -> bool {
        &&& (!self.sender_alive() ==> !after.sender_alive())
        &&& (!self.receiver_alive() ==> !after.receiver_alive())
        &&& (self.delivered() ==> after.delivered())
        &&& (self.state() == State::Disconnected ==> after.state() == State::Disconnected)
        &&& self.frees() <= after.frees()
        &&& self.fired().is_prefix_of(after.fired())
    }

    /// `after` is this block once the receiver has taken the message out of it.
    pub open spec fn received_into(&self, after: &Self) -> bool {
        &&& after.state() == State::Disconnected
        &&& after.message() is None
        &&& after.waker() is None
        &&& after.delivered()
        &&& !after.waiting()
        &&& after.sender_alive() == self.sender_alive()
        &&& after.receiver_alive() == self.receiver_alive()
        &&& after.fired() == self.fired()
    }

    /// `after` is this block once the receiver has seen that it is disconnected.
    pub open spec fn saw_disconnect(&self, after: &Self) -> bool {
        &&& after.state() == self.state()
        &&& after.message() == self.message()
        &&& after.waker() == self.waker()
        &&& !after.waiting()
        &&& after.delivered() == self.delivered()
        &&& after.sender_alive() == self.sender_alive()
        &&& after.receiver_alive() == self.receiver_alive()
        &&& after.frees() == self.frees()
        &&& after.fired() == self.fired()
    }

    /// Moves the message out of the block after the state word was seen at `Message`.
    fn take_message(&mut self) -> (r: T)
        requires
            old(self).wf(),
            old(self).state() == State::Message,
        ensures
            final(self).wf(),
            r == old(self).message()->Some_0,
            old(self).received_into(final(self)),
    {
        self.state = State::Disconnected;
        self.delivered = Ghost(true);
        self.waiting = Ghost(false);
        self.message.take().unwrap()
    }

    /// Records that the receiver saw the state word at `Disconnected`.
    fn see_disconnect(&mut self)
        requires
            old(self).wf(),
            old(self).state() == State::Disconnected,
        ensures
            final(self).wf(),
            old(self).saw_disconnect(final(self)),
    {
        self.waiting = Ghost(false);
    }

    /// A fresh control block: state `Empty`, both slots empty, both endpoints alive.
    pub fn new() -> (r: Self)
        ensures
            r.wf(),
            r.state() == State::Empty,
            r.sender_alive(),
            r.receiver_alive(),
            !r.waiting(),
            !r.delivered(),
            r.frees() == 0,
            r.fired() == Seq::<ReceiverWaker>::empty(),
    {
        Channel {
            state: State::Empty,
            message: None,
            waker: None,
            sender_alive: Ghost(true),
            receiver_alive: Ghost(true),
            waiting: Ghost(false),
            delivered: Ghost(false),
            frees: Ghost(0nat),
            fired: Ghost(Seq::empty()),
        }
    }
}

/// Creates a channel: its control block and its two endpoints.
pub fn channel<T>() -> (r: (Channel<T>, Sender<T>, Receiver<T>))
    ensures
        r.0.wf(),
        r.0.state() == State::Empty,
        r.0.sender_alive(),
        r.0.receiver_alive(),
        !r.0.waiting(),
        !r.0.delivered(),
        r.0.frees() == 0,
        r.0.fired() == Seq::<ReceiverWaker>::empty(),
{
    (Channel::new(), Sender { marker: PhantomData }, Receiver { marker: PhantomData })
}

impl<T> Sender<T> {
    /// Sends `message`: writes it into the message slot and moves the state word to
    /// `Message`. A receiver that was waiting is woken exactly once. If the receiver is
    /// already gone the message comes back inside the error, and the control block is
    /// released here.
    pub fn send(self, ch: &mut Channel<T>, message: T) -> (r: Result<(), SendError<T>>)
        requires
            old(ch).wf(),
            old(ch).sender_alive(),
        ensures
            final(ch).wf(),
            old(ch).evolves_to(final(ch)),
            !final(ch).sender_alive(),
            final(ch).receiver_alive() == old(ch).receiver_alive(),
            final(ch).waiting() == old(ch).waiting(),
            final(ch).delivered() == old(ch).delivered(),
            r is Ok <==> old(ch).receiver_alive(),
            r is Ok ==> final(ch).state() == State::Message && final(ch).message() == Some(
                message,
            ) && final(ch).waker() is None,
            r matches Err(e) ==> e.value() == message && final(ch).state() == State::Disconnected
                && final(ch).released(),
            final(ch).fired() == if old(ch).state() == State::Receiving {
                old(ch).fired().push(old(ch).waker()->Some_0)
            } else {
                old(ch).fired()
            },
    {
        match ch.state {
            State::Empty => {
                ch.message = Some(message);
                ch.state = State::Message;
                ch.sender_alive = Ghost(false);
                Ok(())
            },
            State::Receiving => {
                ch.message = Some(message);
                ch.state = State::Message;
                ch.sender_alive = Ghost(false);
                let waker = ch.waker.take().unwrap();
                ch.fired = Ghost(ch.fired@.push(waker));
                waker.unpark();
                Ok(())
            },
            _ => {
                proof {
                    assert(ch.state == State::Disconnected);
                }
                ch.sender_alive = Ghost(false);
                ch.frees = Ghost(ch.frees@ + 1);
                Err(SendError::new(message))
            },
        }
    }

    /// Drops the sender without sending: the state word becomes `Disconnected`. A
    /// receiver that was waiting is woken exactly once so that it sees the disconnect.
    /// If the receiver is already gone the control block is released here.
    pub fn close(self, ch: &mut Channel<T>)
        requires
            old(ch).wf(),
            old(ch).sender_alive(),
        ensures
            final(ch).wf(),
            old(ch).evolves_to(final(ch)),
            !final(ch).sender_alive(),
            final(ch).receiver_alive() == old(ch).receiver_alive(),
            final(ch).waiting() == old(ch).waiting(),
            final(ch).delivered() == old(ch).delivered(),
            final(ch).state() == State::Disconnected,
            final(ch).message() is None,
            final(ch).waker() is None,
            !old(ch).receiver_alive() ==> final(ch).released(),
            final(ch).fired() == if old(ch).state() == State::Receiving {
                old(ch).fired().push(old(ch).waker()->Some_0)
            } else {
                old(ch).fired()
            },
    {
        let prev = ch.state;
        ch.state = State::Disconnected;
        ch.sender_alive = Ghost(false);
        match prev {
            State::Receiving => {
                let waker = ch.waker.take().unwrap();
                ch.fired = Ghost(ch.fired@.push(waker));
                waker.unpark();
            },
            State::Disconnected => {
                ch.frees = Ghost(ch.frees@ + 1);
            },
            _ => {},
        }
    }
}

impl<T> Receiver<T> {
    /// Looks at the channel without waiting. Takes the message if there is one; otherwise
    /// reports whether the sender may still send.
    pub fn try_recv(&self, ch: &mut Channel<T>) -> (r: Result<T, TryRecvError>)
        requires
            old(ch).wf(),
            old(ch).receiver_alive(),
        ensures
            final(ch).wf(),
            old(ch).evolves_to(final(ch)),
            old(ch).state() == State::Message ==> r == Ok::<T, TryRecvError>(
                old(ch).message()->Some_0,
            ) && old(ch).received_into(final(ch)),
            old(ch).state() == State::Empty || old(ch).state() == State::Receiving ==> r == Err::<
                T,
                TryRecvError,
            >(TryRecvError::Empty) && *final(ch) == *old(ch),
            old(ch).state() == State::Disconnected ==> r == Err::<T, TryRecvError>(
                TryRecvError::Disconnected,
            ) && old(ch).saw_disconnect(final(ch)),
            r is Ok ==> !old(ch).delivered() && final(ch).delivered(),
            old(ch).delivered() ==> r == Err::<T, TryRecvError>(TryRecvError::Disconnected),
    {
        match ch.state {
            State::Message => Ok(ch.take_message()),
            State::Disconnected => {
                ch.see_disconnect();
                Err(TryRecvError::Disconnected)
            },
            _ => Err(TryRecvError::Empty),
        }
    }

    /// The first step of a blocking receive: one look at the state word.
    pub fn begin_recv(&self, ch: &mut Channel<T>) -> (r: RecvStart<T>)
        requires
            old(ch).wf(),
            old(ch).receiver_alive(),
        ensures
            final(ch).wf(),
            old(ch).evolves_to(final(ch)),
            old(ch).state() == State::Message ==> r == RecvStart::Done(
                Ok::<T, RecvError>(old(ch).message()->Some_0),
            ) && old(ch).received_into(final(ch)),
            old(ch).state() == State::Empty ==> r is MustWait && *final(ch) == *old(ch),
            old(ch).state() == State::Receiving ==> r is PolledAsync && *final(ch) == *old(ch),
            old(ch).state() == State::Disconnected ==> r == RecvStart::Done(
                Err::<T, RecvError>(RecvError),
            ) && old(ch).saw_disconnect(final(ch)),
            r matches RecvStart::Done(Ok(_)) ==> !old(ch).delivered() && final(ch).delivered(),
            old(ch).delivered() ==> r == RecvStart::Done(Err::<T, RecvError>(RecvError)),
    {
        match ch.state {
            State::Empty => RecvStart::MustWait,
            State::Receiving => RecvStart::PolledAsync,
            State::Message => RecvStart::Done(Ok(ch.take_message())),
            State::Disconnected => {
                ch.see_disconnect();
                RecvStart::Done(Err(RecvError))
            },
        }
    }

    /// Installs `waker` and moves the state word from `Empty` to `Receiving`. If the
    /// sender got there first, the waker is dropped here and the outcome is returned.
    pub fn install_waker(&self, ch: &mut Channel<T>, waker: ReceiverWaker) -> (r: RecvPoll<T>)
        requires
            old(ch).wf(),
            old(ch).receiver_alive(),
            !old(ch).waiting(),
        ensures
            final(ch).wf(),
            old(ch).evolves_to(final(ch)),
            old(ch).state() == State::Empty ==> {
                &&& r is Pending
                &&& final(ch).state() == State::Receiving
                &&& final(ch).waker() == Some(waker)
                &&& final(ch).message() is None
                &&& final(ch).waiting()
                &&& final(ch).sender_alive() == old(ch).sender_alive()
                &&& final(ch).receiver_alive() == old(ch).receiver_alive()
                &&& final(ch).delivered() == old(ch).delivered()
                &&& final(ch).fired() == old(ch).fired()
            },
            old(ch).state() == State::Message ==> r == RecvPoll::Ready(
                Ok::<T, RecvError>(old(ch).message()->Some_0),
            ) && old(ch).received_into(final(ch)),
            old(ch).state() == State::Disconnected ==> r == RecvPoll::Ready(
                Err::<T, RecvError>(RecvError),
            ) && *final(ch) == *old(ch),
            r matches RecvPoll::Ready(Ok(_)) ==> !old(ch).delivered() && final(ch).delivered(),
            old(ch).delivered() ==> r == RecvPoll::Ready(Err::<T, RecvError>(RecvError)),
    {
        match ch.state {
            State::Empty => {
                ch.waker = Some(waker);
                ch.state = State::Receiving;
                ch.waiting = Ghost(true);
                RecvPoll::Pending
            },
            State::Message => RecvPoll::Ready(Ok(ch.take_message())),
            _ => {
                proof {
                    assert(ch.state == State::Disconnected);
                }
                RecvPoll::Ready(Err(RecvError))
            },
        }
    }
    /// Looks at the state word again after the waiting thread was woken, which may be
    /// spurious: while the state word stays `Receiving` the receiver keeps waiting.
    pub fn after_wake(&self, ch: &mut Channel<T>) -> (r: RecvPoll<T>)
        requires
            old(ch).wf(),
            old(ch).receiver_alive(),
            old(ch).waiting(),
        ensures
            final(ch).wf(),
            old(ch).evolves_to(final(ch)),
            old(ch).state() == State::Receiving ==> r is Pending && *final(ch) == *old(ch),
            old(ch).state() == State::Message ==> r == RecvPoll::Ready(
                Ok::<T, RecvError>(old(ch).message()->Some_0),
            ) && old(ch).received_into(final(ch)),
            old(ch).state() == State::Disconnected ==> r == RecvPoll::Ready(
                Err::<T, RecvError>(RecvError),
            ) && old(ch).saw_disconnect(final(ch)),
            r matches RecvPoll::Ready(Ok(_)) ==> !old(ch).delivered() && final(ch).delivered(),
            old(ch).delivered() ==> r == RecvPoll::Ready(Err::<T, RecvError>(RecvError)),
    {
        match ch.state {
            State::Message => RecvPoll::Ready(Ok(ch.take_message())),
            State::Disconnected => {
                ch.see_disconnect();
                RecvPoll::Ready(Err(RecvError))
            },
            _ => {
                proof {
                    assert(ch.state == State::Receiving);
                }
                RecvPoll::Pending
            },
        }
    }

    /// Stops waiting once a deadline has passed: moves the state word from `Receiving`
    /// back to `Empty` and drops the installed waker. If the sender acted first, its
    /// outcome stands instead: the message, or the disconnect.
    pub fn withdraw(&self, ch: &mut Channel<T>) -> (r: Result<T, RecvTimeoutError>)
        requires
            old(ch).wf(),
            old(ch).receiver_alive(),
            old(ch).waiting(),
        ensures
            final(ch).wf(),
            old(ch).evolves_to(final(ch)),
            old(ch).state() == State::Receiving ==> {
                &&& r == Err::<T, RecvTimeoutError>(RecvTimeoutError::Timeout)
                &&& final(ch).state() == State::Empty
                &&& final(ch).waker() is None
                &&& final(ch).message() is None
                &&& !final(ch).waiting()
                &&& final(ch).sender_alive()
                &&& final(ch).receiver_alive()
                &&& !final(ch).delivered()
                &&& final(ch).fired() == old(ch).fired()
            },
            old(ch).state() == State::Message ==> r == Ok::<T, RecvTimeoutError>(
                old(ch).message()->Some_0,
            ) && old(ch).received_into(final(ch)),
            old(ch).state() == State::Disconnected ==> r == Err::<T, RecvTimeoutError>(
                RecvTimeoutError::Disconnected,
            ) && old(ch).saw_disconnect(final(ch)),
            r is Ok ==> !old(ch).delivered() && final(ch).delivered(),
            old(ch).delivered() ==> r == Err::<T, RecvTimeoutError>(
                RecvTimeoutError::Disconnected,
            ),
    {
        match ch.state {
            State::Message => Ok(ch.take_message()),
            State::Disconnected => {
                ch.see_disconnect();
                Err(RecvTimeoutError::Disconnected)
            },
            _ => {
                proof {
                    assert(ch.state == State::Receiving);
                }
                ch.state = State::Empty;
                ch.waker = None;
                ch.waiting = Ghost(false);
                Err(RecvTimeoutError::Timeout)
            },
        }
    }

    /// One poll of an asynchronous receive. With nothing sent yet, a task waker made
    /// from `cx` is installed, replacing any waker that an earlier poll left, and the
    /// receive is pending; otherwise the outcome is returned.
    pub fn poll(&self, ch: &mut Channel<T>, cx: &std::task::Waker) -> (r: RecvPoll<T>)
        requires
            old(ch).wf(),
            old(ch).receiver_alive(),
        ensures
            final(ch).wf(),
            old(ch).evolves_to(final(ch)),
            old(ch).state() == State::Empty || old(ch).state() == State::Receiving ==> {
                &&& r is Pending
                &&& final(ch).state() == State::Receiving
                &&& final(ch).waker() matches Some(w) && w is Task
                &&& final(ch).message() is None
                &&& final(ch).waiting()
                &&& final(ch).sender_alive() == old(ch).sender_alive()
                &&& final(ch).receiver_alive() == old(ch).receiver_alive()
                &&& final(ch).delivered() == old(ch).delivered()
                &&& final(ch).fired() == old(ch).fired()
            },
            old(ch).state() == State::Message ==> r == RecvPoll::Ready(
                Ok::<T, RecvError>(old(ch).message()->Some_0),
            ) && old(ch).received_into(final(ch)),
            old(ch).state() == State::Disconnected ==> r == RecvPoll::Ready(
                Err::<T, RecvError>(RecvError),
            ) && old(ch).saw_disconnect(final(ch)),
            r matches RecvPoll::Ready(Ok(_)) ==> !old(ch).delivered() && final(ch).delivered(),
            old(ch).delivered() ==> r == RecvPoll::Ready(Err::<T, RecvError>(RecvError)),
    {
        match ch.state {
            State::Message => RecvPoll::Ready(Ok(ch.take_message())),
            State::Disconnected => {
                ch.see_disconnect();
                RecvPoll::Ready(Err(RecvError))
            },
            State::Empty => self.install_waker(ch, ReceiverWaker::task_waker(cx)),
            State::Receiving => match self.withdraw(ch) {
                Ok(message) => RecvPoll::Ready(Ok(message)),
                Err(RecvTimeoutError::Disconnected) => RecvPoll::Ready(Err(RecvError)),
                Err(RecvTimeoutError::Timeout) => self.install_waker(
                    ch,
                    ReceiverWaker::task_waker(cx),
                ),
            },
        }
    }

    /// Drops the receiver: the state word becomes `Disconnected`. A message still in the
    /// slot is dropped, and so is a waker that an earlier wait left installed, without
    /// firing it. If the sender is already gone the control block is released here.
    pub fn close(self, ch: &mut Channel<T>)
        requires
            old(ch).wf(),
            old(ch).receiver_alive(),
        ensures
            final(ch).wf(),
            old(ch).evolves_to(final(ch)),
            !final(ch).receiver_alive(),
            final(ch).sender_alive() == old(ch).sender_alive(),
            final(ch).state() == State::Disconnected,
            final(ch).message() is None,
            final(ch).waker() is None,
            !final(ch).waiting(),
            final(ch).delivered() == old(ch).delivered(),
            final(ch).fired() == old(ch).fired(),
            !old(ch).sender_alive() ==> final(ch).released(),
    {
        let prev = ch.state;
        ch.state = State::Disconnected;
        ch.receiver_alive = Ghost(false);
        ch.waiting = Ghost(false);
        match prev {
            State::Message => {
                ch.message = None;
                ch.frees = Ghost(ch.frees@ + 1);
            },
            State::Receiving => {
                ch.waker = None;
            },
            State::Disconnected => {
                ch.frees = Ghost(ch.frees@ + 1);
            },
            State::Empty => {},
        }
    }
}

/// How many steps of `trace` hand the message over: a step whose block was not yet
/// delivered and whose next block is.
pub open spec fn deliveries<T>(trace: Seq<Channel<T>>) -> nat
    decreases trace.len(),
{
    if trace.len() < 2 {
        0
    } else {
        let n = trace.len() - 1;
        deliveries(trace.drop_last()) + if !trace[n - 1].delivered() && trace[n].delivered() {
            1nat
        } else {
            0nat
        }
    }
}

/// Along any run of steps, the message is handed over at most once. Every successful
/// receive step is such a handover, as the receive steps state.
pub proof fn lemma_at_most_one_delivery<T>(trace: Seq<Channel<T>>)
    requires
        forall|i: int| 0 <= i < trace.len() - 1 ==> #[trigger] trace[i].evolves_to(&trace[i + 1]),
    ensures
        deliveries(trace) <= 1,
        trace.len() > 0 && !trace.last().delivered() ==> deliveries(trace) == 0,
    decreases trace.len(),
{
    if trace.len() >= 2 {
        let prefix = trace.drop_last();
        assert forall|i: int| 0 <= i < prefix.len() - 1 implies #[trigger] prefix[i].evolves_to(
            &prefix[i + 1],
        ) by {
            assert(prefix[i] == trace[i]);
            assert(prefix[i + 1] == trace[i + 1]);
        }
        lemma_at_most_one_delivery(prefix);
        let m = trace.len() - 2;
        assert(trace[m].evolves_to(&trace[m + 1]));
        assert(prefix.last() == trace[m]);
    }
}

/// Once both endpoints are gone, the control block has been freed exactly once and
/// holds neither a message nor a waker: nothing leaks, whatever the order of the steps.
pub proof fn lemma_no_leaks<T>(ch: &Channel<T>)
    requires
        ch.wf(),
        !ch.sender_alive(),
        !ch.receiver_alive(),
    ensures
        ch.released(),
{
}

/// After the message was delivered the state word stays `Disconnected` and the slot is
/// empty, so every later receive step reports the disconnect and none delivers again.
pub proof fn lemma_delivered_once<T>(ch: &Channel<T>)
    requires
        ch.wf(),
        ch.delivered(),
    ensures
        ch.state() == State::Disconnected,
        ch.message() is None,
        !ch.sender_alive(),
{
}

/// A receiver that waits in `Receiving` has its waker in the slot and a live sender,
/// which will fire it on its one remaining step (send or drop), as those steps state.
pub proof fn lemma_waiting_receiver_is_reachable<T>(ch: &Channel<T>)
    requires
        ch.wf(),
        ch.state() == State::Receiving,
    ensures
        ch.waker() is Some,
        ch.sender_alive(),
        ch.wakes() == 0,
{
}

} // verus!
