use vstd::prelude::*;

verus! {

#[verifier::external_type_specification]
#[verifier::external_body]
pub struct ExWaker(std::task::Waker);

/// Relies on `<Waker as Clone>::clone`: a new handle to the same task.
#[verifier::external_body]
fn clone_waker(w: &std::task::Waker) -> std::task::Waker {
    w.clone()
}

/// Relies on `Waker::wake`: schedules the task (or unparks the thread) behind the handle.
#[verifier::external_body]
fn wake(w: std::task::Waker) {
    w.wake()
}

/// What a waiting receiver leaves in the control block so that the sender can wake it.
pub enum ReceiverWaker {
    /// The receiver blocks a thread; the handle unparks that thread.
    Thread(std::task::Waker),
    /// The receiver is an asynchronous task; the handle schedules it.
    Task(std::task::Waker),
}

impl ReceiverWaker {
    /// The waker of a receiver that blocks the thread which `thread` unparks.
    pub fn current_thread(thread: std::task::Waker) -> (r: Self)
        ensures
            r == ReceiverWaker::Thread(thread),
    {
        ReceiverWaker::Thread(thread)
    }

    /// The waker of a receiver polled as a task, from the waker of its context.
    pub fn task_waker(cx: &std::task::Waker) -> (r: Self)
        ensures
            r is Task,
    {
        ReceiverWaker::Task(clone_waker(cx))
    }

    /// Fires the waker once, consuming it.
    pub fn unpark(self) {
        match self {
            ReceiverWaker::Thread(thread) => wake(thread),
            ReceiverWaker::Task(waker) => wake(waker),
        }
    }
}

} // verus!
