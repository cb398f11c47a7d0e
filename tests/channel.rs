use std::cell::Cell;
use std::rc::Rc;
use std::sync::atomic::{AtomicUsize, Ordering};
use std::sync::Arc;
use std::task::{Wake, Waker};

use oneshot::{
    channel, ReceiverWaker, RecvError, RecvPoll, RecvStart, RecvTimeoutError, TryRecvError,
};

struct CountingWaker {
    wakes: AtomicUsize,
}

impl Wake for CountingWaker {
    fn wake(self: Arc<Self>) {
        self.wakes.fetch_add(1, Ordering::SeqCst);
    }
}

fn counting_waker() -> (Arc<CountingWaker>, Waker) {
    let counter = Arc::new(CountingWaker { wakes: AtomicUsize::new(0) });
    let waker = Waker::from(counter.clone());
    (counter, waker)
}

fn wakes(counter: &Arc<CountingWaker>) -> usize {
    counter.wakes.load(Ordering::SeqCst)
}

struct DropCounter {
    drops: Rc<Cell<u32>>,
}

impl Drop for DropCounter {
    fn drop(&mut self) {
        self.drops.set(self.drops.get() + 1);
    }
}

#[test]
fn receiver_waker_size() {
    assert_eq!(std::mem::size_of::<ReceiverWaker>(), 24);
}

#[test]
fn happy_path_message_already_sent() {
    let (mut ch, tx, rx) = channel::<u32>();
    assert!(tx.send(&mut ch, 42).is_ok());
    assert_eq!(rx.begin_recv(&mut ch), RecvStart::Done(Ok(42)));
    rx.close(&mut ch);
}

#[test]
fn happy_path_blocking_receiver_is_woken() {
    let (counter, waker) = counting_waker();
    let (mut ch, tx, rx) = channel::<u32>();
    assert_eq!(rx.begin_recv(&mut ch), RecvStart::MustWait);
    let waiting = rx.install_waker(&mut ch, ReceiverWaker::current_thread(waker));
    assert_eq!(waiting, RecvPoll::Pending);
    assert_eq!(rx.after_wake(&mut ch), RecvPoll::Pending);
    assert!(tx.send(&mut ch, 42).is_ok());
    assert_eq!(wakes(&counter), 1);
    assert_eq!(rx.after_wake(&mut ch), RecvPoll::Ready(Ok(42)));
    assert_eq!(rx.try_recv(&mut ch), Err(TryRecvError::Disconnected));
    rx.close(&mut ch);
    assert_eq!(wakes(&counter), 1);
}

#[test]
fn producer_drop_before_send() {
    let (mut ch, tx, rx) = channel::<u32>();
    tx.close(&mut ch);
    assert_eq!(rx.begin_recv(&mut ch), RecvStart::Done(Err(RecvError)));
    rx.close(&mut ch);
}

#[test]
fn producer_drop_wakes_waiting_receiver() {
    let (counter, waker) = counting_waker();
    let (mut ch, tx, rx) = channel::<u32>();
    let waiting = rx.install_waker(&mut ch, ReceiverWaker::current_thread(waker));
    assert_eq!(waiting, RecvPoll::Pending);
    tx.close(&mut ch);
    assert_eq!(wakes(&counter), 1);
    assert_eq!(rx.after_wake(&mut ch), RecvPoll::Ready(Err(RecvError)));
    rx.close(&mut ch);
}

#[test]
fn consumer_drop_before_send() {
    let (mut ch, tx, rx) = channel::<&'static str>();
    rx.close(&mut ch);
    match tx.send(&mut ch, "hello") {
        Err(e) => assert_eq!(e.into_value(), "hello"),
        Ok(()) => panic!("the send should fail"),
    }
}

#[test]
fn send_error_hands_back_the_value() {
    let (mut ch, tx, rx) = channel::<Vec<u8>>();
    rx.close(&mut ch);
    let err = tx.send(&mut ch, vec![1, 2, 3]).unwrap_err();
    assert_eq!(err.into_value(), vec![1, 2, 3]);
}

#[test]
fn timeout_then_late_send() {
    let (counter, waker) = counting_waker();
    let (mut ch, tx, rx) = channel::<u32>();
    let waiting = rx.install_waker(&mut ch, ReceiverWaker::current_thread(waker));
    assert_eq!(waiting, RecvPoll::Pending);
    assert_eq!(rx.withdraw(&mut ch), Err(RecvTimeoutError::Timeout));
    assert_eq!(rx.try_recv(&mut ch), Err(TryRecvError::Empty));
    assert!(tx.send(&mut ch, 7).is_ok());
    assert_eq!(wakes(&counter), 0);
    assert_eq!(rx.try_recv(&mut ch), Ok(7));
    rx.close(&mut ch);
}

#[test]
fn timeout_loses_race_to_send() {
    let (counter, waker) = counting_waker();
    let (mut ch, tx, rx) = channel::<u32>();
    let waiting = rx.install_waker(&mut ch, ReceiverWaker::current_thread(waker));
    assert_eq!(waiting, RecvPoll::Pending);
    assert!(tx.send(&mut ch, 5).is_ok());
    assert_eq!(rx.withdraw(&mut ch), Ok(5));
    assert_eq!(wakes(&counter), 1);
    assert_eq!(rx.try_recv(&mut ch), Err(TryRecvError::Disconnected));
    rx.close(&mut ch);
}

#[test]
fn timeout_loses_race_to_producer_drop() {
    let (_counter, waker) = counting_waker();
    let (mut ch, tx, rx) = channel::<u32>();
    let waiting = rx.install_waker(&mut ch, ReceiverWaker::current_thread(waker));
    assert_eq!(waiting, RecvPoll::Pending);
    tx.close(&mut ch);
    assert_eq!(rx.withdraw(&mut ch), Err(RecvTimeoutError::Disconnected));
    rx.close(&mut ch);
}

#[test]
fn install_after_send_drops_local_waker() {
    let (counter, waker) = counting_waker();
    let (mut ch, tx, rx) = channel::<u32>();
    assert_eq!(rx.begin_recv(&mut ch), RecvStart::MustWait);
    assert!(tx.send(&mut ch, 3).is_ok());
    let outcome = rx.install_waker(&mut ch, ReceiverWaker::current_thread(waker));
    assert_eq!(outcome, RecvPoll::Ready(Ok(3)));
    assert_eq!(wakes(&counter), 0);
    assert_eq!(Arc::strong_count(&counter), 1);
    rx.close(&mut ch);
}

#[test]
fn install_after_producer_drop() {
    let (_counter, waker) = counting_waker();
    let (mut ch, tx, rx) = channel::<u32>();
    assert_eq!(rx.begin_recv(&mut ch), RecvStart::MustWait);
    tx.close(&mut ch);
    let outcome = rx.install_waker(&mut ch, ReceiverWaker::current_thread(waker));
    assert_eq!(outcome, RecvPoll::Ready(Err(RecvError)));
    rx.close(&mut ch);
}

#[test]
fn async_poll_then_ready() {
    let (counter, waker) = counting_waker();
    let (mut ch, tx, rx) = channel::<u32>();
    assert_eq!(rx.poll(&mut ch, &waker), RecvPoll::Pending);
    assert!(tx.send(&mut ch, 9).is_ok());
    assert_eq!(wakes(&counter), 1);
    assert_eq!(rx.poll(&mut ch, &waker), RecvPoll::Ready(Ok(9)));
    assert_eq!(rx.poll(&mut ch, &waker), RecvPoll::Ready(Err(RecvError)));
    rx.close(&mut ch);
    assert_eq!(wakes(&counter), 1);
}

#[test]
fn poll_twice_replaces_waker() {
    let (first, first_waker) = counting_waker();
    let (second, second_waker) = counting_waker();
    let (mut ch, tx, rx) = channel::<u32>();
    assert_eq!(rx.poll(&mut ch, &first_waker), RecvPoll::Pending);
    assert_eq!(rx.poll(&mut ch, &second_waker), RecvPoll::Pending);
    assert!(tx.send(&mut ch, 11).is_ok());
    assert_eq!(wakes(&first), 0);
    assert_eq!(wakes(&second), 1);
    assert_eq!(rx.poll(&mut ch, &second_waker), RecvPoll::Ready(Ok(11)));
    rx.close(&mut ch);
}

#[test]
fn blocking_receive_after_poll_is_refused() {
    let (_counter, waker) = counting_waker();
    let (mut ch, tx, rx) = channel::<u32>();
    assert_eq!(rx.poll(&mut ch, &waker), RecvPoll::Pending);
    assert_eq!(rx.begin_recv(&mut ch), RecvStart::PolledAsync);
    assert_eq!(rx.try_recv(&mut ch), Err(TryRecvError::Empty));
    tx.close(&mut ch);
    rx.close(&mut ch);
}

#[test]
fn consumer_drop_while_waiting_does_not_wake() {
    let (counter, waker) = counting_waker();
    let (mut ch, tx, rx) = channel::<u32>();
    assert_eq!(rx.poll(&mut ch, &waker), RecvPoll::Pending);
    rx.close(&mut ch);
    drop(waker);
    assert_eq!(wakes(&counter), 0);
    assert_eq!(Arc::strong_count(&counter), 1);
    assert_eq!(tx.send(&mut ch, 1).unwrap_err().into_value(), 1);
}

#[test]
fn try_recv_states() {
    let (mut ch, tx, rx) = channel::<u32>();
    assert_eq!(rx.try_recv(&mut ch), Err(TryRecvError::Empty));
    assert!(tx.send(&mut ch, 8).is_ok());
    assert_eq!(rx.try_recv(&mut ch), Ok(8));
    assert_eq!(rx.try_recv(&mut ch), Err(TryRecvError::Disconnected));
    assert_eq!(rx.begin_recv(&mut ch), RecvStart::Done(Err(RecvError)));
    rx.close(&mut ch);
}

#[test]
fn zero_sized_payload() {
    let (mut ch, tx, rx) = channel::<()>();
    assert!(tx.send(&mut ch, ()).is_ok());
    assert_eq!(rx.try_recv(&mut ch), Ok(()));
    rx.close(&mut ch);
}

#[test]
fn undelivered_payload_dropped_by_consumer() {
    let drops = Rc::new(Cell::new(0));
    let (mut ch, tx, rx) = channel::<DropCounter>();
    assert!(tx.send(&mut ch, DropCounter { drops: drops.clone() }).is_ok());
    assert_eq!(drops.get(), 0);
    rx.close(&mut ch);
    assert_eq!(drops.get(), 1);
}

#[test]
fn delivered_payload_dropped_once() {
    let drops = Rc::new(Cell::new(0));
    let (mut ch, tx, rx) = channel::<DropCounter>();
    assert!(tx.send(&mut ch, DropCounter { drops: drops.clone() }).is_ok());
    let message = rx.try_recv(&mut ch).ok().unwrap();
    rx.close(&mut ch);
    assert_eq!(drops.get(), 0);
    drop(message);
    assert_eq!(drops.get(), 1);
}

#[test]
fn failed_send_payload_dropped_with_error() {
    let drops = Rc::new(Cell::new(0));
    let (mut ch, tx, rx) = channel::<DropCounter>();
    rx.close(&mut ch);
    let err = tx.send(&mut ch, DropCounter { drops: drops.clone() });
    assert_eq!(drops.get(), 0);
    drop(err);
    assert_eq!(drops.get(), 1);
}

#[test]
fn task_waker_fires_on_unpark() {
    let (counter, waker) = counting_waker();
    let task = ReceiverWaker::task_waker(&waker);
    assert!(matches!(task, ReceiverWaker::Task(_)));
    task.unpark();
    assert_eq!(wakes(&counter), 1);
}

#[test]
fn send_errors_compare_by_payload() {
    let (mut first, first_tx, first_rx) = channel::<u32>();
    let (mut second, second_tx, second_rx) = channel::<u32>();
    first_rx.close(&mut first);
    second_rx.close(&mut second);
    let a = first_tx.send(&mut first, 4).unwrap_err();
    let b = second_tx.send(&mut second, 4).unwrap_err();
    assert_eq!(a, b);
    let (mut third, third_tx, third_rx) = channel::<u32>();
    third_rx.close(&mut third);
    let c = third_tx.send(&mut third, 5).unwrap_err();
    assert_ne!(a, c);
}
