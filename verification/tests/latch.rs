use clockd::{InnerParker, LatchPoll, Parker};
use std::sync::atomic::{AtomicUsize, Ordering};
use std::sync::Arc;
use std::task::{Wake, Waker};

struct Counter(AtomicUsize);

impl Wake for Counter {
    fn wake(self: Arc<Self>) {
        self.0.fetch_add(1, Ordering::SeqCst);
    }
}

fn counter() -> (Arc<Counter>, Waker) {
    let counter = Arc::new(Counter(AtomicUsize::new(0)));
    (counter.clone(), Waker::from(counter))
}

#[test]
fn a_poll_without_a_signal_waits() {
    let (woken, waker) = counter();
    let (mut parker, _nudger) = Parker::new();
    assert_eq!(parker.poll(waker.clone()), LatchPoll::Pending);
    assert_eq!(parker.poll(waker), LatchPoll::Pending);
    assert_eq!(woken.0.load(Ordering::SeqCst), 0);
}

#[test]
fn a_signal_wakes_the_task_that_waits() {
    let (woken, waker) = counter();
    let (mut parker, mut nudger) = Parker::new();
    assert_eq!(parker.poll(waker.clone()), LatchPoll::Pending);
    nudger.nudge();
    assert_eq!(woken.0.load(Ordering::SeqCst), 1);
    assert_eq!(parker.poll(waker.clone()), LatchPoll::Ready);
    assert_eq!(parker.poll(waker), LatchPoll::Pending);
}

#[test]
fn signals_before_a_poll_fall_into_one() {
    let (woken, waker) = counter();
    let (mut parker, mut nudger) = Parker::new();
    nudger.nudge();
    nudger.nudge();
    nudger.nudge();
    assert_eq!(woken.0.load(Ordering::SeqCst), 0);
    assert_eq!(parker.poll(waker.clone()), LatchPoll::Ready);
    assert_eq!(parker.poll(waker.clone()), LatchPoll::Pending);
    nudger.nudge();
    nudger.nudge();
    assert_eq!(woken.0.load(Ordering::SeqCst), 1);
    assert_eq!(parker.poll(waker.clone()), LatchPoll::Ready);
    assert_eq!(parker.poll(waker), LatchPoll::Pending);
}

#[test]
fn the_shared_state_by_itself() {
    let (woken, waker) = counter();
    let mut inner = InnerParker::new();
    assert!(inner.signal().is_none());
    assert!(inner.signal().is_none());
    assert!(inner.poll(waker.clone()));
    assert!(!inner.poll(waker.clone()));
    let parked = inner.signal();
    assert!(parked.is_some());
    parked.unwrap().wake();
    assert_eq!(woken.0.load(Ordering::SeqCst), 1);
    assert!(inner.signal().is_none());
    assert!(inner.poll(waker));
}

#[test]
fn what_a_poll_finds_by_the_flag() {
    assert_eq!(LatchPoll::of_flag(Some(true)), LatchPoll::Ready);
    assert_eq!(LatchPoll::of_flag(Some(false)), LatchPoll::Pending);
    assert_eq!(LatchPoll::of_flag(None), LatchPoll::Poisoned);
}
