//! A single-slot wake signal between a thread that blocks and a task that
//! is polled.
//!
//! The signalling side sets a flag and wakes whoever waits; the polling
//! side takes the flag. Signals that arrive before the flag is taken fall
//! into one: a burst of signals gives one wake. This is meant: the signal
//! says that there is news, not how much.

use vstd::prelude::*;
use std::sync::{Arc, Mutex, MutexGuard};
use std::task::Waker;

verus! {

/// `std::task::Waker`, the handle by which a suspended task is woken.
#[verifier::external_type_specification]
#[verifier::external_body]
pub struct ExWaker(Waker);

/// `std::sync::Mutex`, which lets one thread at a time at its contents.
#[verifier::external_type_specification]
#[verifier::external_body]
#[verifier::reject_recursive_types(T)]
pub struct ExMutex<T: ?Sized>(Mutex<T>);

/// `std::sync::MutexGuard`, the access that a locked mutex grants.
#[verifier::external_type_specification]
#[verifier::external_body]
#[verifier::reject_recursive_types(T)]
pub struct ExMutexGuard<'a, T: ?Sized + 'a>(MutexGuard<'a, T>);

/// `Waker::wake`: wakes the task that the waker belongs to. Nothing is
/// returned.
pub assume_specification[ Waker::wake ](waker: Waker)
;

/// `Mutex::new`: a mutex around the value. Nothing is claimed of it.
pub assume_specification<T>[ Mutex::<T>::new ](value: T) -> (mutex: Mutex<T>)
;

/// `Arc::clone`: another handle to the same shared latch.
#[verifier::external_body]
fn second_handle(shared: &Arc<Mutex<InnerParker>>) -> (copy: Arc<Mutex<InnerParker>>)
    ensures
        copy == *shared,
{
    Arc::clone(shared)
}

/// `Mutex::lock`: waits for the mutex and grants access to its contents, or
/// `None` where a thread panicked while it held the mutex.
#[verifier::external_body]
fn lock_latch(latch: &Mutex<InnerParker>) -> (guard: Option<MutexGuard<'_, InnerParker>>) {
    latch.lock().ok()
}

/// `MutexGuard::deref_mut`: the contents of the locked mutex. What they
/// are is not known: another thread may have changed them.
#[verifier::external_body]
fn latch_contents<'a, 'b>(guard: &'a mut MutexGuard<'b, InnerParker>) -> (inner: &'a mut InnerParker) {
    &mut **guard
}

/// What the two sides of the latch share: the flag, and the waker of a
/// task that waits for it.
pub struct InnerParker {
    waker: Option<Waker>,
    ready: bool,
}

/// The signalling side of the latch.
pub struct Nudger(Arc<Mutex<InnerParker>>);

/// The polling side of the latch.
pub struct Parker(Arc<Mutex<InnerParker>>);

/// What a poll of the latch finds.
#[derive(Debug, Clone, Copy, PartialEq, Eq, Structural)]
pub enum LatchPoll {
    /// A signal had arrived. It is taken.
    Ready,
    /// No signal has arrived: wait to be woken.
    Pending,
    /// The signalling side panicked with the latch in its hands: no signal
    /// will come.
    Poisoned,
}

impl InnerParker {
    /// Whether a signal has arrived and was not taken.
    pub closed spec fn is_ready(&self) -> bool {
        self.ready
    }

    /// The waker of the task that polled last, until a signal takes it.
    pub closed spec fn parked(&self) -> Option<Waker> {
        self.waker
    }

    /// The latch after a signal: the flag is up, and the waker that was
    /// parked is gone.
    pub closed spec fn after_signal(self) -> InnerParker {
        InnerParker { waker: None, ready: true }
    }

    /// The latch after a poll on behalf of `waker`: the flag is down, and
    /// the waker is parked.
    pub closed spec fn after_poll(self, waker: Waker) -> InnerParker {
        InnerParker { waker: Some(waker), ready: false }
    }

    /// A latch without a signal and without a task that waits.
    pub fn new() -> (inner: Self)
        ensures
            !inner.is_ready(),
            inner.parked().is_none(),
    {
        Self { waker: None, ready: false }
    }

    /// Sets the flag, and hands out the waker of the task that waits, if
    /// there is one, for the caller to wake. A second signal before the
    /// flag is taken leaves the flag as it is.
    pub fn signal(&mut self) -> (wake: Option<Waker>)
        ensures
            *final(self) == old(self).after_signal(),
            final(self).is_ready(),
            final(self).parked().is_none(),
            wake == old(self).parked(),
    {
        self.ready = true;
        self.waker.take()
    }

    /// Parks the task's waker, and takes the flag: returns whether a
    /// signal had arrived, and leaves the flag down.
    pub fn poll(&mut self, waker: Waker) -> (ready: bool)
        ensures
            *final(self) == old(self).after_poll(waker),
            ready == old(self).is_ready(),
            !final(self).is_ready(),
            final(self).parked() == Some(waker),
    {
        self.waker = Some(waker);
        let ready = self.ready;
        self.ready = false;
        ready
    }
}

impl LatchPoll {
    /// What a poll finds, from what became of the lock: `None` where the
    /// latch could not be locked, else whether a signal had arrived.
    pub fn of_flag(flag: Option<bool>) -> (found: Self)
        ensures
            found == (match flag {
                Some(true) => LatchPoll::Ready,
                Some(false) => LatchPoll::Pending,
                None => LatchPoll::Poisoned,
            }),
    {
        match flag {
            Some(true) => LatchPoll::Ready,
            Some(false) => LatchPoll::Pending,
            None => LatchPoll::Poisoned,
        }
    }
}

impl Nudger {
    /// Signals the latch and wakes the task that waits for it. Where the
    /// polling side panicked with the latch in its hands, nothing is done.
    /// What becomes of the latch is what `InnerParker::signal` says of its
    /// contents; this side stays the side of the same latch.
    pub fn nudge(&mut self)
        ensures
            *final(self) == *old(self),
    {
        match lock_latch(&self.0) {
            Some(mut guard) => {
                let wake = latch_contents(&mut guard).signal();
                match wake {
                    Some(waker) => waker.wake(),
                    None => {},
                }
            },
            None => {},
        }
    }
}

impl Parker {
    /// Whether this side and `nudger` are the two sides of one latch: a
    /// signal on `nudger` is what a poll of this side finds.
    pub closed spec fn shares_with(&self, nudger: &Nudger) -> bool {
        self.0 == nudger.0
    }

    /// A latch, as its two sides.
    pub fn new() -> (sides: (Self, Nudger))
        ensures
            sides.0.shares_with(&sides.1),
    {
        let inner = Arc::new(Mutex::new(InnerParker::new()));
        (Parker(second_handle(&inner)), Nudger(inner))
    }

    /// Polls the latch for the task that `waker` wakes: `Ready` where a
    /// signal had arrived, which is thereby taken, and `Pending` where the
    /// task has to wait. What is found is `LatchPoll::of_flag` of what
    /// `InnerParker::poll` says of the latch's contents; this side stays
    /// the side of the same latch.
    pub fn poll(&mut self, waker: Waker) -> (found: LatchPoll)
        ensures
            *final(self) == *old(self),
    {
        let flag = match lock_latch(&self.0) {
            Some(mut guard) => Some(latch_contents(&mut guard).poll(waker)),
            None => None,
        };
        LatchPoll::of_flag(flag)
    }
}

/// A signal on a latch that was signalled and not polled changes nothing:
/// however many signals arrive before a poll, the poll finds one, and the
/// poll after it finds none.
pub proof fn lemma_signals_coalesce(latch: InnerParker, first: Waker, second: Waker)
    ensures
        latch.after_signal().after_signal() == latch.after_signal(),
        latch.after_signal().is_ready(),
        !latch.after_signal().after_poll(first).is_ready(),
        !latch.after_signal().after_poll(first).after_poll(second).is_ready(),
{
}

} // verus!
