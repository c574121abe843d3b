//! One deferred computation as a stream that can be armed again.
//!
//! The stream wraps a computation that completes once. Polled, it yields
//! the computation's value when that is there, then the end of the stream,
//! and nothing from then on, until it is armed with a new computation. The
//! computation itself is polled by the caller, since only the caller knows
//! how: `wants_poll` says whether to poll it, `inner_mut` hands it out, and
//! `poll_next` is told what the poll gave.

use vstd::prelude::*;

verus! {

/// What a `FutureStream` holds.
pub struct FutureStreamView<F> {
    /// The wrapped computation, until it completes or is discarded.
    pub fut: Option<F>,
    /// Whether the stream yields nothing until it is armed again.
    pub finished: bool,
}

/// What a poll of the stream yields.
#[derive(Debug)]
pub enum StreamPoll<T> {
    /// The value with which the wrapped computation completed.
    Item(T),
    /// The end of the stream.
    End,
    /// Nothing yet.
    Pending,
}

/// A stream around one computation of type `F`.
pub struct FutureStream<F> {
    fut: Option<F>,
    finished: bool,
}

impl<F> FutureStreamView<F> {
    /// Whether a poll of the stream has to poll the wrapped computation.
    pub open spec fn wants_poll(self) -> bool {
        !self.finished && self.fut.is_some()
    }

    /// The stream after a poll. `completed` says whether the wrapped
    /// computation was polled and has completed.
    pub open spec fn polled(self, completed: bool) -> FutureStreamView<F> {
        if self.finished {
            self
        } else if self.fut.is_some() {
            if completed {
                FutureStreamView { fut: None, finished: false }
            } else {
                self
            }
        } else {
            FutureStreamView { fut: None, finished: true }
        }
    }

    /// What a poll yields. `inner` is the value with which the wrapped
    /// computation completed, where it was polled and has.
    pub open spec fn yields<T>(self, inner: Option<T>) -> StreamPoll<T> {
        if self.finished {
            StreamPoll::Pending
        } else if self.fut.is_some() {
            match inner {
                Some(value) => StreamPoll::Item(value),
                None => StreamPoll::Pending,
            }
        } else {
            StreamPoll::End
        }
    }
}

impl<F> View for FutureStream<F> {
    type V = FutureStreamView<F>;

    closed spec fn view(&self) -> FutureStreamView<F> {
        FutureStreamView { fut: self.fut, finished: self.finished }
    }
}

impl<F> FutureStream<F> {
    /// A stream around `fut`.
    pub fn new(fut: F) -> (stream: Self)
        ensures
            stream@ == (FutureStreamView { fut: Some(fut), finished: false }),
    {
        Self { fut: Some(fut), finished: false }
    }

    /// A stream around nothing, which yields nothing until it is armed.
    pub fn new_never() -> (stream: Self)
        ensures
            stream@ == (FutureStreamView::<F> { fut: None, finished: true }),
    {
        Self { fut: None, finished: true }
    }

    /// Discards the wrapped computation: the stream yields nothing until
    /// it is armed.
    pub fn set_never(&mut self)
        ensures
            final(self)@ == (FutureStreamView::<F> { fut: None, finished: true }),
    {
        self.fut = None;
        self.finished = true;
    }

    /// Arms the stream with `fut` in place of what it wrapped.
    pub fn set(&mut self, fut: F)
        ensures
            final(self)@ == (FutureStreamView { fut: Some(fut), finished: false }),
    {
        self.fut = Some(fut);
        self.finished = false;
    }

    /// Arms the stream with `fut` unless it wraps a computation already.
    pub fn set_if_no_future(&mut self, fut: F)
        ensures
            old(self)@.fut.is_some() ==> final(self)@ == old(self)@,
            old(self)@.fut.is_none() ==> final(self)@ == (FutureStreamView {
                fut: Some(fut),
                finished: false,
            }),
    {
        if self.fut.is_none() {
            self.fut = Some(fut);
            self.finished = false;
        }
    }

    /// Whether the stream wraps a computation.
    pub fn may_finish(&self) -> (wraps: bool)
        ensures
            wraps == self@.fut.is_some(),
    {
        self.fut.is_some()
    }

    /// Whether a poll of the stream has to poll the wrapped computation
    /// first.
    pub fn wants_poll(&self) -> (wants: bool)
        ensures
            wants == self@.wants_poll(),
    {
        !self.finished && self.fut.is_some()
    }

    /// The wrapped computation, to be polled in place.
    pub fn inner_mut(&mut self) -> (inner: Option<&mut F>)
        ensures
            inner.is_some() == old(self)@.fut.is_some(),
            inner matches Some(fut) ==> *fut == old(self)@.fut.unwrap() && final(self)@ == (
            FutureStreamView { fut: Some(*final(fut)), finished: old(self)@.finished }),
            inner is None ==> final(self)@ == old(self)@,
    {
        match &mut self.fut {
            Some(fut) => Some(fut),
            None => None,
        }
    }

    /// Polls the stream. Where `wants_poll` holds, the caller has polled
    /// the wrapped computation, and `inner` is the value with which it
    /// completed, or `None` where it has not. A stream that is finished
    /// yields nothing. One that wraps a computation yields its value once
    /// it is there, and discards the computation. One that wraps nothing
    /// yields the end of the stream and is finished.
    pub fn poll_next<T>(&mut self, inner: Option<T>) -> (item: StreamPoll<T>)
        ensures
            final(self)@ == old(self)@.polled(inner.is_some()),
            item == old(self)@.yields(inner),
    {
        if self.finished {
            return StreamPoll::Pending;
        }
        if self.fut.is_some() {
            match inner {
                Some(value) => {
                    self.fut = None;
                    StreamPoll::Item(value)
                },
                None => StreamPoll::Pending,
            }
        } else {
            self.finished = true;
            StreamPoll::End
        }
    }
}

/// A stream whose computation has completed yields the value, then the end
/// of the stream, then nothing, whatever is polled: one value and no more,
/// until the stream is armed again.
pub proof fn lemma_one_shot<F, T>(fut: F, value: T, later: Option<T>, last: Option<T>)
    ensures
        ({
            let armed = FutureStreamView { fut: Some(fut), finished: false };
            let first = armed.polled(true);
            let second = first.polled(later.is_some());
            &&& armed.yields(Some(value)) == StreamPoll::Item(value)
            &&& first.yields(later) == StreamPoll::<T>::End
            &&& second.yields(last) == StreamPoll::<T>::Pending
            &&& second.polled(last.is_some()) == second
        }),
{
}

/// A stream that was told never to fire yields nothing, whatever is polled.
pub proof fn lemma_never_is_silent<F, T>(inner: Option<T>)
    ensures
        ({
            let never = FutureStreamView::<F> { fut: None, finished: true };
            &&& never.yields(inner) == StreamPoll::<T>::Pending
            &&& never.polled(inner.is_some()) == never
            &&& !never.wants_poll()
        }),
{
}

} // verus!
