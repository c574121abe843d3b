//! The outputs to which a display writes.
//!
//! An output that fails is closed and stays in its place until the next
//! output is taken in; then the closed ones are dropped. Writing is the
//! caller's part: it walks the places, writes to each open output, and
//! closes an output whose write fails.

use vstd::prelude::*;

verus! {

/// The outputs, each in its place. A place whose output was closed holds
/// `None`.
pub struct Listeners<W> {
    slots: Vec<Option<W>>,
}

/// Whether a place holds an open output.
pub open spec fn is_open<W>(slot: Option<W>) -> bool {
    slot.is_some()
}

impl<W> View for Listeners<W> {
    type V = Seq<Option<W>>;

    closed spec fn view(&self) -> Seq<Option<W>> {
        self.slots@
    }
}

impl<W> Listeners<W> {
    /// No outputs.
    pub fn new() -> (listeners: Self)
        ensures
            listeners@.len() == 0,
    {
        Listeners { slots: Vec::new() }
    }

    /// The number of places, open or closed.
    pub fn len(&self) -> (n: usize)
        ensures
            n == self@.len(),
    {
        self.slots.len()
    }

    /// Whether the place `i` holds an open output.
    pub fn is_open(&self, i: usize) -> (open: bool)
        requires
            i < self@.len(),
        ensures
            open == self@[i as int].is_some(),
    {
        self.slots[i].is_some()
    }

    /// Drops the closed outputs and takes `listener` in behind the open ones.
    pub fn enlist(&mut self, listener: W)
        ensures
            final(self)@ == old(self)@.filter(|slot: Option<W>| is_open(slot)).push(Some(listener)),
    {
        let ghost before = self.slots@;
        let ghost open = |slot: Option<W>| is_open(slot);
        let ghost mut seen: int = 0;
        let mut i: usize = 0;
        proof {
            reveal(Seq::filter);
            assert(before.take(0) =~= Seq::<Option<W>>::empty());
            assert(self.slots@.take(0) =~= before.take(0).filter(open));
            assert(self.slots@.skip(0) =~= before.skip(0));
        }
        while i < self.slots.len()
            invariant
                before == old(self).slots@,
                open == |slot: Option<W>| is_open(slot),
                0 <= seen <= before.len(),
                i <= self.slots@.len(),
                self.slots@.len() - i == before.len() - seen,
                self.slots@.take(i as int) == before.take(seen).filter(open),
                self.slots@.skip(i as int) == before.skip(seen),
            decreases self.slots@.len() - i,
        {
            let ghost current = self.slots@;
            proof {
                assert(current[i as int] == current.skip(i as int)[0]);
                assert(before[seen] == before.skip(seen)[0]);
                assert(before.take(seen + 1) =~= before.take(seen).push(before[seen]));
                before.take(seen).lemma_filter_push(before[seen], open);
            }
            if self.slots[i].is_none() {
                let _closed = self.slots.remove(i);
                proof {
                    assert(self.slots@.take(i as int) =~= current.take(i as int));
                    assert(self.slots@.skip(i as int) =~= current.skip(i as int).skip(1));
                    assert(before.skip(seen + 1) =~= before.skip(seen).skip(1));
                }
            } else {
                proof {
                    assert(current.take(i + 1) =~= current.take(i as int).push(current[i as int]));
                    assert(current.skip(i + 1) =~= current.skip(i as int).skip(1));
                    assert(before.skip(seen + 1) =~= before.skip(seen).skip(1));
                }
                i += 1;
            }
            proof {
                seen = seen + 1;
            }
        }
        proof {
            assert(self.slots@.take(i as int) =~= self.slots@);
            assert(before.take(seen) =~= before);
        }
        self.slots.push(Some(listener));
    }

    /// The output in the place `i`, to be written to, or `None` where that
    /// output was closed.
    pub fn listener_mut(&mut self, i: usize) -> (listener: Option<&mut W>)
        requires
            i < old(self)@.len(),
        ensures
            listener.is_some() == old(self)@[i as int].is_some(),
            listener matches Some(w) ==> *w == old(self)@[i as int].unwrap() && final(self)@
                == old(self)@.update(i as int, Some(*final(w))),
            listener is None ==> final(self)@ == old(self)@,
    {
        match &mut self.slots[i] {
            Some(w) => Some(w),
            None => None,
        }
    }

    /// Closes the output in the place `i`: its write failed. The other
    /// places stay as they are.
    pub fn close(&mut self, i: usize)
        requires
            i < old(self)@.len(),
        ensures
            final(self)@ == old(self)@.update(i as int, None),
    {
        self.slots[i] = None;
    }
}

/// An output that was closed is gone once another is taken in, and the
/// open ones keep their order.
pub proof fn lemma_closed_outputs_are_dropped<W>(slots: Seq<Option<W>>, listener: W, i: int)
    ensures
        0 <= i < slots.filter(|slot: Option<W>| is_open(slot)).push(Some(listener)).len()
            ==> slots.filter(|slot: Option<W>| is_open(slot)).push(Some(listener))[i].is_some(),
{
    let open = |slot: Option<W>| is_open(slot);
    let kept = slots.filter(open);
    if 0 <= i < kept.len() {
        slots.lemma_filter_pred(open, i);
    }
}

} // verus!
