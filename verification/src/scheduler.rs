//! The scheduler: alarms that are still to ring, in the order of their
//! ends, and alarms that have rung and wait to be acknowledged.

use vstd::prelude::*;
use crate::alarm::{Alarm, AlarmEvent, AlarmState};
use crate::moment::UnixMoment;

verus! {

/// What a scheduler holds.
pub struct AlarmListView {
    /// The alarms that have not rung, earliest end first.
    pub pending: Seq<Alarm>,
    /// The alarms that have rung, in the order in which they did.
    pub alarming: Seq<Alarm>,
}

/// Two containers of alarms. `pending` is kept in ascending order of the
/// ends, and alarms with one end stay in the order in which they were
/// added. `alarming` is kept in the order in which the alarms rang.
pub struct AlarmList {
    pending: Vec<Alarm>,
    alarming: Vec<Alarm>,
}

/// The ends never decrease along `alarms`.
pub open spec fn sorted_by_end(alarms: Seq<Alarm>) -> bool {
    forall|i: int, j: int| 0 <= i <= j < alarms.len() ==> alarms[i].end_t@ <= alarms[j].end_t@
}

/// How many alarms at the front of `alarms` end at `end` or before: the
/// place at which an alarm with that end goes in.
pub open spec fn insertion_index(alarms: Seq<Alarm>, end: UnixMoment) -> int
    decreases alarms.len(),
{
    if alarms.len() == 0 || alarms[0].end_t@ > end@ {
        0
    } else {
        1 + insertion_index(alarms.drop_first(), end)
    }
}

/// Whether `remove` takes `alarm` away for `creation_t`: it was created
/// then and its end has not come.
pub open spec fn withdrawn(alarm: Alarm, creation_t: UnixMoment) -> bool {
    alarm.creation_t == creation_t && alarm.state != AlarmState::Done
}

/// Each alarm of `alarms` after a look at `now`.
pub open spec fn evaluated_all(alarms: Seq<Alarm>, now: UnixMoment) -> Seq<Alarm> {
    alarms.map_values(|alarm: Alarm| alarm.evaluated(now))
}

/// The events that a look at `now` gives for the alarms, in their order.
pub open spec fn sweep_events(alarms: Seq<Alarm>, now: UnixMoment) -> Seq<AlarmEvent>
    decreases alarms.len(),
{
    if alarms.len() == 0 {
        Seq::empty()
    } else {
        let earlier = sweep_events(alarms.drop_last(), now);
        match alarms.last().event_at(now) {
            Some(event) => earlier.push(event),
            None => earlier,
        }
    }
}

/// How many of the alarms a look at `now` finds at their end and not done:
/// the number of `Now` events among `sweep_events`.
pub open spec fn fired_count(alarms: Seq<Alarm>, now: UnixMoment) -> nat
    decreases alarms.len(),
{
    if alarms.len() == 0 {
        0
    } else {
        let earlier = fired_count(alarms.drop_last(), now);
        if alarms.last().due(now) && alarms.last().state != AlarmState::Done {
            earlier + 1
        } else {
            earlier
        }
    }
}

impl AlarmListView {
    /// The creation moments of all alarms held, the rung ones first.
    pub open spec fn identities(self) -> Seq<UnixMoment> {
        (self.alarming + self.pending).map_values(|alarm: Alarm| alarm.creation_t)
    }

    /// No creation moment occurs twice: no alarm is in both containers, and
    /// none is twice in one.
    pub open spec fn distinct(self) -> bool {
        self.identities().no_duplicates()
    }

    /// Whether an alarm created at `creation_t` is held.
    pub open spec fn holds(self, creation_t: UnixMoment) -> bool {
        self.identities().contains(creation_t)
    }

    /// The contents after `a` is admitted.
    pub open spec fn with_added(self, a: Alarm) -> AlarmListView {
        AlarmListView {
            pending: self.pending.insert(insertion_index(self.pending, a.end_t), a),
            alarming: self.alarming,
        }
    }

    /// The contents after the pending alarms created at `creation_t` are
    /// withdrawn, as far as their end has not come.
    pub open spec fn without(self, creation_t: UnixMoment) -> AlarmListView {
        AlarmListView {
            pending: self.pending.filter(|alarm: Alarm| !withdrawn(alarm, creation_t)),
            alarming: self.alarming,
        }
    }

    /// The contents after the alarms that have rung are acknowledged.
    pub open spec fn acknowledged(self) -> AlarmListView {
        AlarmListView { pending: self.pending, alarming: Seq::empty() }
    }

    /// The contents after a sweep at `now`: every pending alarm is looked
    /// at, and as many as rang leave the front of the pending alarms and go
    /// behind those that have rung.
    pub open spec fn swept(self, now: UnixMoment) -> AlarmListView {
        AlarmListView {
            pending: evaluated_all(self.pending, now).skip(fired_count(self.pending, now) as int),
            alarming: self.alarming + evaluated_all(self.pending, now).take(
                fired_count(self.pending, now) as int,
            ),
        }
    }

    /// The pending alarms are still to ring and the others have rung.
    pub open spec fn settled(self) -> bool {
        &&& forall|i: int| 0 <= i < self.pending.len() ==> self.pending[i].state != AlarmState::Done
        &&& forall|i: int| 0 <= i < self.alarming.len() ==> self.alarming[i].state == AlarmState::Done
    }
}

impl View for AlarmList {
    type V = AlarmListView;

    closed spec fn view(&self) -> AlarmListView {
        AlarmListView { pending: self.pending@, alarming: self.alarming@ }
    }
}

impl AlarmList {
    /// The pending alarms are in ascending order of their ends. A new list
    /// is well formed, and every operation keeps a list so.
    pub open spec fn wf(&self) -> bool {
        sorted_by_end(self@.pending)
    }

    /// A scheduler without alarms.
    pub fn new() -> (list: Self)
        ensures
            list.wf(),
            list@ == (AlarmListView { pending: Seq::empty(), alarming: Seq::empty() }),
            list@.distinct(),
            list@.settled(),
    {
        let list = AlarmList { pending: Vec::new(), alarming: Vec::new() };
        proof {
            assert(list@.pending =~= Seq::empty());
            assert(list@.alarming =~= Seq::empty());
            assert(list@.identities() =~= Seq::empty());
        }
        list
    }

    /// Admits `a` among the pending alarms: behind those that end at the
    /// same moment or earlier, before those that end later.
    pub fn add(&mut self, a: Alarm)
        ensures
            old(self).wf() ==> final(self).wf(),
            final(self)@ == old(self)@.with_added(a),
            0 <= insertion_index(old(self)@.pending, a.end_t) <= old(self)@.pending.len(),
            old(self)@.distinct() && !old(self)@.holds(a.creation_t) ==> final(self)@.distinct(),
            old(self)@.settled() && a.state != AlarmState::Done ==> final(self)@.settled(),
    {
        let n = self.pending.len();
        let mut i: usize = 0;
        while i < n && a.end_t >= self.pending[i].end_t
            invariant
                n == self.pending@.len(),
                self.pending@ == old(self).pending@,
                self.alarming@ == old(self).alarming@,
                i <= n,
                forall|j: int| 0 <= j < i ==> self.pending@[j].end_t@ <= a.end_t@,
            decreases n - i,
        {
            i += 1;
        }
        proof {
            lemma_insertion_index(self.pending@, a.end_t, i as int);
            if old(self).wf() {
                lemma_insert_keeps_sorted(self.pending@, a, i as int);
            }
            lemma_insert_identities(old(self)@, a, i as int);
        }
        self.pending.insert(i, a);
        proof {
            assert(self@.pending =~= old(self)@.with_added(a).pending);
        }
    }

    /// Withdraws from the pending alarms each one that was created at
    /// `creation_t` and whose end has not come. The alarms that have rung
    /// are not searched.
    pub fn remove(&mut self, creation_t: UnixMoment)
        ensures
            old(self).wf() ==> final(self).wf(),
            final(self)@ == old(self)@.without(creation_t),
            old(self)@.distinct() ==> final(self)@.distinct(),
            old(self)@.settled() ==> final(self)@.settled(),
    {
        let ghost before = self.pending@;
        let ghost keep = |alarm: Alarm| !withdrawn(alarm, creation_t);
        let ghost mut seen: int = 0;
        let mut i: usize = 0;
        proof {
            reveal(Seq::filter);
            assert(before.take(0) =~= Seq::<Alarm>::empty());
            assert(self.pending@.take(0) =~= before.take(0).filter(keep));
            assert(self.pending@.skip(0) =~= before.skip(0));
        }
        while i < self.pending.len()
            invariant
                old(self).wf() ==> sorted_by_end(self.pending@),
                self.alarming@ == old(self).alarming@,
                before == old(self).pending@,
                keep == |alarm: Alarm| !withdrawn(alarm, creation_t),
                0 <= seen <= before.len(),
                i <= self.pending@.len(),
                self.pending@.len() - i == before.len() - seen,
                self.pending@.take(i as int) == before.take(seen).filter(keep),
                self.pending@.skip(i as int) == before.skip(seen),
            decreases self.pending@.len() - i,
        {
            let ghost current = self.pending@;
            proof {
                assert(current[i as int] == current.skip(i as int)[0]);
                assert(before[seen] == before.skip(seen)[0]);
                assert(before.take(seen + 1) =~= before.take(seen).push(before[seen]));
                before.take(seen).lemma_filter_push(before[seen], keep);
            }
            let matches = self.pending[i].creation_t == creation_t && self.pending[i].is_running();
            if matches {
                let _gone = self.pending.remove(i);
                proof {
                    assert(self.pending@.take(i as int) =~= current.take(i as int));
                    assert(self.pending@.skip(i as int) =~= current.skip(i as int).skip(1));
                    assert(before.skip(seen + 1) =~= before.skip(seen).skip(1));
                }
            } else {
                proof {
                    assert(current.take(i + 1) =~= current.take(i as int).push(current[i as int]));
                    assert(current.skip(i + 1) =~= current.skip(i as int).skip(1));
                    assert(before.skip(seen + 1) =~= before.skip(seen).skip(1));
                }
                i += 1;
            }
            proof {
                seen = seen + 1;
            }
        }
        proof {
            assert(self.pending@.take(i as int) =~= self.pending@);
            assert(before.take(seen) =~= before);
            lemma_filter_identities(old(self)@, keep);
            if old(self)@.settled() {
                let origin = lemma_filter_origin(before, keep);
                assert forall|k: int| 0 <= k < self.pending@.len() implies self.pending@[k].state
                    != AlarmState::Done by {
                    assert(self.pending@[k] == before[origin[k]]);
                }
            }
        }
    }

    /// Acknowledges every alarm that has rung: none of them is kept.
    pub fn acknowledge(&mut self)
        ensures
            old(self).wf() ==> final(self).wf(),
            final(self)@ == old(self)@.acknowledged(),
            old(self)@.distinct() ==> final(self)@.distinct(),
            old(self)@.settled() ==> final(self)@.settled(),
    {
        proof {
            lemma_acknowledged_identities(old(self)@);
        }
        self.alarming.clear();
        proof {
            assert(self@.alarming =~= Seq::empty());
        }
    }

    /// The alarm that rang first among those not acknowledged.
    pub fn lead_alarming(&self) -> (lead: Option<&Alarm>)
        ensures
            lead.is_some() <==> self@.alarming.len() > 0,
            lead matches Some(alarm) ==> *alarm == self@.alarming[0],
    {
        if self.alarming.len() > 0 {
            Some(&self.alarming[0])
        } else {
            None
        }
    }

    /// The pending alarm that ends first: no pending alarm ends before it.
    pub fn next_alarm(&self) -> (next: Option<&Alarm>)
        ensures
            next.is_some() <==> self@.pending.len() > 0,
            next matches Some(alarm) ==> *alarm == self@.pending[0],
            next matches Some(alarm) ==> self.wf() ==> forall|i: int|
                0 <= i < self@.pending.len() ==> alarm.end_t@ <= (#[trigger] self@.pending[i]).end_t@,
    {
        if self.pending.len() > 0 {
            Some(&self.pending[0])
        } else {
            None
        }
    }

    /// The alarms that have rung, in the order in which they did.
    pub fn alarming(&self) -> (alarms: &Vec<Alarm>)
        ensures
            alarms@ == self@.alarming,
    {
        &self.alarming
    }

    /// The pending alarms, earliest end first.
    pub fn pending(&self) -> (alarms: &Vec<Alarm>)
        ensures
            alarms@ == self@.pending,
            self.wf() ==> sorted_by_end(alarms@),
    {
        &self.pending
    }

    /// The number of pending alarms.
    pub fn pending_len(&self) -> (n: usize)
        ensures
            n == self@.pending.len(),
    {
        self.pending.len()
    }

    /// The number of alarms that have rung.
    pub fn alarming_len(&self) -> (n: usize)
        ensures
            n == self@.alarming.len(),
    {
        self.alarming.len()
    }

    /// Moves the first pending alarm behind the alarms that have rung.
    fn promote_next(&mut self)
        ensures
            old(self).pending@.len() == 0 ==> final(self).pending@ == old(self).pending@
                && final(self).alarming@ == old(self).alarming@,
            old(self).pending@.len() > 0 ==> final(self).pending@ == old(self).pending@.skip(1)
                && final(self).alarming@ == old(self).alarming@.push(old(self).pending@[0]),
    {
        if self.pending.len() > 0 {
            let alarm = self.pending.remove(0);
            proof {
                assert(self.pending@ =~= old(self).pending@.skip(1));
            }
            self.alarming.push(alarm);
        }
    }

    /// Looks at every pending alarm at `now`, in their order. Returns the
    /// events, and how many of them are `Now`.
    fn evaluate_pending(&mut self, now: UnixMoment) -> (r: (Vec<AlarmEvent>, usize))
        ensures
            final(self).pending@ == evaluated_all(old(self).pending@, now),
            final(self).alarming@ == old(self).alarming@,
            r.0@ == sweep_events(old(self).pending@, now),
            r.1 == fired_count(old(self).pending@, now),
            r.1 <= old(self).pending@.len(),
    {
        let ghost before = self.pending@;
        let mut events: Vec<AlarmEvent> = Vec::new();
        let mut promote_counter: usize = 0;
        let n = self.pending.len();
        let mut i: usize = 0;
        while i < n
            invariant
                before == old(self).pending@,
                n == before.len(),
                n == self.pending@.len(),
                self.alarming@ == old(self).alarming@,
                i <= n,
                forall|j: int| 0 <= j < i ==> self.pending@[j] == before[j].evaluated(now),
                forall|j: int| i <= j < n ==> self.pending@[j] == before[j],
                events@ == sweep_events(before.take(i as int), now),
                promote_counter == fired_count(before.take(i as int), now),
                promote_counter <= i,
            decreases n - i,
        {
            proof {
                assert(before.take(i + 1).drop_last() =~= before.take(i as int));
            }
            let event = self.pending[i].update_with_current_time(now);
            match event {
                Some(event) => {
                    match event {
                        AlarmEvent::Now(_) => {
                            promote_counter += 1;
                        },
                        AlarmEvent::Started(_) => {},
                    }
                    events.push(event);
                },
                None => {},
            }
            i += 1;
        }
        proof {
            assert(before.take(n as int) =~= before);
            assert(self.pending@ =~= evaluated_all(before, now));
        }
        (events, promote_counter)
    }

    /// Moves the first `count` pending alarms behind the alarms that have
    /// rung, in their order.
    fn promote(&mut self, count: usize)
        requires
            count <= old(self).pending@.len(),
        ensures
            final(self).pending@ == old(self).pending@.skip(count as int),
            final(self).alarming@ == old(self).alarming@ + old(self).pending@.take(count as int),
    {
        let ghost pending = self.pending@;
        let ghost alarming = self.alarming@;
        let mut left: usize = count;
        proof {
            assert(pending.skip(0) =~= pending);
            assert(alarming + pending.take(0) =~= alarming);
        }
        while left > 0
            invariant
                left <= count <= pending.len(),
                self.pending@ == pending.skip(count - left),
                self.alarming@ == alarming + pending.take(count - left),
            decreases left,
        {
            let ghost moved = count - left;
            self.promote_next();
            left -= 1;
            proof {
                assert(pending.skip(moved).skip(1) =~= pending.skip(moved + 1));
                assert(pending.skip(moved)[0] == pending[moved]);
                assert(pending.take(moved).push(pending[moved]) =~= pending.take(moved + 1));
                assert(self.alarming@ =~= alarming + pending.take(moved + 1));
            }
        }
    }

    /// Looks at every pending alarm at `now`, in their order, and returns
    /// the events. Then as many alarms as gave `Now` leave the front of the
    /// pending alarms and go behind those that have rung.
    pub fn update_with_current_time(&mut self, now: UnixMoment) -> (events: Vec<AlarmEvent>)
        ensures
            old(self).wf() ==> final(self).wf(),
            events@ == sweep_events(old(self)@.pending, now),
            final(self)@ == old(self)@.swept(now),
            fired_count(old(self)@.pending, now) <= old(self)@.pending.len(),
            final(self)@.identities() == old(self)@.identities(),
            sweep_events(final(self)@.pending, now).len() == 0,
            old(self).wf() && old(self)@.settled() ==> final(self)@.settled(),
    {
        let ghost before = self@;
        let (events, fired) = self.evaluate_pending(now);
        self.promote(fired);
        proof {
            assert(self@ == before.swept(now));
            assert(self@.identities() == before.identities()) by {
                lemma_sweep_identities(before, now, fired as int);
            }
            assert(sweep_events(self@.pending, now).len() == 0) by {
                lemma_second_sweep_is_silent(before.pending, now, fired as int);
            }
            if old(self).wf() {
                assert(self.wf()) by {
                    lemma_sweep_keeps_sorted(before.pending, now, fired as int);
                }
            }
            if old(self).wf() && before.settled() {
                assert(self@.settled()) by {
                    lemma_fired_prefix(before.pending, now);
                }
            }
        }
        events
    }
}

/// The pending alarms stay in the order of their ends through a sweep.
proof fn lemma_sweep_keeps_sorted(alarms: Seq<Alarm>, now: UnixMoment, fired: int)
    requires
        sorted_by_end(alarms),
        0 <= fired <= alarms.len(),
    ensures
        sorted_by_end(evaluated_all(alarms, now).skip(fired)),
{
    let left = evaluated_all(alarms, now).skip(fired);
    assert forall|i: int, j: int| 0 <= i <= j < left.len() implies left[i].end_t@
        <= left[j].end_t@ by {
        assert(left[i].end_t == alarms[i + fired].end_t);
        assert(left[j].end_t == alarms[j + fired].end_t);
    }
}

/// Among pending alarms in the order of their ends of which none is done,
/// those that a look at `now` finds at their end stand at the front, and
/// `fired_count` is their number: the alarms that a sweep promotes are the
/// ones that rang.
pub proof fn lemma_fired_prefix(alarms: Seq<Alarm>, now: UnixMoment)
    requires
        sorted_by_end(alarms),
        forall|i: int| 0 <= i < alarms.len() ==> alarms[i].state != AlarmState::Done,
    ensures
        fired_count(alarms, now) <= alarms.len(),
        forall|i: int| 0 <= i < fired_count(alarms, now) ==> (#[trigger] alarms[i]).due(now),
        forall|i: int| fired_count(alarms, now) <= i < alarms.len() ==> !(#[trigger] alarms[i]).due(now),
    decreases alarms.len(),
{
    if alarms.len() > 0 {
        let earlier = alarms.drop_last();
        assert forall|i: int| 0 <= i < earlier.len() implies earlier[i] == alarms[i] by {}
        lemma_fired_prefix(earlier, now);
        if alarms.last().due(now) {
            assert forall|i: int| 0 <= i < earlier.len() implies (#[trigger] earlier[i]).due(now) by {
                assert(alarms[i].end_t@ <= alarms[alarms.len() - 1].end_t@);
            }
            if fired_count(earlier, now) < earlier.len() {
                assert(!earlier[fired_count(earlier, now) as int].due(now));
            }
        }
        assert forall|i: int| 0 <= i < fired_count(alarms, now) implies (#[trigger] alarms[i]).due(
            now,
        ) by {
            if i < earlier.len() {
                assert(earlier[i].due(now));
            }
        }
        assert forall|i: int| fired_count(alarms, now) <= i < alarms.len() implies !(
        #[trigger] alarms[i]).due(now) by {
            if i < earlier.len() {
                assert(!earlier[i].due(now));
            }
        }
    }
}

/// The place that a scan from the front finds is the insertion index.
proof fn lemma_insertion_index(alarms: Seq<Alarm>, end: UnixMoment, k: int)
    requires
        0 <= k <= alarms.len(),
        forall|j: int| 0 <= j < k ==> alarms[j].end_t@ <= end@,
        k < alarms.len() ==> alarms[k].end_t@ > end@,
    ensures
        insertion_index(alarms, end) == k,
    decreases k,
{
    if k > 0 {
        let rest = alarms.drop_first();
        assert forall|j: int| 0 <= j < k - 1 implies rest[j].end_t@ <= end@ by {
            assert(rest[j] == alarms[j + 1]);
        }
        if k - 1 < rest.len() {
            assert(rest[k - 1] == alarms[k]);
        }
        lemma_insertion_index(rest, end, k - 1);
    }
}

/// An alarm that goes in at its insertion index leaves the order intact.
proof fn lemma_insert_keeps_sorted(alarms: Seq<Alarm>, a: Alarm, k: int)
    requires
        sorted_by_end(alarms),
        0 <= k <= alarms.len(),
        forall|j: int| 0 <= j < k ==> alarms[j].end_t@ <= a.end_t@,
        k < alarms.len() ==> alarms[k].end_t@ > a.end_t@,
    ensures
        sorted_by_end(alarms.insert(k, a)),
{
    let after = alarms.insert(k, a);
    assert forall|i: int, j: int| 0 <= i <= j < after.len() implies after[i].end_t@
        <= after[j].end_t@ by {
        if i < k && j > k {
            assert(after[i] == alarms[i]);
            assert(after[j] == alarms[j - 1]);
        } else if i == k && j > k {
            assert(after[j] == alarms[j - 1]);
            assert(alarms[k].end_t@ <= alarms[j - 1].end_t@);
        } else if i > k {
            assert(after[i] == alarms[i - 1]);
            assert(after[j] == alarms[j - 1]);
        }
    }
}

/// Admitting an alarm whose creation moment is new keeps the creation
/// moments distinct.
proof fn lemma_insert_identities(list: AlarmListView, a: Alarm, k: int)
    requires
        0 <= k <= list.pending.len(),
    ensures
        list.distinct() && !list.holds(a.creation_t) ==> (AlarmListView {
            pending: list.pending.insert(k, a),
            alarming: list.alarming,
        }).distinct(),
{
    let after = AlarmListView { pending: list.pending.insert(k, a), alarming: list.alarming };
    if list.distinct() && !list.holds(a.creation_t) {
        let ids = list.identities();
        let at = list.alarming.len() + k;
        assert(after.identities() =~= ids.insert(at, a.creation_t));
        assert forall|i: int, j: int|
            0 <= i < after.identities().len() && 0 <= j < after.identities().len() && i
                != j implies after.identities()[i] != after.identities()[j] by {
            let from = |p: int| if p < at { p } else { p - 1 };
            if i == at {
                assert(ids[from(j)] == after.identities()[j]);
                assert(ids.contains(ids[from(j)]));
            } else if j == at {
                assert(ids[from(i)] == after.identities()[i]);
                assert(ids.contains(ids[from(i)]));
            } else {
                assert(ids[from(i)] == after.identities()[i]);
                assert(ids[from(j)] == after.identities()[j]);
            }
        }
    }
}

/// Indices into a filtered sequence lead back to the sequence in order.
proof fn lemma_filter_origin(alarms: Seq<Alarm>, keep: spec_fn(Alarm) -> bool) -> (origin: Seq<int>)
    ensures
        origin.len() == alarms.filter(keep).len(),
        forall|i: int|
            0 <= i < origin.len() ==> 0 <= #[trigger] origin[i] < alarms.len()
                && alarms.filter(keep)[i] == alarms[origin[i]],
        forall|i: int, j: int| 0 <= i < j < origin.len() ==> origin[i] < origin[j],
    decreases alarms.len(),
{
    reveal(Seq::filter);
    if alarms.len() == 0 {
        Seq::empty()
    } else {
        let earlier = lemma_filter_origin(alarms.drop_last(), keep);
        if keep(alarms.last()) {
            earlier.push(alarms.len() - 1)
        } else {
            earlier
        }
    }
}

/// Taking pending alarms away keeps the creation moments distinct.
proof fn lemma_filter_identities(list: AlarmListView, keep: spec_fn(Alarm) -> bool)
    ensures
        list.distinct() ==> (AlarmListView {
            pending: list.pending.filter(keep),
            alarming: list.alarming,
        }).distinct(),
{
    let after = AlarmListView { pending: list.pending.filter(keep), alarming: list.alarming };
    if list.distinct() {
        let origin = lemma_filter_origin(list.pending, keep);
        let ids = list.identities();
        let rung = list.alarming.len() as int;
        let from = |p: int| if p < rung { p } else { rung + origin[p - rung] };
        assert forall|i: int, j: int|
            0 <= i < after.identities().len() && 0 <= j < after.identities().len() && i
                != j implies after.identities()[i] != after.identities()[j] by {
            assert(after.identities()[i] == ids[from(i)]);
            assert(after.identities()[j] == ids[from(j)]);
            assert(from(i) != from(j));
        }
    }
}

/// Acknowledging keeps the creation moments distinct.
proof fn lemma_acknowledged_identities(list: AlarmListView)
    ensures
        list.distinct() ==> (AlarmListView {
            pending: list.pending,
            alarming: Seq::empty(),
        }).distinct(),
{
    let after = AlarmListView { pending: list.pending, alarming: Seq::empty() };
    if list.distinct() {
        let ids = list.identities();
        let rung = list.alarming.len() as int;
        assert forall|i: int, j: int|
            0 <= i < after.identities().len() && 0 <= j < after.identities().len() && i
                != j implies after.identities()[i] != after.identities()[j] by {
            assert(after.identities()[i] == ids[rung + i]);
            assert(after.identities()[j] == ids[rung + j]);
        }
    }
}

/// A sweep moves alarms between the containers and neither loses nor
/// doubles one: the creation moments stay as they are, in their order.
pub proof fn lemma_sweep_identities(list: AlarmListView, now: UnixMoment, fired: int)
    requires
        0 <= fired <= list.pending.len(),
    ensures
        (AlarmListView {
            pending: evaluated_all(list.pending, now).skip(fired),
            alarming: list.alarming + evaluated_all(list.pending, now).take(fired),
        }).identities() == list.identities(),
{
    let after = AlarmListView {
        pending: evaluated_all(list.pending, now).skip(fired),
        alarming: list.alarming + evaluated_all(list.pending, now).take(fired),
    };
    assert(after.identities() =~= list.identities());
}

/// After a sweep at `now`, a look at `now` finds nothing to report in what
/// is left pending: a second sweep at the same moment gives no events.
pub proof fn lemma_second_sweep_is_silent(alarms: Seq<Alarm>, now: UnixMoment, fired: int)
    requires
        0 <= fired <= alarms.len(),
    ensures
        sweep_events(evaluated_all(alarms, now).skip(fired), now).len() == 0,
        fired_count(evaluated_all(alarms, now).skip(fired), now) == 0,
        evaluated_all(evaluated_all(alarms, now).skip(fired), now) == evaluated_all(
            alarms,
            now,
        ).skip(fired),
{
    let left = evaluated_all(alarms, now).skip(fired);
    assert forall|i: int| 0 <= i < left.len() implies (#[trigger] left[i]).event_at(now).is_none()
        && left[i].evaluated(now) == left[i] by {
        alarms[i + fired].lemma_second_look_is_silent(now);
    }
    lemma_silent_sweep(left, now);
    assert(evaluated_all(left, now) =~= left);
}

/// A sweep at `now` of a list that was swept at `now` gives no events and
/// changes nothing.
pub proof fn lemma_sweep_is_idempotent(list: AlarmListView, now: UnixMoment)
    ensures
        sweep_events(list.swept(now).pending, now).len() == 0,
        list.swept(now).swept(now) == list.swept(now),
{
    lemma_fired_count_bound(list.pending, now);
    let fired = fired_count(list.pending, now) as int;
    lemma_second_sweep_is_silent(list.pending, now, fired);
    let once = list.swept(now);
    assert(once.swept(now).pending =~= once.pending);
    assert(once.swept(now).alarming =~= once.alarming);
}

/// Where no creation moment occurs twice, an alarm that is held is in
/// exactly one of the two containers.
pub proof fn lemma_exactly_one_container(list: AlarmListView, creation_t: UnixMoment)
    requires
        list.distinct(),
        list.holds(creation_t),
    ensures
        list.pending.map_values(|alarm: Alarm| alarm.creation_t).contains(creation_t)
            != list.alarming.map_values(|alarm: Alarm| alarm.creation_t).contains(creation_t),
{
    let ids = list.identities();
    let pending = list.pending.map_values(|alarm: Alarm| alarm.creation_t);
    let alarming = list.alarming.map_values(|alarm: Alarm| alarm.creation_t);
    assert(ids =~= alarming + pending);
    let at = choose|i: int| 0 <= i < ids.len() && ids[i] == creation_t;
    if at < alarming.len() {
        assert(alarming[at] == creation_t);
        if pending.contains(creation_t) {
            let other = choose|j: int| 0 <= j < pending.len() && pending[j] == creation_t;
            assert(ids[alarming.len() + other] == creation_t);
        }
    } else {
        assert(pending[at - alarming.len()] == creation_t);
        if alarming.contains(creation_t) {
            let other = choose|j: int| 0 <= j < alarming.len() && alarming[j] == creation_t;
            assert(ids[other] == creation_t);
        }
    }
}

/// No more alarms ring than are pending.
pub proof fn lemma_fired_count_bound(alarms: Seq<Alarm>, now: UnixMoment)
    ensures
        fired_count(alarms, now) <= alarms.len(),
    decreases alarms.len(),
{
    if alarms.len() > 0 {
        lemma_fired_count_bound(alarms.drop_last(), now);
    }
}

/// Alarms of which none gives an event give no events, and none rings.
proof fn lemma_silent_sweep(alarms: Seq<Alarm>, now: UnixMoment)
    requires
        forall|i: int| 0 <= i < alarms.len() ==> (#[trigger] alarms[i]).event_at(now).is_none(),
    ensures
        sweep_events(alarms, now).len() == 0,
        fired_count(alarms, now) == 0,
    decreases alarms.len(),
{
    if alarms.len() > 0 {
        assert forall|i: int| 0 <= i < alarms.drop_last().len() implies (
        #[trigger] alarms.drop_last()[i]).event_at(now).is_none() by {
            assert(alarms.drop_last()[i] == alarms[i]);
        }
        lemma_silent_sweep(alarms.drop_last(), now);
    }
}

} // verus!
