//! The decisions of the loop that drives the scheduler.
//!
//! The loop itself waits on timers and channels and is not part of this
//! library. Each round it hands the scheduler and the current time to
//! `begin_iteration`, arms its timers as the plan says, waits for an event,
//! passes it through `drain_step`, and hands what ends the round to
//! `dispatch`.

use vstd::prelude::*;
use std::time::Duration;
use tz::{DateTime, TimeZoneRef};
use crate::alarm::{Alarm, AlarmEvent};
use crate::command::{AlarmSpecError, AppCommand};
use crate::error::TimeError;
use crate::moment::UnixMoment;
use crate::scheduler::{
    fired_count, lemma_fired_prefix, sorted_by_end, sweep_events, AlarmList, AlarmListView,
};
use crate::span::{duration_nanos, duration_secs, duration_subsec_nanos};
use crate::zone::civil_time_in;

verus! {

/// The nanoseconds of one hour: a deadline no further away than this keeps
/// the tick running.
pub const ONE_HOUR_NANOS: u64 = 3_600_000_000_000;

/// What the loop tells its listeners.
#[derive(Debug)]
pub enum AppEvent {
    /// This alarm's end has come.
    Ring(Alarm),
    /// A minute has begun, at this civil time.
    Minute(DateTime),
    /// A second has passed while an alarm is near or ringing.
    Tick,
    /// The pending alarms have changed.
    AlarmListUpdate,
    /// The alarms that rang were acknowledged.
    Ack,
    /// The display is to show something else.
    SwitchDisplay,
    /// Someone new is listening.
    NewListener,
}

/// What one of the loop's sources delivered.
#[derive(Debug)]
pub enum MainLoopEvent {
    /// The minute timer fired.
    Minute,
    /// The tick timer fired.
    Tick,
    /// The timer set to the next alarm's end fired.
    AlarmTimer,
    /// A command arrived.
    Command(AppCommand),
    /// The wake latch was signalled.
    NewListener,
}

/// What the loop does before it waits.
#[derive(Debug)]
pub struct IterationPlan {
    /// One `Ring` for each alarm that rang in this round's sweep, in the
    /// order in which they rang.
    pub rings: Vec<AppEvent>,
    /// The time to which the alarm timer is set, or `None` for a timer that
    /// never fires.
    pub alarm_timer: Option<Duration>,
    /// Whether the tick timer runs.
    pub tick: bool,
}

/// What the loop does with an event while it waits.
#[derive(Debug)]
pub enum Polled {
    /// Tell the listeners and go on waiting.
    Broadcast(AppEvent),
    /// Stop waiting: this event ends the round.
    Leave(MainLoopEvent),
}

impl Clone for AppEvent {
    fn clone(&self) -> (copy: Self)
        ensures
            copy == *self,
    {
        match self {
            AppEvent::Ring(alarm) => AppEvent::Ring(alarm.clone()),
            AppEvent::Minute(civil) => AppEvent::Minute(civil.clone()),
            AppEvent::Tick => AppEvent::Tick,
            AppEvent::AlarmListUpdate => AppEvent::AlarmListUpdate,
            AppEvent::Ack => AppEvent::Ack,
            AppEvent::SwitchDisplay => AppEvent::SwitchDisplay,
            AppEvent::NewListener => AppEvent::NewListener,
        }
    }
}

impl Clone for MainLoopEvent {
    fn clone(&self) -> (copy: Self)
        ensures
            copy == *self,
    {
        match self {
            MainLoopEvent::Minute => MainLoopEvent::Minute,
            MainLoopEvent::Tick => MainLoopEvent::Tick,
            MainLoopEvent::AlarmTimer => MainLoopEvent::AlarmTimer,
            MainLoopEvent::Command(command) => MainLoopEvent::Command(command.clone()),
            MainLoopEvent::NewListener => MainLoopEvent::NewListener,
        }
    }
}

/// One `Ring` for each `Now` among the events, in their order.
pub open spec fn rings_of(events: Seq<AlarmEvent>) -> Seq<AppEvent>
    decreases events.len(),
{
    if events.len() == 0 {
        Seq::empty()
    } else {
        let earlier = rings_of(events.drop_last());
        match events.last() {
            AlarmEvent::Now(alarm) => earlier.push(AppEvent::Ring(alarm)),
            AlarmEvent::Started(_) => earlier,
        }
    }
}

/// The nanoseconds from `now` to the end of the first pending alarm, or
/// `None` where nothing is pending or that end lies before `now`.
pub open spec fn deadline(list: AlarmListView, now: UnixMoment) -> Option<int> {
    if list.pending.len() > 0 && now@ <= list.pending[0].end_t@ {
        Some(list.pending[0].end_t@ - now@)
    } else {
        None
    }
}

/// Whether the tick timer runs: the deadline is no more than an hour away,
/// or an alarm has rung and is not acknowledged.
pub open spec fn tick_enabled(list: AlarmListView, now: UnixMoment) -> bool {
    ||| deadline(list, now) matches Some(nanos) && nanos <= ONE_HOUR_NANOS
    ||| list.alarming.len() > 0
}

/// What a command makes of the scheduler's contents at `now`, and what the
/// listeners are told. A request that is turned down changes nothing and
/// tells nothing.
pub open spec fn command_outcome(
    list: AlarmListView,
    command: AppCommand,
    now: UnixMoment,
    soundfile_exists: bool,
) -> (AlarmListView, Option<AppEvent>) {
    match command {
        AppCommand::Add(spec) => match spec.outcome(now, soundfile_exists) {
            Ok(alarm) => (list.with_added(alarm), Some(AppEvent::AlarmListUpdate)),
            Err(_) => (list, None),
        },
        AppCommand::Remove(creation_t) => (list.without(creation_t), Some(AppEvent::AlarmListUpdate)),
        AppCommand::Acknowledge => (list.acknowledged(), Some(AppEvent::Ack)),
        AppCommand::SwitchDisplay => (list, Some(AppEvent::SwitchDisplay)),
    }
}

/// What the event that ends a round makes of the scheduler's contents, and
/// what the listeners are told. `civil` is the civil time at `now`, which
/// only the minute event needs: without it that event fails.
pub open spec fn dispatch_outcome(
    list: AlarmListView,
    event: MainLoopEvent,
    civil: Option<DateTime>,
    now: UnixMoment,
    soundfile_exists: bool,
) -> (AlarmListView, Result<Option<AppEvent>, TimeError>) {
    match event {
        MainLoopEvent::Minute => match civil {
            Some(civil) => (list, Ok(Some(AppEvent::Minute(civil)))),
            None => (list, Err(TimeError::TzError)),
        },
        MainLoopEvent::Tick => (list, Ok(Some(AppEvent::Tick))),
        MainLoopEvent::AlarmTimer => (list, Ok(None)),
        MainLoopEvent::Command(command) => {
            let (after, told) = command_outcome(list, command, now, soundfile_exists);
            (after, Ok(told))
        },
        MainLoopEvent::NewListener => (list, Ok(Some(AppEvent::NewListener))),
    }
}

/// After a sweep at `now` of a list in order, whose pending alarms are
/// still to ring, every pending alarm ends after `now`: while an alarm is
/// pending there is a deadline, and the alarm timer is set.
pub proof fn lemma_deadline_after_sweep(list: AlarmListView, now: UnixMoment)
    requires
        sorted_by_end(list.pending),
        list.settled(),
    ensures
        forall|i: int|
            0 <= i < list.swept(now).pending.len() ==> (#[trigger] list.swept(now).pending[i]).end_t@
                - now@ > 0,
        deadline(list.swept(now), now).is_some() <==> list.swept(now).pending.len() > 0,
{
    lemma_fired_prefix(list.pending, now);
    let fired = fired_count(list.pending, now) as int;
    let left = list.swept(now).pending;
    assert forall|i: int| 0 <= i < left.len() implies (#[trigger] left[i]).end_t@ - now@ > 0 by {
        assert(left[i].end_t == list.pending[i + fired].end_t);
        assert(!list.pending[i + fired].due(now));
    }
    if left.len() > 0 {
        assert(left[0].end_t@ - now@ > 0);
    }
}

/// The events to broadcast for what a sweep returned.
fn collect_rings(events: Vec<AlarmEvent>) -> (rings: Vec<AppEvent>)
    ensures
        rings@ == rings_of(events@),
{
    let mut rings: Vec<AppEvent> = Vec::new();
    let n = events.len();
    let mut i: usize = 0;
    while i < n
        invariant
            n == events@.len(),
            i <= n,
            rings@ == rings_of(events@.take(i as int)),
        decreases n - i,
    {
        proof {
            assert(events@.take(i + 1).drop_last() =~= events@.take(i as int));
        }
        match &events[i] {
            AlarmEvent::Now(alarm) => {
                rings.push(AppEvent::Ring(alarm.clone()));
            },
            AlarmEvent::Started(_) => {},
        }
        i += 1;
    }
    proof {
        assert(events@.take(n as int) =~= events@);
    }
    rings
}

/// Opens a round of the loop at `now`: sweeps the scheduler and says which
/// alarms rang, to what the alarm timer is set, and whether the tick runs.
pub fn begin_iteration(list: &mut AlarmList, now: UnixMoment) -> (plan: IterationPlan)
    ensures
        final(list)@ == old(list)@.swept(now),
        old(list).wf() ==> final(list).wf(),
        plan.rings@ == rings_of(sweep_events(old(list)@.pending, now)),
        plan.alarm_timer.is_some() <==> deadline(final(list)@, now).is_some(),
        plan.alarm_timer matches Some(wait) ==> {
            &&& duration_nanos(wait) == deadline(final(list)@, now).unwrap()
            &&& duration_secs(wait) == deadline(final(list)@, now).unwrap() / 1_000_000_000
            &&& duration_subsec_nanos(wait) == deadline(final(list)@, now).unwrap() % 1_000_000_000
        },
        plan.tick == tick_enabled(final(list)@, now),
        old(list).wf() && old(list)@.settled() ==> final(list)@.settled(),
        old(list).wf() && old(list)@.settled() ==> (plan.alarm_timer.is_some()
            <==> final(list)@.pending.len() > 0),
{
    let events = list.update_with_current_time(now);
    proof {
        if old(list).wf() && old(list)@.settled() {
            lemma_deadline_after_sweep(old(list)@, now);
        }
    }
    let rings = collect_rings(events);
    let alarm_timer = match list.next_alarm() {
        Some(alarm) => now.duration_until(alarm.end_t),
        None => None,
    };
    let near = match &alarm_timer {
        Some(wait) => within_an_hour(wait),
        None => false,
    };
    let tick = near || list.lead_alarming().is_some();
    IterationPlan { rings, alarm_timer, tick }
}

/// Whether the duration is an hour or less.
fn within_an_hour(wait: &Duration) -> (near: bool)
    ensures
        near == (duration_nanos(*wait) <= ONE_HOUR_NANOS),
{
    let secs = wait.as_secs();
    let nanos = wait.subsec_nanos();
    secs < 3600 || (secs == 3600 && nanos == 0)
}

/// What the loop does with an event while it waits: a tick is passed on to
/// the listeners at once and never ends the round, every other event does.
pub fn drain_step(event: MainLoopEvent) -> (step: Polled)
    ensures
        event is Tick ==> step == Polled::Broadcast(AppEvent::Tick),
        !(event is Tick) ==> step == Polled::Leave(event),
{
    match event {
        MainLoopEvent::Tick => Polled::Broadcast(AppEvent::Tick),
        other => Polled::Leave(other),
    }
}

/// Carries out a command at `now`. `soundfile_exists` says whether the
/// sound file that an `Add` names is there.
pub fn handle_command(
    list: &mut AlarmList,
    command: AppCommand,
    now: UnixMoment,
    soundfile_exists: bool,
) -> (told: Option<AppEvent>)
    ensures
        (final(list)@, told) == command_outcome(old(list)@, command, now, soundfile_exists),
        old(list).wf() ==> final(list).wf(),
        old(list)@.settled() ==> final(list)@.settled(),
{
    match command {
        AppCommand::Add(spec) => match Alarm::from_spec(spec, now, soundfile_exists) {
            Ok(alarm) => {
                list.add(alarm);
                Some(AppEvent::AlarmListUpdate)
            },
            Err(_) => None,
        },
        AppCommand::Remove(creation_t) => {
            list.remove(creation_t);
            Some(AppEvent::AlarmListUpdate)
        },
        AppCommand::Acknowledge => {
            list.acknowledge();
            Some(AppEvent::Ack)
        },
        AppCommand::SwitchDisplay => Some(AppEvent::SwitchDisplay),
    }
}

/// Handles the event that ended a round. `civil` is the civil time at
/// `now`, which the minute event passes on.
pub fn dispatch(
    list: &mut AlarmList,
    event: MainLoopEvent,
    civil: Option<DateTime>,
    now: UnixMoment,
    soundfile_exists: bool,
) -> (told: Result<Option<AppEvent>, TimeError>)
    ensures
        (final(list)@, told) == dispatch_outcome(old(list)@, event, civil, now, soundfile_exists),
        old(list).wf() ==> final(list).wf(),
        old(list)@.settled() ==> final(list)@.settled(),
{
    match event {
        MainLoopEvent::Minute => match civil {
            Some(civil) => Ok(Some(AppEvent::Minute(civil))),
            None => Err(TimeError::TzError),
        },
        MainLoopEvent::Tick => Ok(Some(AppEvent::Tick)),
        MainLoopEvent::AlarmTimer => Ok(None),
        MainLoopEvent::Command(command) => Ok(handle_command(list, command, now, soundfile_exists)),
        MainLoopEvent::NewListener => Ok(Some(AppEvent::NewListener)),
    }
}

/// Handles the event that ended a round, in the time zone `zone`: for the
/// minute event the civil time at `now` is looked up there, and the event
/// fails with `TzError` where the zone has none.
pub fn dispatch_in_zone(
    list: &mut AlarmList,
    event: MainLoopEvent,
    now: UnixMoment,
    soundfile_exists: bool,
    zone: TimeZoneRef<'_>,
) -> (told: Result<Option<AppEvent>, TimeError>)
    ensures
        (final(list)@, told) == dispatch_outcome(
            old(list)@,
            event,
            if event is Minute {
                civil_time_in(now.whole_seconds() as i64, 0, zone)
            } else {
                None
            },
            now,
            soundfile_exists,
        ),
        old(list).wf() ==> final(list).wf(),
        old(list)@.settled() ==> final(list)@.settled(),
{
    let civil = match &event {
        MainLoopEvent::Minute => now.as_datetime(zone),
        _ => None,
    };
    dispatch(list, event, civil, now, soundfile_exists)
}

} // verus!
