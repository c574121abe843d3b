//! What a status bar shows of the clock and the alarms.
//!
//! The display follows the events of the loop. It shows the clock, the
//! next pending alarm or the alarm that rings, and a tooltip with all
//! alarms. Writing the result out is the caller's part.

use vstd::prelude::*;
use vstd::string::StringExecFns;
use tz::DateTime;
use crate::alarm::Alarm;
use crate::event_loop::AppEvent;
use crate::moment::{clamped_seconds, seconds_between, UnixMoment};
use crate::scheduler::{AlarmList, AlarmListView};
use crate::text::{push_right_aligned, right_aligned};
use crate::tz_display::{datetime_text, humanize_datetime, humanize_datetime_full};
use crate::util::{humanize_seconds, humanized};
use crate::zone::{
    datetime_hour, datetime_local_time_type, datetime_minute, datetime_month, datetime_month_day,
    datetime_week_day, zone_designation,
};

verus! {

/// What the bar's text shows.
#[derive(Debug, Clone, Copy, PartialEq, Eq, Structural)]
pub enum WaybarDisplayMode {
    /// The time of day.
    Clock,
    /// The pending alarm that ends first.
    NextPending,
    /// The alarm that rang first and is not acknowledged.
    LeadAlarm,
}

/// What is written to the bar.
#[derive(Debug)]
pub struct WaybarUpdate {
    /// The text on the bar.
    pub text: String,
    /// The style class: `ringing` while an alarm rings, else empty.
    pub class: String,
    /// The tooltip: all alarms and the full time.
    pub tooltip: String,
    /// The time of day, as shown on the bar.
    pub time_display: String,
    /// The time of day with the zone, as shown in the tooltip.
    pub time_display_full: String,
    /// The moment of the last update of the time.
    pub now: UnixMoment,
}

/// The display: what is written to the bar, and how it came there.
#[derive(Debug)]
pub struct WaybarDisplay {
    /// What is written to the bar.
    pub update: WaybarUpdate,
    /// What the bar's text shows.
    pub mode: WaybarDisplayMode,
    /// Whether a tick turns the bar to the next pending alarm.
    pub auto_switch: bool,
}

/// The tooltip's rule.
pub open spec fn hrule() -> Seq<char> {
    "--------------------"@
}

/// The time of day as shown on the bar, or `unknown` without a civil time.
pub open spec fn time_text(civil: Option<DateTime>) -> Seq<char> {
    match civil {
        Some(dt) => datetime_text(
            datetime_week_day(dt),
            datetime_month_day(dt),
            datetime_month(dt),
            datetime_hour(dt),
            datetime_minute(dt),
        ),
        None => "unknown"@,
    }
}

/// The time of day with the zone's designation, or `unknown` without a
/// civil time.
pub open spec fn full_time_text(civil: Option<DateTime>) -> Seq<char> {
    match civil {
        Some(dt) => time_text(civil) + " "@ + zone_designation(datetime_local_time_type(dt)),
        None => "unknown"@,
    }
}

/// A tooltip section's heading: the heading with a colon, and the rule
/// below it.
pub open spec fn section_text(heading: Seq<char>) -> Seq<char> {
    heading + ":\n"@ + hrule() + "\n"@
}

/// A tooltip line for an alarm: the name, and the time from `now` to the
/// end in words.
pub open spec fn alarm_line(alarm: Alarm, now: UnixMoment) -> Seq<char> {
    alarm.name@ + " "@ + humanized(clamped_seconds(seconds_between(now, alarm.end_t))) + "\n"@
}

/// The tooltip lines of the alarms, in their order.
pub open spec fn alarm_lines(alarms: Seq<Alarm>, now: UnixMoment) -> Seq<char>
    decreases alarms.len(),
{
    if alarms.len() == 0 {
        Seq::empty()
    } else {
        alarm_lines(alarms.drop_last(), now) + alarm_line(alarms.last(), now)
    }
}

/// The tooltip: the pending alarms, the alarms that have rung, and the
/// full time below a rule.
pub open spec fn tooltip_text(list: AlarmListView, now: UnixMoment, full_time: Seq<char>) -> Seq<
    char,
> {
    section_text("Pending Alarms"@) + alarm_lines(list.pending, now) + section_text(
        "Current Alarms"@,
    ) + alarm_lines(list.alarming, now) + hrule() + "\n"@ + full_time + "\n"@
}

/// The bar's text for the clock: the number of pending alarms, and the
/// time.
pub open spec fn clock_text(pending_len: nat, time: Seq<char>) -> Seq<char> {
    right_aligned(pending_len) + "\u{23f2}  "@ + time
}

/// The bar's text for an alarm: the number of pending alarms, the alarm's
/// name and the time to its end in words, or `NO ALARM 0s` without one.
pub open spec fn alarm_text(pending_len: nat, alarm: Option<Alarm>, now: UnixMoment) -> Seq<char> {
    match alarm {
        Some(a) => right_aligned(pending_len) + "\u{23f2}  "@ + a.name@ + " "@ + humanized(
            clamped_seconds(seconds_between(now, a.end_t)),
        ),
        None => right_aligned(pending_len) + "\u{23f2}  "@ + "NO ALARM"@ + " "@ + humanized(0),
    }
}

/// The bar's text in a mode.
pub open spec fn display_text(
    mode: WaybarDisplayMode,
    list: AlarmListView,
    now: UnixMoment,
    time: Seq<char>,
) -> Seq<char> {
    match mode {
        WaybarDisplayMode::Clock => clock_text(list.pending.len(), time),
        WaybarDisplayMode::NextPending => alarm_text(
            list.pending.len(),
            if list.pending.len() > 0 {
                Some(list.pending[0])
            } else {
                None
            },
            now,
        ),
        WaybarDisplayMode::LeadAlarm => alarm_text(
            list.pending.len(),
            if list.alarming.len() > 0 {
                Some(list.alarming[0])
            } else {
                None
            },
            now,
        ),
    }
}

/// The mode that an event leads to. `has_pending` says whether an alarm is
/// pending.
pub open spec fn next_mode(
    mode: WaybarDisplayMode,
    auto_switch: bool,
    event: AppEvent,
    has_pending: bool,
) -> WaybarDisplayMode {
    match event {
        AppEvent::Ring(_) => WaybarDisplayMode::LeadAlarm,
        AppEvent::Tick => if auto_switch {
            WaybarDisplayMode::NextPending
        } else {
            mode
        },
        AppEvent::Ack => WaybarDisplayMode::Clock,
        AppEvent::SwitchDisplay => match mode {
            WaybarDisplayMode::Clock => if has_pending {
                WaybarDisplayMode::NextPending
            } else {
                WaybarDisplayMode::Clock
            },
            WaybarDisplayMode::NextPending => WaybarDisplayMode::Clock,
            WaybarDisplayMode::LeadAlarm => WaybarDisplayMode::LeadAlarm,
        },
        _ => mode,
    }
}

/// Whether ticks turn the bar to the next pending alarm after an event: a
/// ring and a switch by hand end that, an acknowledgement starts it again.
pub open spec fn next_auto_switch(auto_switch: bool, event: AppEvent) -> bool {
    match event {
        AppEvent::Ring(_) => false,
        AppEvent::Ack => true,
        AppEvent::SwitchDisplay => false,
        _ => auto_switch,
    }
}

/// Whether an event brings the time up to date.
pub open spec fn refreshes_time(event: AppEvent) -> bool {
    event is Ring || event is Minute || event is Tick
}

/// Whether an event writes the bar's text anew.
pub open spec fn redraws_text(event: AppEvent) -> bool {
    !(event is AlarmListUpdate || event is NewListener)
}

/// Whether an event writes the tooltip anew.
pub open spec fn redraws_tooltip(event: AppEvent) -> bool {
    !(event is NewListener)
}

/// Writes a section's heading behind the text.
pub fn tooltip_section(x: &mut String, heading: &str)
    ensures
        final(x)@ == old(x)@ + section_text(heading@),
{
    x.append(heading);
    x.append(":\n");
    x.append("--------------------");
    x.append("\n");
    proof {
        assert(x@ =~= old(x)@ + section_text(heading@));
    }
}

/// Writes a line for each alarm behind the text.
fn push_alarm_lines(x: &mut String, alarms: &Vec<Alarm>, now: UnixMoment)
    ensures
        final(x)@ == old(x)@ + alarm_lines(alarms@, now),
{
    let n = alarms.len();
    let mut i: usize = 0;
    proof {
        assert(x@ =~= old(x)@ + alarm_lines(alarms@.take(0), now));
    }
    while i < n
        invariant
            n == alarms@.len(),
            i <= n,
            x@ == old(x)@ + alarm_lines(alarms@.take(i as int), now),
        decreases n - i,
    {
        proof {
            assert(alarms@.take(i + 1).drop_last() =~= alarms@.take(i as int));
        }
        let ghost before = x@;
        let s = now.clamped_seconds_until(alarms[i].end_t);
        x.append(alarms[i].name.as_str());
        x.append(" ");
        let words = humanize_seconds(s);
        x.append(words.as_str());
        x.append("\n");
        proof {
            assert(x@ =~= before + alarm_line(alarms@[i as int], now));
            assert(x@ =~= old(x)@ + alarm_lines(alarms@.take(i + 1), now));
        }
        i += 1;
    }
    proof {
        assert(alarms@.take(n as int) =~= alarms@);
    }
}

/// Writes the tooltip anew, for the time of the last update.
pub fn update_tooltip(alarm_list: &AlarmList, update: &mut WaybarUpdate)
    ensures
        final(update).tooltip@ == tooltip_text(
            alarm_list@,
            old(update).now,
            old(update).time_display_full@,
        ),
        final(update).text == old(update).text,
        final(update).class == old(update).class,
        final(update).time_display == old(update).time_display,
        final(update).time_display_full == old(update).time_display_full,
        final(update).now == old(update).now,
{
    let mut tooltip = String::new();
    tooltip_section(&mut tooltip, "Pending Alarms");
    push_alarm_lines(&mut tooltip, alarm_list.pending(), update.now);
    tooltip_section(&mut tooltip, "Current Alarms");
    push_alarm_lines(&mut tooltip, alarm_list.alarming(), update.now);
    tooltip.append("--------------------");
    tooltip.append("\n");
    tooltip.append(update.time_display_full.as_str());
    tooltip.append("\n");
    proof {
        assert(tooltip@ =~= tooltip_text(alarm_list@, update.now, update.time_display_full@));
    }
    update.tooltip = tooltip;
}

/// Writes the bar's text for the clock.
pub fn update_text_clock(update: &mut WaybarUpdate, pending_len: usize)
    ensures
        final(update).text@ == clock_text(pending_len as nat, old(update).time_display@),
        final(update).class == old(update).class,
        final(update).tooltip == old(update).tooltip,
        final(update).time_display == old(update).time_display,
        final(update).time_display_full == old(update).time_display_full,
        final(update).now == old(update).now,
{
    let mut text = String::new();
    push_right_aligned(&mut text, pending_len as u64);
    text.append("\u{23f2}  ");
    text.append(update.time_display.as_str());
    proof {
        assert(text@ =~= clock_text(pending_len as nat, update.time_display@));
    }
    update.text = text;
}

/// Writes the bar's text for an alarm.
pub fn update_text_alarm(
    update: &mut WaybarUpdate,
    pending_len: usize,
    alarm: Option<&Alarm>,
    now: UnixMoment,
)
    ensures
        final(update).text@ == alarm_text(
            pending_len as nat,
            match alarm {
                Some(a) => Some(*a),
                None => None,
            },
            now,
        ),
        final(update).class == old(update).class,
        final(update).tooltip == old(update).tooltip,
        final(update).time_display == old(update).time_display,
        final(update).time_display_full == old(update).time_display_full,
        final(update).now == old(update).now,
{
    let mut text = String::new();
    push_right_aligned(&mut text, pending_len as u64);
    text.append("\u{23f2}  ");
    match alarm {
        Some(a) => {
            let s = now.clamped_seconds_until(a.end_t);
            text.append(a.name.as_str());
            text.append(" ");
            let words = humanize_seconds(s);
            text.append(words.as_str());
            proof {
                assert(text@ =~= alarm_text(pending_len as nat, Some(*a), now));
            }
        },
        None => {
            text.append("NO ALARM");
            text.append(" ");
            let words = humanize_seconds(0);
            text.append(words.as_str());
            proof {
                assert(text@ =~= alarm_text(pending_len as nat, None, now));
            }
        },
    }
    update.text = text;
}

/// Writes the bar's text in a mode, and the tooltip, anew.
pub fn update_display(
    update: &mut WaybarUpdate,
    alarm_list: &AlarmList,
    display_mode: WaybarDisplayMode,
)
    ensures
        final(update).text@ == display_text(
            display_mode,
            alarm_list@,
            old(update).now,
            old(update).time_display@,
        ),
        final(update).tooltip@ == tooltip_text(
            alarm_list@,
            old(update).now,
            old(update).time_display_full@,
        ),
        final(update).class == old(update).class,
        final(update).time_display == old(update).time_display,
        final(update).time_display_full == old(update).time_display_full,
        final(update).now == old(update).now,
{
    let len = alarm_list.pending_len();
    let now = update.now;
    match display_mode {
        WaybarDisplayMode::Clock => update_text_clock(update, len),
        WaybarDisplayMode::NextPending => update_text_alarm(update, len, alarm_list.next_alarm(), now),
        WaybarDisplayMode::LeadAlarm => update_text_alarm(
            update,
            len,
            alarm_list.lead_alarming(),
            now,
        ),
    }
    update_tooltip(alarm_list, update);
}

impl WaybarUpdate {
    /// An empty update, with the time of the last update at `now`.
    pub fn new(now: UnixMoment) -> (update: Self)
        ensures
            update.text@.len() == 0,
            update.class@.len() == 0,
            update.tooltip@.len() == 0,
            update.time_display@.len() == 0,
            update.time_display_full@.len() == 0,
            update.now == now,
    {
        WaybarUpdate {
            text: String::new(),
            class: String::new(),
            tooltip: String::new(),
            time_display: String::new(),
            time_display_full: String::new(),
            now,
        }
    }

    /// Brings the time up to date: `now`, and its civil time as text, or
    /// `unknown` where there is none.
    pub fn update_time(&mut self, now: UnixMoment, civil: Option<DateTime>)
        ensures
            final(self).now == now,
            final(self).time_display@ == time_text(civil),
            final(self).time_display_full@ == full_time_text(civil),
            final(self).text == old(self).text,
            final(self).class == old(self).class,
            final(self).tooltip == old(self).tooltip,
    {
        self.now = now;
        match civil {
            Some(dt) => {
                self.time_display = humanize_datetime(dt);
                self.time_display_full = humanize_datetime_full(dt);
            },
            None => {
                self.time_display = String::from_str("unknown");
                self.time_display_full = String::from_str("unknown");
            },
        }
    }
}

impl WaybarDisplay {
    /// The display at its start: the clock at `now`, drawn for the alarms
    /// of `alarm_list`.
    pub fn new(alarm_list: &AlarmList, now: UnixMoment, civil: Option<DateTime>) -> (display: Self)
        ensures
            display.mode == WaybarDisplayMode::Clock,
            display.auto_switch,
            display.update.class@.len() == 0,
            display.update.now == now,
            display.update.time_display@ == time_text(civil),
            display.update.time_display_full@ == full_time_text(civil),
            display.update.text@ == display_text(
                WaybarDisplayMode::Clock,
                alarm_list@,
                now,
                time_text(civil),
            ),
            display.update.tooltip@ == tooltip_text(alarm_list@, now, full_time_text(civil)),
    {
        let mut update = WaybarUpdate::new(now);
        update.update_time(now, civil);
        update_display(&mut update, alarm_list, WaybarDisplayMode::Clock);
        WaybarDisplay { update, mode: WaybarDisplayMode::Clock, auto_switch: true }
    }

    /// Follows an event of the loop. A ring turns the bar to the alarm that
    /// rings, an acknowledgement back to the clock, a switch by hand from
    /// the clock to the next pending alarm, if there is one, and back. A
    /// tick turns the bar to the next pending alarm unless a ring or a
    /// switch by hand came since the last acknowledgement. Ring, minute and
    /// tick bring the time up to date, to `now` and `civil`.
    pub fn on_event(
        &mut self,
        event: &AppEvent,
        alarm_list: &AlarmList,
        now: UnixMoment,
        civil: Option<DateTime>,
    )
        ensures
            final(self).mode == next_mode(
                old(self).mode,
                old(self).auto_switch,
                *event,
                alarm_list@.pending.len() > 0,
            ),
            final(self).auto_switch == next_auto_switch(old(self).auto_switch, *event),
            final(self).update.class@ == (match *event {
                AppEvent::Ring(_) => "ringing"@,
                AppEvent::Ack => Seq::empty(),
                _ => old(self).update.class@,
            }),
            refreshes_time(*event) ==> {
                &&& final(self).update.now == now
                &&& final(self).update.time_display@ == time_text(civil)
                &&& final(self).update.time_display_full@ == full_time_text(civil)
            },
            !refreshes_time(*event) ==> {
                &&& final(self).update.now == old(self).update.now
                &&& final(self).update.time_display == old(self).update.time_display
                &&& final(self).update.time_display_full == old(self).update.time_display_full
            },
            redraws_text(*event) ==> final(self).update.text@ == display_text(
                final(self).mode,
                alarm_list@,
                final(self).update.now,
                final(self).update.time_display@,
            ),
            !redraws_text(*event) ==> final(self).update.text == old(self).update.text,
            redraws_tooltip(*event) ==> final(self).update.tooltip@ == tooltip_text(
                alarm_list@,
                final(self).update.now,
                final(self).update.time_display_full@,
            ),
            !redraws_tooltip(*event) ==> final(self).update.tooltip == old(self).update.tooltip,
    {
        match event {
            AppEvent::Ring(_) => {
                self.mode = WaybarDisplayMode::LeadAlarm;
                self.auto_switch = false;
                self.update.class = String::from_str("ringing");
                self.update.update_time(now, civil);
                update_display(&mut self.update, alarm_list, self.mode);
            },
            AppEvent::Minute(_) => {
                self.update.update_time(now, civil);
                update_display(&mut self.update, alarm_list, self.mode);
            },
            AppEvent::Tick => {
                if self.auto_switch {
                    self.mode = WaybarDisplayMode::NextPending;
                }
                self.update.update_time(now, civil);
                update_display(&mut self.update, alarm_list, self.mode);
            },
            AppEvent::AlarmListUpdate => {
                update_tooltip(alarm_list, &mut self.update);
            },
            AppEvent::Ack => {
                self.auto_switch = true;
                self.mode = WaybarDisplayMode::Clock;
                self.update.class = String::new();
                update_display(&mut self.update, alarm_list, self.mode);
            },
            AppEvent::SwitchDisplay => {
                self.auto_switch = false;
                match self.mode {
                    WaybarDisplayMode::Clock => {
                        if alarm_list.next_alarm().is_some() {
                            self.mode = WaybarDisplayMode::NextPending;
                        }
                    },
                    WaybarDisplayMode::NextPending => {
                        self.mode = WaybarDisplayMode::Clock;
                    },
                    WaybarDisplayMode::LeadAlarm => {},
                }
                update_display(&mut self.update, alarm_list, self.mode);
            },
            AppEvent::NewListener => {},
        }
    }
}

} // verus!
