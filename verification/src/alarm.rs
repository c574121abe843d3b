//! Alarms and their three-state life cycle.

use vstd::prelude::*;
use std::path::PathBuf;
use std::time::Duration;
use crate::error::TimeError;
use crate::moment::UnixMoment;
use crate::span::duration_nanos;

verus! {

/// `std::path::PathBuf`, which names an alarm's sound file. The library
/// carries it and never looks inside.
#[verifier::external_type_specification]
#[verifier::external_body]
pub struct ExPathBuf(PathBuf);

/// `PathBuf::clone`: the copy is the same path.
pub assume_specification[ <PathBuf as Clone>::clone ](path: &PathBuf) -> (copy: PathBuf)
    ensures
        copy == *path,
;

/// Where an alarm stands. The states are passed in this order, and `Done`
/// is never left.
#[derive(Debug, Clone, Copy, PartialEq, Eq, Structural)]
pub enum AlarmState {
    /// Admitted and not looked at yet.
    Waiting,
    /// Seen by a sweep before its end.
    Started,
    /// Its end has come.
    Done,
}

/// A named deadline. The creation moment serves as the alarm's identity.
#[derive(Debug)]
pub struct Alarm {
    /// What the alarm is shown as.
    pub name: String,
    /// The sound to play when the alarm rings, if any.
    pub soundfile: Option<PathBuf>,
    /// When the alarm ends.
    pub end_t: UnixMoment,
    /// When the alarm was created.
    pub creation_t: UnixMoment,
    /// Where the alarm stands.
    pub state: AlarmState,
}

/// A change of state, with the alarm as it is after the change.
#[derive(Debug)]
pub enum AlarmEvent {
    /// The alarm went from `Waiting` to `Started`.
    Started(Alarm),
    /// The alarm's end has come: it went to `Done`.
    Now(Alarm),
}

impl Clone for Alarm {
    fn clone(&self) -> (copy: Self)
        ensures
            copy == *self,
    {
        let soundfile = match &self.soundfile {
            Some(path) => Some(path.clone()),
            None => None,
        };
        Alarm {
            name: self.name.clone(),
            soundfile,
            end_t: self.end_t,
            creation_t: self.creation_t,
            state: self.state,
        }
    }
}

impl Clone for AlarmEvent {
    fn clone(&self) -> (copy: Self)
        ensures
            copy == *self,
    {
        match self {
            AlarmEvent::Started(alarm) => AlarmEvent::Started(alarm.clone()),
            AlarmEvent::Now(alarm) => AlarmEvent::Now(alarm.clone()),
        }
    }
}

impl AlarmState {
    /// The place of the state in the order in which the states are passed.
    pub open spec fn rank(self) -> int {
        match self {
            AlarmState::Waiting => 0,
            AlarmState::Started => 1,
            AlarmState::Done => 2,
        }
    }
}

impl AlarmEvent {
    /// Whether this is the event of an alarm whose end has come.
    pub open spec fn is_now(self) -> bool {
        self is Now
    }
}

impl Alarm {
    /// Whether the end has come at `now`: no time is left until it.
    pub open spec fn due(self, now: UnixMoment) -> bool {
        self.end_t@ <= now@
    }

    /// The state in which a look at `now` leaves the alarm.
    pub open spec fn state_at(self, now: UnixMoment) -> AlarmState {
        if self.due(now) {
            AlarmState::Done
        } else if self.state == AlarmState::Waiting {
            AlarmState::Started
        } else {
            self.state
        }
    }

    /// The alarm as a look at `now` leaves it: only the state may differ.
    pub open spec fn evaluated(self, now: UnixMoment) -> Alarm {
        Alarm { state: self.state_at(now), ..self }
    }

    /// The event that a look at `now` gives, if the state changes.
    pub open spec fn event_at(self, now: UnixMoment) -> Option<AlarmEvent> {
        if self.due(now) {
            if self.state != AlarmState::Done {
                Some(AlarmEvent::Now(self.evaluated(now)))
            } else {
                None
            }
        } else if self.state == AlarmState::Waiting {
            Some(AlarmEvent::Started(self.evaluated(now)))
        } else {
            None
        }
    }

    /// A waiting alarm with the given creation moment.
    pub fn created_at(
        name: String,
        soundfile: Option<PathBuf>,
        end_t: UnixMoment,
        creation_t: UnixMoment,
    ) -> (alarm: Self)
        ensures
            alarm == (Alarm { name, soundfile, end_t, creation_t, state: AlarmState::Waiting }),
    {
        Alarm { name, soundfile, end_t, creation_t, state: AlarmState::Waiting }
    }

    /// A waiting alarm that ends at `end_t`, created at the current time,
    /// or `SystemTimeError` where the clock cannot be read.
    pub fn new_from_unixmoment(name: String, soundfile: Option<PathBuf>, end_t: UnixMoment) -> (r:
        Result<Self, TimeError>)
        ensures
            r matches Ok(alarm) ==> alarm == (Alarm {
                name,
                soundfile,
                end_t,
                creation_t: alarm.creation_t,
                state: AlarmState::Waiting,
            }),
            r matches Err(e) ==> e == TimeError::SystemTimeError,
    {
        match UnixMoment::now() {
            Ok(creation_t) => Ok(Self::created_at(name, soundfile, end_t, creation_t)),
            Err(e) => Err(TimeError::SystemTimeError),
        }
    }

    /// A waiting alarm created at `creation_t` that ends `end_in` after it,
    /// or `SystemTimeError` where that end lies beyond the moments that can
    /// be held.
    pub fn ending_after(
        name: String,
        soundfile: Option<PathBuf>,
        end_in: Duration,
        creation_t: UnixMoment,
    ) -> (r: Result<Self, TimeError>)
        ensures
            r.is_ok() <==> UnixMoment::representable(creation_t@ + duration_nanos(end_in)),
            r matches Ok(alarm) ==> alarm == (Alarm {
                name,
                soundfile,
                end_t: UnixMoment::at(creation_t@ + duration_nanos(end_in)),
                creation_t,
                state: AlarmState::Waiting,
            }),
            r matches Err(e) ==> e == TimeError::SystemTimeError,
    {
        match creation_t.checked_add(end_in) {
            Some(end_t) => {
                proof {
                    end_t.lemma_wf();
                }
                Ok(Self::created_at(name, soundfile, end_t, creation_t))
            },
            None => Err(TimeError::SystemTimeError),
        }
    }

    /// A waiting alarm that ends `end_in` after the current time, at which
    /// it is created: what `ending_after` gives for the clock's reading.
    /// `SystemTimeError` where the clock cannot be read or the end lies
    /// beyond the moments that can be held.
    pub fn new_from_durations(name: String, soundfile: Option<PathBuf>, end_in: Duration) -> (r:
        Result<Self, TimeError>)
        ensures
            r matches Ok(alarm) ==> {
                &&& alarm == (Alarm {
                    name,
                    soundfile,
                    end_t: UnixMoment::at(alarm.creation_t@ + duration_nanos(end_in)),
                    creation_t: alarm.creation_t,
                    state: AlarmState::Waiting,
                })
                &&& UnixMoment::representable(alarm.creation_t@ + duration_nanos(end_in))
                &&& alarm.end_t@ == alarm.creation_t@ + duration_nanos(end_in)
            },
            r matches Err(e) ==> e == TimeError::SystemTimeError,
    {
        match UnixMoment::now() {
            Ok(creation_t) => {
                let r = Self::ending_after(name, soundfile, end_in, creation_t);
                proof {
                    if r.is_ok() {
                        UnixMoment::lemma_at(creation_t@ + duration_nanos(end_in));
                    }
                }
                r
            },
            Err(e) => Err(TimeError::SystemTimeError),
        }
    }

    /// Whether the alarm's end is still to come, as far as a sweep has seen.
    pub fn is_running(&self) -> (running: bool)
        ensures
            running == (self.state != AlarmState::Done),
    {
        match self.state {
            AlarmState::Done => false,
            _ => true,
        }
    }

    /// Looks at the alarm at `now`. Where the end has come, an alarm that
    /// is not done becomes `Done` and gives `Now`. Otherwise a
    /// waiting alarm becomes `Started` and gives `Started`. In every other
    /// case nothing changes and nothing is given, so a second look at the
    /// same moment is silent.
    pub fn update_with_current_time(&mut self, now: UnixMoment) -> (event: Option<AlarmEvent>)
        ensures
            *final(self) == old(self).evaluated(now),
            event == old(self).event_at(now),
    {
        if self.end_t <= now {
            match self.state {
                AlarmState::Done => None,
                _ => {
                    self.state = AlarmState::Done;
                    Some(AlarmEvent::Now(self.clone()))
                },
            }
        } else {
            match self.state {
                AlarmState::Waiting => {
                    self.state = AlarmState::Started;
                    Some(AlarmEvent::Started(self.clone()))
                },
                _ => None,
            }
        }
    }

    /// A look at `now` after one at `now` changes nothing and gives nothing.
    pub proof fn lemma_second_look_is_silent(self, now: UnixMoment)
        ensures
            self.evaluated(now).event_at(now).is_none(),
            self.evaluated(now).evaluated(now) == self.evaluated(now),
    {
    }

    /// A look moves the state forward or leaves it: never back.
    pub proof fn lemma_state_moves_forward(self, now: UnixMoment)
        ensures
            self.state.rank() <= self.evaluated(now).state.rank(),
    {
    }

    /// No look leads out of `Done`.
    pub proof fn lemma_done_is_terminal(self, now: UnixMoment)
        requires
            self.state == AlarmState::Done,
        ensures
            self.evaluated(now) == self,
            self.event_at(now).is_none(),
    {
    }
}

} // verus!
