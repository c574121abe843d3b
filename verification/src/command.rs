//! What callers ask of the scheduler: commands, and requests for new alarms.

use vstd::prelude::*;
use vstd::string::StringExecFns;
use std::path::PathBuf;
use crate::alarm::{Alarm, AlarmState};
use crate::moment::UnixMoment;

verus! {

/// A request for a new alarm, as it arrives from outside.
#[derive(Debug)]
pub struct AlarmSpec {
    /// What the alarm is to be shown as.
    pub name: String,
    /// The sound to play when the alarm rings, if any.
    pub soundfile: Option<PathBuf>,
    /// When the alarm is to end.
    pub end_t: UnixMoment,
}

/// Why a request for an alarm is turned down.
#[derive(Debug, Clone, Copy, PartialEq, Eq, Structural)]
pub enum AlarmSpecError {
    /// The end lies before the moment at which the request is looked at.
    EndTimeInPast,
    /// The request names a sound file that is not there.
    SoundfileNotExist,
}

/// A command to the scheduler.
#[derive(Debug)]
pub enum AppCommand {
    /// Admit the alarm that the request describes.
    Add(AlarmSpec),
    /// Withdraw the pending alarm created at this moment.
    Remove(UnixMoment),
    /// Acknowledge the alarms that have rung.
    Acknowledge,
    /// Show something else. The scheduler is not touched.
    SwitchDisplay,
}

impl Clone for AlarmSpec {
    fn clone(&self) -> (copy: Self)
        ensures
            copy == *self,
    {
        let soundfile = match &self.soundfile {
            Some(path) => Some(path.clone()),
            None => None,
        };
        AlarmSpec { name: self.name.clone(), soundfile, end_t: self.end_t }
    }
}

impl Clone for AppCommand {
    fn clone(&self) -> (copy: Self)
        ensures
            copy == *self,
    {
        match self {
            AppCommand::Add(spec) => AppCommand::Add(spec.clone()),
            AppCommand::Remove(creation_t) => AppCommand::Remove(*creation_t),
            AppCommand::Acknowledge => AppCommand::Acknowledge,
            AppCommand::SwitchDisplay => AppCommand::SwitchDisplay,
        }
    }
}

impl AlarmSpecError {
    /// The error's name as text.
    pub fn message(&self) -> (text: String)
        ensures
            text@ == (match *self {
                AlarmSpecError::EndTimeInPast => "EndTimeInPast"@,
                AlarmSpecError::SoundfileNotExist => "SoundfileNotExist"@,
            }),
    {
        match self {
            AlarmSpecError::EndTimeInPast => String::from_str("EndTimeInPast"),
            AlarmSpecError::SoundfileNotExist => String::from_str("SoundfileNotExist"),
        }
    }
}

impl AlarmSpec {
    /// A request for an alarm of this name that ends at `end_t` and plays
    /// `soundfile`, if one is given.
    pub fn new(name: String, soundfile: Option<PathBuf>, end_t: UnixMoment) -> (spec: Self)
        ensures
            spec == (AlarmSpec { name, soundfile, end_t }),
    {
        AlarmSpec { name, soundfile, end_t }
    }

    /// What becomes of the request at `now`, where `soundfile_exists` says
    /// whether the sound file that it names is there. The end is checked
    /// first, then the sound file. An accepted request gives a waiting
    /// alarm created at `now`.
    pub open spec fn outcome(self, now: UnixMoment, soundfile_exists: bool) -> Result<
        Alarm,
        AlarmSpecError,
    > {
        if self.end_t@ < now@ {
            Err(AlarmSpecError::EndTimeInPast)
        } else if self.soundfile.is_some() && !soundfile_exists {
            Err(AlarmSpecError::SoundfileNotExist)
        } else {
            Ok(
                Alarm {
                    name: self.name,
                    soundfile: self.soundfile,
                    end_t: self.end_t,
                    creation_t: now,
                    state: AlarmState::Waiting,
                },
            )
        }
    }
}

impl Alarm {
    /// Validates a request at `now` and turns it into an alarm. The caller
    /// says in `soundfile_exists` whether the sound file that the request
    /// names is there; without a sound file the flag is not looked at.
    pub fn from_spec(spec: AlarmSpec, now: UnixMoment, soundfile_exists: bool) -> (r: Result<
        Alarm,
        AlarmSpecError,
    >)
        ensures
            r == spec.outcome(now, soundfile_exists),
    {
        if spec.end_t < now {
            return Err(AlarmSpecError::EndTimeInPast);
        }
        if spec.soundfile.is_some() && !soundfile_exists {
            return Err(AlarmSpecError::SoundfileNotExist);
        }
        Ok(Alarm::created_at(spec.name, spec.soundfile, spec.end_t, now))
    }
}

} // verus!
