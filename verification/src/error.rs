//! Errors of reading the clock and of projecting a moment into a time zone.

use vstd::prelude::*;
use vstd::string::StringExecFns;
use std::time::SystemTimeError;
use tz::error::TzError;

verus! {

/// Why a time could not be had.
#[derive(Clone, Copy, PartialEq, Eq, Structural, Debug)]
pub enum TimeError {
    /// The system clock stands before the Unix epoch.
    SystemTimeError,
    /// The time zone has no local time for the moment.
    TzError,
}

impl TimeError {
    /// The error's name as text.
    pub fn message(&self) -> (text: String)
        ensures
            text@ == (match *self {
                TimeError::SystemTimeError => "SystemTimeError"@,
                TimeError::TzError => "TzError"@,
            }),
    {
        match self {
            TimeError::SystemTimeError => String::from_str("SystemTimeError"),
            TimeError::TzError => String::from_str("TzError"),
        }
    }
}

impl From<SystemTimeError> for TimeError {
    fn from(_error: SystemTimeError) -> (e: Self) {
        TimeError::SystemTimeError
    }
}

impl vstd::std_specs::convert::FromSpecImpl<SystemTimeError> for TimeError {
    open spec fn obeys_from_spec() -> bool {
        true
    }

    open spec fn from_spec(_error: SystemTimeError) -> Self {
        TimeError::SystemTimeError
    }
}

impl From<TzError> for TimeError {
    fn from(_error: TzError) -> (e: Self) {
        TimeError::TzError
    }
}

impl vstd::std_specs::convert::FromSpecImpl<TzError> for TimeError {
    open spec fn obeys_from_spec() -> bool {
        true
    }

    open spec fn from_spec(_error: TzError) -> Self {
        TimeError::TzError
    }
}

} // verus!
