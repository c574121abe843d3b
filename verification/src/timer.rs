//! Timers of the `async_io` crate.

use vstd::prelude::*;
use std::time::Duration;
use async_io::Timer;

verus! {

/// `async_io::Timer`, which fires once or at intervals when polled.
#[verifier::external_type_specification]
#[verifier::external_body]
pub struct ExTimer(Timer);

/// `async_io::Timer::after`: a timer that fires once after `duration`, and
/// never where that instant lies beyond the clock's range. Nothing is
/// claimed of it.
pub assume_specification[ Timer::after ](duration: Duration) -> (timer: Timer)
;

} // verus!
