//! The time since the epoch, and spans of seconds in words.

use vstd::prelude::*;
use vstd::string::StringExecFns;
use std::time::{Duration, SystemTime};
use crate::clock::since_epoch;
use crate::error::TimeError;
use crate::span::{duration_nanos, duration_secs, duration_subsec_nanos};
use crate::text::{decimal, push_decimal};

verus! {

/// The time since the Unix epoch by the system clock, or `SystemTimeError`
/// where the clock stands before the epoch.
pub fn unix_seconds_now() -> (r: Result<Duration, TimeError>)
    ensures
        r matches Err(e) ==> e == TimeError::SystemTimeError,
{
    let t = SystemTime::now();
    match since_epoch(&t) {
        Ok(d) => Ok(d),
        Err(_) => Err(TimeError::SystemTimeError),
    }
}

/// The milliseconds from a point `since_epoch` after the epoch to one
/// millisecond past the start of the next minute. The extra millisecond
/// keeps a timer from firing just before the minute.
pub open spec fn millis_to_next_minute(since_epoch: Duration) -> int {
    60001 - (duration_nanos(since_epoch) / 1_000_000) % 60000
}

/// The time from a point `since_epoch` after the epoch to one millisecond
/// past the start of the next minute.
pub fn duration_to_next_minute(since_epoch: Duration) -> (wait: Duration)
    ensures
        duration_nanos(wait) == millis_to_next_minute(since_epoch) * 1_000_000,
        duration_secs(wait) == millis_to_next_minute(since_epoch) / 1000,
        duration_subsec_nanos(wait) == (millis_to_next_minute(since_epoch) % 1000) * 1_000_000,
        1 <= millis_to_next_minute(since_epoch) <= 60001,
{
    let secs: u128 = since_epoch.as_secs() as u128;
    let nanos: u128 = since_epoch.subsec_nanos() as u128;
    let millis: u128 = secs * 1000 + nanos / 1_000_000;
    let r: u128 = 60001 - millis % 60000;
    Duration::new((r / 1000) as u64, ((r % 1000) * 1_000_000) as u32)
}

/// A span of `s` seconds in words, in its two largest units from days down
/// to seconds: `2d 3h`, `3h 0m`, `4m 5s`, `6s`. A negative span reads as
/// its size followed by ` ago`.
pub open spec fn humanized(s: int) -> Seq<char> {
    let ago = if s < 0 {
        " ago"@
    } else {
        ""@
    };
    let size = if s < 0 {
        -s
    } else {
        s
    };
    let d = size / 86400;
    let h = (size % 86400) / 3600;
    let m = (size % 3600) / 60;
    let s = size % 60;
    if d > 0 {
        decimal(d as nat) + "d "@ + decimal(h as nat) + "h"@ + ago
    } else if h > 0 {
        decimal(h as nat) + "h "@ + decimal(m as nat) + "m"@ + ago
    } else if m > 0 {
        decimal(m as nat) + "m "@ + decimal(s as nat) + "s"@ + ago
    } else {
        decimal(s as nat) + "s"@ + ago
    }
}

/// A span of `s` seconds in words.
pub fn humanize_seconds(s: i64) -> (text: String)
    ensures
        text@ == humanized(s as int),
{
    let ago = if s < 0 {
        " ago"
    } else {
        ""
    };
    let size: u64 = if s < 0 {
        (-(s as i128)) as u64
    } else {
        s as u64
    };
    let d: u64 = size / 86400;
    let h: u64 = (size % 86400) / 3600;
    let m: u64 = (size % 3600) / 60;
    let sec: u64 = size % 60;
    let mut text = String::new();
    if d > 0 {
        push_decimal(&mut text, d);
        text.append("d ");
        push_decimal(&mut text, h);
        text.append("h");
    } else if h > 0 {
        push_decimal(&mut text, h);
        text.append("h ");
        push_decimal(&mut text, m);
        text.append("m");
    } else if m > 0 {
        push_decimal(&mut text, m);
        text.append("m ");
        push_decimal(&mut text, sec);
        text.append("s");
    } else {
        push_decimal(&mut text, sec);
        text.append("s");
    }
    text.append(ago);
    proof {
        assert(text@ =~= humanized(s as int));
    }
    text
}

} // verus!
