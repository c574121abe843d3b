//! What this library knows of `std::time::Duration`.
//!
//! A `Duration` is opaque to the verifier. Its two components get a name
//! each, and the three functions of std that the library calls are given
//! contracts over those names.

use vstd::prelude::*;
use std::time::Duration;

verus! {

/// Nanoseconds in one second.
pub const NANOS_PER_SECOND: u32 = 1_000_000_000;

/// The whole seconds that `Duration::as_secs` returns for `d`.
pub uninterp spec fn duration_secs(d: Duration) -> u64;

/// The fraction of a second, in nanoseconds, that `Duration::subsec_nanos`
/// returns for `d`.
pub uninterp spec fn duration_subsec_nanos(d: Duration) -> u32;

/// The length of `d` in nanoseconds.
pub open spec fn duration_nanos(d: Duration) -> int {
    duration_secs(d) * 1_000_000_000 + duration_subsec_nanos(d)
}

/// `Duration::as_secs`: the number of whole seconds held by the duration.
pub assume_specification[ Duration::as_secs ](d: &Duration) -> (secs: u64)
    ensures
        secs == duration_secs(*d),
;

/// `Duration::subsec_nanos`: the fractional part in nanoseconds, which std
/// documents to be less than one second.
pub assume_specification[ Duration::subsec_nanos ](d: &Duration) -> (nanos: u32)
    ensures
        nanos == duration_subsec_nanos(*d),
        nanos < 1_000_000_000,
;

/// `Duration::new`: whole seconds plus nanoseconds, where a billion
/// nanoseconds or more carry over into the seconds. std panics when that
/// carry overflows the seconds, so such arguments are left out.
pub assume_specification[ Duration::new ](secs: u64, nanos: u32) -> (d: Duration)
    requires
        secs + nanos / 1_000_000_000 <= u64::MAX,
    ensures
        duration_secs(d) == secs + nanos / 1_000_000_000,
        duration_subsec_nanos(d) == nanos % 1_000_000_000,
;

} // verus!
