//! Normalized timestamps with duration arithmetic.

use vstd::prelude::*;
use vstd::string::StringExecFns;
use std::cmp::Ordering;
use std::time::{Duration, SystemTime};
use async_io::Timer;
use tz::{DateTime, TimeZoneRef};
use crate::clock::since_epoch;
use crate::error::TimeError;
use crate::span::{duration_nanos, duration_secs, duration_subsec_nanos};
use crate::text::{decimal, push_decimal, push_signed_decimal, signed_decimal};
use crate::zone::{civil_time_in, datetime_unix_time};

verus! {

/// A point in time: whole seconds and nanoseconds from the Unix epoch. The
/// nanoseconds always lie in `[0, 1_000_000_000)`, also before the epoch,
/// where the seconds are negative.
///
/// The view of a moment is its distance from the epoch in nanoseconds, and
/// moments are ordered as their views are.
#[derive(Clone, Copy, PartialEq, Eq, Structural, Ord, Debug, Hash)]
pub struct UnixMoment(i64, i64);

impl View for UnixMoment {
    type V = int;

    closed spec fn view(&self) -> int {
        self.0 * 1_000_000_000 + self.1
    }
}

/// The boundary of a unit of time after `seconds`: one unit past the
/// multiple of `unit` next to `seconds` on the side of the epoch. From the
/// epoch on this is the first multiple after `seconds`. Before the epoch it
/// is the first multiple after `seconds` where `seconds` is a multiple
/// itself, and the second one else.
pub open spec fn next_boundary(seconds: int, unit: int) -> int {
    if seconds >= 0 {
        (seconds / unit + 1) * unit
    } else {
        (1 - (-seconds) / unit) * unit
    }
}

/// The whole seconds from `from` to `to`, rounded towards minus infinity:
/// negative exactly when `to` lies before `from`.
pub open spec fn seconds_between(from: UnixMoment, to: UnixMoment) -> int {
    (to@ - from@) / 1_000_000_000
}

/// A number of seconds held to the range of `i64`.
pub open spec fn clamped_seconds(seconds: int) -> int {
    if seconds > i64::MAX {
        i64::MAX as int
    } else if seconds < i64::MIN {
        i64::MIN as int
    } else {
        seconds
    }
}

impl UnixMoment {
    /// The whole seconds from the epoch, rounded towards minus infinity.
    pub open spec fn whole_seconds(self) -> int {
        self@ / 1_000_000_000
    }

    /// The nanoseconds are normalized. Every moment that executable code
    /// holds is well formed.
    #[verifier::type_invariant]
    pub closed spec fn wf(self) -> bool {
        0 <= self.1 < 1_000_000_000
    }

    /// The well-formed moment `nanos` nanoseconds from the epoch, where its
    /// seconds fit the machine's range.
    pub closed spec fn at(nanos: int) -> UnixMoment {
        UnixMoment((nanos / 1_000_000_000) as i64, (nanos % 1_000_000_000) as i64)
    }

    /// The moment that lies `since` after the epoch. Seconds beyond
    /// `i64::MAX` wrap around, as a cast to `i64` does.
    pub open spec fn after_epoch(since: Duration) -> UnixMoment {
        Self::at((duration_secs(since) as i64) * 1_000_000_000 + duration_subsec_nanos(since))
    }

    /// Whether a moment `nanos` nanoseconds from the epoch can be held.
    pub open spec fn representable(nanos: int) -> bool {
        i64::MIN <= nanos / 1_000_000_000 <= i64::MAX
    }

    /// A well-formed moment has normalized nanoseconds and machine-sized
    /// seconds, and is the one moment at its view.
    pub proof fn lemma_wf(self)
        requires
            self.wf(),
        ensures
            Self::representable(self@),
            Self::at(self@) == self,
    {
    }

    /// `at` gives a well-formed moment with the view asked for.
    pub proof fn lemma_at(nanos: int)
        requires
            Self::representable(nanos),
        ensures
            Self::at(nanos).wf(),
            Self::at(nanos)@ == nanos,
    {
    }

    /// Two well-formed moments with one view are one moment.
    pub proof fn lemma_view_injective(a: UnixMoment, b: UnixMoment)
        requires
            a.wf(),
            b.wf(),
            a@ == b@,
        ensures
            a == b,
    {
    }

    /// The moment `s` whole seconds from the epoch.
    pub fn new(s: i64) -> (m: Self)
        ensures
            m.wf(),
            m@ == s * 1_000_000_000,
            m == Self::at(s * 1_000_000_000),
    {
        Self(s, 0)
    }

    /// The whole seconds from the epoch.
    pub fn seconds(&self) -> (s: i64)
        ensures
            s == self.whole_seconds(),
    {
        proof {
            use_type_invariant(self);
        }
        self.0
    }

    /// The nanoseconds past the whole seconds.
    pub fn subsec_nanos(&self) -> (n: u32)
        ensures
            n == self@ % 1_000_000_000,
    {
        proof {
            use_type_invariant(self);
        }
        self.1 as u32
    }

    /// The moment `secs` seconds and `nanos` nanoseconds from the epoch,
    /// where `nanos` may be of any size and either sign, or `None` where
    /// the moment's whole seconds cannot be held.
    pub fn normalized(secs: i64, nanos: i64) -> (r: Option<Self>)
        ensures
            r.is_some() <==> Self::representable(secs * 1_000_000_000 + nanos),
            r matches Some(m) ==> m.wf() && m@ == secs * 1_000_000_000 + nanos,
    {
        let (s, n) = Self::adjust_nanos(secs as i128, nanos as i128);
        if s < i64::MIN as i128 || s > i64::MAX as i128 {
            None
        } else {
            Some(Self(s as i64, n as i64))
        }
    }

    /// The moment as text: the whole seconds and the nanoseconds past
    /// them, as in `12s 500ns`.
    pub fn to_text(&self) -> (text: String)
        ensures
            text@ == signed_decimal(self.whole_seconds()) + "s "@ + decimal(
                (self@ % 1_000_000_000) as nat,
            ) + "ns"@,
    {
        proof {
            use_type_invariant(self);
        }
        let mut text = String::new();
        push_signed_decimal(&mut text, self.0);
        text.append("s ");
        push_decimal(&mut text, self.1 as u64);
        text.append("ns");
        proof {
            assert(text@ =~= signed_decimal(self.whole_seconds()) + "s "@ + decimal(
                (self@ % 1_000_000_000) as nat,
            ) + "ns"@);
        }
        text
    }

    /// Carries whole seconds out of `n` into `s`, in closed form, whatever
    /// the size and the sign of `n`.
    fn adjust_nanos(s: i128, n: i128) -> (r: (i128, i128))
        requires
            -0x1_0000_0000_0000_0000_0000 <= s <= 0x1_0000_0000_0000_0000_0000,
            -0x1_0000_0000_0000_0000_0000 <= n <= 0x1_0000_0000_0000_0000_0000,
        ensures
            r.0 == s + n / 1_000_000_000,
            r.1 == n % 1_000_000_000,
            0 <= r.1 < 1_000_000_000,
    {
        if n >= 0 {
            (s + n / 1_000_000_000, n % 1_000_000_000)
        } else {
            let m: i128 = -n;
            let q: i128 = m / 1_000_000_000;
            let r: i128 = m % 1_000_000_000;
            if r == 0 {
                (s - q, 0)
            } else {
                (s - q - 1, 1_000_000_000 - r)
            }
        }
    }
}

impl UnixMoment {
    /// The current time by the system clock: the moment that lies as long
    /// after the epoch as the clock says. `SystemTimeError` where the clock
    /// stands before the epoch.
    pub fn now() -> (r: Result<Self, TimeError>)
        ensures
            r matches Ok(m) ==> m.wf() && exists|since: Duration| m == Self::after_epoch(since),
            r matches Err(e) ==> e == TimeError::SystemTimeError,
    {
        let t = SystemTime::now();
        match since_epoch(&t) {
            Ok(d) => Ok(Self::from(d)),
            Err(_) => Err(TimeError::SystemTimeError),
        }
    }

    /// The boundary of a unit of `unit_seconds` after this moment.
    fn next_unit(&self, unit_seconds: i64) -> (m: Self)
        requires
            0 < unit_seconds,
            next_boundary(self.whole_seconds(), unit_seconds as int) <= i64::MAX,
        ensures
            m.wf(),
            m@ == next_boundary(self.whole_seconds(), unit_seconds as int) * 1_000_000_000,
            self@ < m@,
    {
        proof {
            use_type_invariant(self);
            lemma_next_boundary(self.0 as int, unit_seconds as int);
        }
        let r: i64 = self.0 % unit_seconds;
        let s: i64 = self.0 - r + unit_seconds;
        Self(s, 0)
    }

    /// The start of the minute after this moment's, as `next_boundary`
    /// counts it.
    pub fn next_minute(&self) -> (m: Self)
        requires
            next_boundary(self.whole_seconds(), 60) <= i64::MAX,
        ensures
            m.wf(),
            m@ == next_boundary(self.whole_seconds(), 60) * 1_000_000_000,
            self@ < m@,
    {
        self.next_unit(60)
    }

    /// The start of the hour after this moment's, as `next_boundary`
    /// counts it.
    pub fn next_hour(&self) -> (m: Self)
        requires
            next_boundary(self.whole_seconds(), 3600) <= i64::MAX,
        ensures
            m.wf(),
            m@ == next_boundary(self.whole_seconds(), 3600) * 1_000_000_000,
            self@ < m@,
    {
        self.next_unit(3600)
    }

    /// The start of the day of 86400 seconds after this moment's, as
    /// `next_boundary` counts it.
    pub fn next_day(&self) -> (m: Self)
        requires
            next_boundary(self.whole_seconds(), 86400) <= i64::MAX,
        ensures
            m.wf(),
            m@ == next_boundary(self.whole_seconds(), 86400) * 1_000_000_000,
            self@ < m@,
    {
        self.next_unit(86400)
    }

    /// The time from this moment to the start of the next minute.
    pub fn duration_until_next_minute(&self) -> (d: Duration)
        requires
            next_boundary(self.whole_seconds(), 60) <= i64::MAX,
        ensures
            duration_nanos(d) == next_boundary(self.whole_seconds(), 60) * 1_000_000_000 - self@,
            duration_subsec_nanos(d) < 1_000_000_000,
    {
        let next = self.next_minute();
        self.span_to(next)
    }

    /// The time from this moment to the start of the next hour.
    pub fn duration_until_next_hour(&self) -> (d: Duration)
        requires
            next_boundary(self.whole_seconds(), 3600) <= i64::MAX,
        ensures
            duration_nanos(d) == next_boundary(self.whole_seconds(), 3600) * 1_000_000_000 - self@,
            duration_subsec_nanos(d) < 1_000_000_000,
    {
        let next = self.next_hour();
        self.span_to(next)
    }

    /// The time from this moment to the start of the next day.
    pub fn duration_until_next_day(&self) -> (d: Duration)
        requires
            next_boundary(self.whole_seconds(), 86400) <= i64::MAX,
        ensures
            duration_nanos(d) == next_boundary(self.whole_seconds(), 86400) * 1_000_000_000 - self@,
            duration_subsec_nanos(d) < 1_000_000_000,
    {
        let next = self.next_day();
        self.span_to(next)
    }

    /// The time from this moment to a later one.
    fn span_to(&self, later: Self) -> (d: Duration)
        requires
            self@ <= later@,
        ensures
            duration_secs(d) == (later@ - self@) / 1_000_000_000,
            duration_subsec_nanos(d) == (later@ - self@) % 1_000_000_000,
            duration_nanos(d) == later@ - self@,
    {
        proof {
            use_type_invariant(self);
            use_type_invariant(&later);
        }
        let (s, n) = Self::adjust_nanos(later.0 as i128 - self.0 as i128, later.1 as i128 - self.1 as i128);
        Duration::new(s as u64, n as u32)
    }

    /// A timer that fires when this moment comes, set at `now`, or `None`
    /// where this moment lies before `now`.
    pub fn timer_for(&self, now: UnixMoment) -> (timer: Option<Timer>)
        ensures
            timer.is_some() <==> now@ <= self@,
    {
        match now.duration_until(*self) {
            Some(wait) => Some(Timer::after(wait)),
            None => None,
        }
    }

    /// The civil time of this moment's whole seconds in the zone, as the
    /// `tz` crate finds it, or `None` where the zone has none for them.
    pub fn as_datetime(&self, tzref: TimeZoneRef<'_>) -> (civil: Option<DateTime>)
        ensures
            civil == civil_time_in(self.whole_seconds() as i64, 0, tzref),
            civil matches Some(dt) ==> datetime_unix_time(dt) == self.whole_seconds(),
    {
        proof {
            use_type_invariant(self);
        }
        match DateTime::from_timespec(self.0, 0, tzref) {
            Ok(civil) => Some(civil),
            Err(_) => None,
        }
    }

    /// The moment `rhs` after this one, or `None` where its seconds would
    /// leave the machine's range.
    pub fn checked_add(&self, rhs: Duration) -> (r: Option<Self>)
        ensures
            r.is_some() <==> Self::representable(self@ + duration_nanos(rhs)),
            r matches Some(m) ==> m.wf() && m@ == self@ + duration_nanos(rhs),
    {
        proof {
            use_type_invariant(self);
        }
        let (ds, dn) = deconstruct_duration(rhs);
        let (s, n) = Self::adjust_nanos(self.0 as i128 + ds, self.1 as i128 + dn);
        if s > i64::MAX as i128 {
            None
        } else {
            Some(Self(s as i64, n as i64))
        }
    }

    /// The whole seconds from this moment to `rhs`, rounded towards minus
    /// infinity. A negative result says that `rhs` lies before this moment.
    pub fn seconds_until(&self, rhs: Self) -> (s: i64)
        requires
            i64::MIN <= seconds_between(*self, rhs) <= i64::MAX,
        ensures
            s == seconds_between(*self, rhs),
    {
        proof {
            use_type_invariant(self);
            use_type_invariant(&rhs);
        }
        let (s, _n) = Self::adjust_nanos(rhs.0 as i128 - self.0 as i128, rhs.1 as i128 - self.1 as i128);
        s as i64
    }

    /// The whole seconds from this moment to `rhs`, rounded towards minus
    /// infinity, and held to the machine's range where they leave it.
    pub fn clamped_seconds_until(&self, rhs: Self) -> (s: i64)
        ensures
            s == clamped_seconds(seconds_between(*self, rhs)),
    {
        proof {
            use_type_invariant(self);
            use_type_invariant(&rhs);
        }
        let (s, _n) = Self::adjust_nanos(rhs.0 as i128 - self.0 as i128, rhs.1 as i128 - self.1 as i128);
        if s > i64::MAX as i128 {
            i64::MAX
        } else if s < i64::MIN as i128 {
            i64::MIN
        } else {
            s as i64
        }
    }

    /// The time from this moment to `other`, or `None` where `other` lies
    /// before this moment.
    pub fn duration_until(&self, other: Self) -> (d: Option<Duration>)
        ensures
            d.is_some() <==> self@ <= other@,
            d matches Some(span) ==> {
                &&& duration_secs(span) == (other@ - self@) / 1_000_000_000
                &&& duration_subsec_nanos(span) == (other@ - self@) % 1_000_000_000
                &&& duration_nanos(span) == other@ - self@
            },
    {
        proof {
            use_type_invariant(self);
            use_type_invariant(&other);
        }
        let (s, n) = Self::adjust_nanos(other.0 as i128 - self.0 as i128, other.1 as i128 - self.1 as i128);
        if s < 0 {
            None
        } else {
            Some(Duration::new(s as u64, n as u32))
        }
    }
}

/// The seconds and the nanoseconds of a duration, as wide integers.
fn deconstruct_duration(d: Duration) -> (r: (i128, i128))
    ensures
        r.0 == duration_secs(d),
        r.1 == duration_subsec_nanos(d),
        0 <= r.1 < 1_000_000_000,
{
    let s: i128 = d.as_secs() as i128;
    let n: i128 = d.subsec_nanos() as i128;
    (s, n)
}

/// `next_boundary` in terms of the remainder that the machine computes,
/// which has the sign of the seconds.
proof fn lemma_next_boundary(seconds: int, unit: int)
    requires
        0 < unit,
    ensures
        seconds >= 0 ==> next_boundary(seconds, unit) == seconds - seconds % unit + unit,
        seconds < 0 ==> next_boundary(seconds, unit) == seconds + (-seconds) % unit + unit,
        seconds < next_boundary(seconds, unit),
{
    if seconds >= 0 {
        vstd::arithmetic::div_mod::lemma_fundamental_div_mod(seconds, unit);
        vstd::arithmetic::div_mod::lemma_mod_bound(seconds, unit);
        assert((seconds / unit + 1) * unit == unit * (seconds / unit) + unit) by (nonlinear_arith);
    } else {
        vstd::arithmetic::div_mod::lemma_fundamental_div_mod(-seconds, unit);
        vstd::arithmetic::div_mod::lemma_mod_bound(-seconds, unit);
        assert((1 - (-seconds) / unit) * unit == unit - unit * ((-seconds) / unit)) by (nonlinear_arith);
    }
}

impl From<Duration> for UnixMoment {
    /// The moment that lies `value` after the epoch. Seconds beyond
    /// `i64::MAX` wrap around, as a cast to `i64` does.
    fn from(value: Duration) -> (m: Self)
        ensures
            duration_secs(value) <= i64::MAX ==> m@ == duration_nanos(value),
    {
        let s: i64 = value.as_secs() as i64;
        let n: i64 = value.subsec_nanos() as i64;
        Self(s, n)
    }
}

impl vstd::std_specs::convert::FromSpecImpl<Duration> for UnixMoment {
    open spec fn obeys_from_spec() -> bool {
        true
    }

    open spec fn from_spec(value: Duration) -> Self {
        UnixMoment::after_epoch(value)
    }
}

impl From<i64> for UnixMoment {
    /// The moment `value` whole seconds from the epoch.
    fn from(value: i64) -> (m: Self)
        ensures
            m@ == value * 1_000_000_000,
    {
        Self(value, 0)
    }
}

impl vstd::std_specs::convert::FromSpecImpl<i64> for UnixMoment {
    open spec fn obeys_from_spec() -> bool {
        true
    }

    open spec fn from_spec(value: i64) -> Self {
        UnixMoment::at(value * 1_000_000_000)
    }
}

impl std::ops::Add<Duration> for UnixMoment {
    type Output = Self;

    /// The moment `rhs` after this one.
    fn add(self, rhs: Duration) -> (m: Self)
        ensures
            m@ == self@ + duration_nanos(rhs),
    {
        proof {
            use_type_invariant(&self);
        }
        let (ds, dn) = deconstruct_duration(rhs);
        let (s, n) = Self::adjust_nanos(self.0 as i128 + ds, self.1 as i128 + dn);
        Self(s as i64, n as i64)
    }
}

impl vstd::std_specs::ops::AddSpecImpl<Duration> for UnixMoment {
    open spec fn obeys_add_spec() -> bool {
        true
    }

    open spec fn add_req(self, rhs: Duration) -> bool {
        UnixMoment::representable(self@ + duration_nanos(rhs))
    }

    open spec fn add_spec(self, rhs: Duration) -> Self {
        UnixMoment::at(self@ + duration_nanos(rhs))
    }
}

impl std::ops::Sub<Duration> for UnixMoment {
    type Output = Self;

    /// The moment `rhs` before this one.
    fn sub(self, rhs: Duration) -> (m: Self)
        ensures
            m@ == self@ - duration_nanos(rhs),
    {
        proof {
            use_type_invariant(&self);
        }
        let (ds, dn) = deconstruct_duration(rhs);
        let (s, n) = Self::adjust_nanos(self.0 as i128 - ds, self.1 as i128 - dn);
        Self(s as i64, n as i64)
    }
}

impl vstd::std_specs::ops::SubSpecImpl<Duration> for UnixMoment {
    open spec fn obeys_sub_spec() -> bool {
        true
    }

    open spec fn sub_req(self, rhs: Duration) -> bool {
        UnixMoment::representable(self@ - duration_nanos(rhs))
    }

    open spec fn sub_spec(self, rhs: Duration) -> Self {
        UnixMoment::at(self@ - duration_nanos(rhs))
    }
}

impl std::ops::Sub<UnixMoment> for UnixMoment {
    type Output = Duration;

    /// The time from `rhs` to this moment. `rhs` must not be the later of
    /// the two: there is no negative duration.
    fn sub(self, rhs: UnixMoment) -> (d: Duration)
        ensures
            duration_secs(d) == (self@ - rhs@) / 1_000_000_000,
            duration_subsec_nanos(d) == (self@ - rhs@) % 1_000_000_000,
            duration_nanos(d) == self@ - rhs@,
    {
        rhs.span_to(self)
    }
}

impl vstd::std_specs::ops::SubSpecImpl<UnixMoment> for UnixMoment {
    open spec fn obeys_sub_spec() -> bool {
        false
    }

    open spec fn sub_req(self, rhs: UnixMoment) -> bool {
        rhs@ <= self@
    }

    open spec fn sub_spec(self, rhs: UnixMoment) -> Duration {
        arbitrary()
    }
}

impl PartialOrd for UnixMoment {
    /// Earlier moments are less: the order of the views.
    fn partial_cmp(&self, other: &Self) -> (r: Option<Ordering>) {
        proof {
            use_type_invariant(self);
            use_type_invariant(other);
        }
        if self.0 < other.0 {
            Some(Ordering::Less)
        } else if self.0 > other.0 {
            Some(Ordering::Greater)
        } else if self.1 < other.1 {
            Some(Ordering::Less)
        } else if self.1 > other.1 {
            Some(Ordering::Greater)
        } else {
            Some(Ordering::Equal)
        }
    }
}

impl vstd::std_specs::cmp::PartialOrdSpecImpl for UnixMoment {
    open spec fn obeys_partial_cmp_spec() -> bool {
        true
    }

    open spec fn partial_cmp_spec(&self, other: &Self) -> Option<Ordering> {
        if self@ < other@ {
            Some(Ordering::Less)
        } else if self@ > other@ {
            Some(Ordering::Greater)
        } else {
            Some(Ordering::Equal)
        }
    }
}

} // verus!
