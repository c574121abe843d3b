//! From the parts of a written time to a moment.
//!
//! The parts are applied to a civil time in two rounds. The first moves
//! the day: `tomorrow` by one day, a day of the week to the next day of
//! that name. The second sets the fields that the parts name, and adds up
//! the hours, minutes and seconds that they count. The moment is the civil
//! time with the new fields, plus what was added up.

use vstd::prelude::*;
use tz::DateTime;
use crate::error::TimeError;
use crate::moment::UnixMoment;
use crate::timepart::TimePart;
use crate::zone::{
    civil_unix_time, datetime_hour, datetime_local_time_type, datetime_minute, datetime_month,
    datetime_month_day, datetime_second, datetime_unix_time, datetime_week_day, datetime_year,
    local_week_day, zone_offset,
};

verus! {

/// A date and a time of day, field by field. The fields are what was
/// written: they may name no day.
#[derive(Debug, Clone, Copy, PartialEq, Eq, Structural)]
pub struct CivilFields {
    /// The year.
    pub year: i32,
    /// The month, counted from one.
    pub month: u8,
    /// The day of the month.
    pub day: u8,
    /// The hour of the day.
    pub hour: u8,
    /// The minute of the hour.
    pub minute: u8,
    /// The second of the minute.
    pub second: u8,
}

/// The seconds of one day.
pub const SECONDS_PER_DAY: i64 = 86400;

/// Whether a number of seconds can be held.
pub open spec fn fits(seconds: int) -> bool {
    i64::MIN <= seconds <= i64::MAX
}

/// The fields of a civil time.
pub open spec fn fields_of(civil: DateTime) -> CivilFields {
    CivilFields {
        year: datetime_year(civil),
        month: datetime_month(civil),
        day: datetime_month_day(civil),
        hour: datetime_hour(civil),
        minute: datetime_minute(civil),
        second: datetime_second(civil),
    }
}

/// What `seconds` more make of a sum, or `None` where they or the sum
/// cannot be held.
pub open spec fn added(sum: int, seconds: int) -> Option<int> {
    if fits(seconds) && fits(sum + seconds) {
        Some(sum + seconds)
    } else {
        None
    }
}

/// What a part makes of the fields and of the seconds added up so far.
/// Hour and minute, month and day, month, year and a full date set their
/// fields; hours, minutes and seconds are added up; the parts that move
/// the day change nothing here. `None` says that the seconds cannot be
/// held, and stays.
pub open spec fn apply_part(state: Option<(CivilFields, int)>, part: TimePart) -> Option<
    (CivilFields, int),
> {
    match state {
        None => None,
        Some((fields, sum)) => match part {
            TimePart::HM(h, m) => Some((CivilFields { hour: h, minute: m, ..fields }, sum)),
            TimePart::MD(m, d) => Some((CivilFields { month: m, day: d, ..fields }, sum)),
            TimePart::Month(m) => Some((CivilFields { month: m, ..fields }, sum)),
            TimePart::Year(y) => Some((CivilFields { year: y, ..fields }, sum)),
            TimePart::YMD(y, m, d) => Some(
                (CivilFields { year: y, month: m, day: d, ..fields }, sum),
            ),
            TimePart::Hours(h) => match added(sum, h * 3600) {
                Some(total) => Some((fields, total)),
                None => None,
            },
            TimePart::Minutes(m) => match added(sum, m * 60) {
                Some(total) => Some((fields, total)),
                None => None,
            },
            TimePart::Seconds(s) => match added(sum, s as int) {
                Some(total) => Some((fields, total)),
                None => None,
            },
            _ => Some((fields, sum)),
        },
    }
}

/// What the parts, one after the other, make of the fields, and the
/// seconds that they add up.
pub open spec fn apply_parts(start: CivilFields, parts: Seq<TimePart>) -> Option<(CivilFields, int)>
    decreases parts.len(),
{
    if parts.len() == 0 {
        Some((start, 0))
    } else {
        apply_part(apply_parts(start, parts.drop_last()), parts.last())
    }
}

/// Whether a part moves the day.
pub open spec fn moves_day(part: TimePart) -> bool {
    part is Tomorrow || part is WeekDay
}

/// The offset from UTC of a civil time.
pub open spec fn offset_of(civil: DateTime) -> i32 {
    zone_offset(datetime_local_time_type(civil))
}

/// The Unix time one day of 86400 seconds after `unix_time`, or `None`
/// where it cannot be held or has no date at the offset.
pub open spec fn day_after(unix_time: int, offset: i32) -> Option<int> {
    if fits(unix_time + 86400) && local_week_day((unix_time + 86400) as i64, offset).is_some() {
        Some(unix_time + 86400)
    } else {
        None
    }
}

/// The first of the Unix times `candidate`, `candidate` plus one day, and
/// so on, `left` in all, that falls on the day of the week `weekday` at
/// the offset. `None` where there is none, or where a Unix time before it
/// cannot be held or has no date.
pub open spec fn weekday_from(candidate: int, offset: i32, weekday: u8, left: nat) -> Option<int>
    decreases left,
{
    if left == 0 || !fits(candidate) {
        None
    } else {
        match local_week_day(candidate as i64, offset) {
            Some(day) => if day == weekday {
                Some(candidate)
            } else {
                weekday_from(candidate + 86400, offset, weekday, (left - 1) as nat)
            },
            None => None,
        }
    }
}

/// The Unix time to which the parts move a civil time at `unix_time`, one
/// after the other: `tomorrow` by one day, a day of the week to the first
/// of the next seven days of that name. `None` where a part finds no day.
pub open spec fn moved_unix(unix_time: int, offset: i32, parts: Seq<TimePart>) -> Option<int>
    decreases parts.len(),
{
    if parts.len() == 0 {
        Some(unix_time)
    } else {
        match moved_unix(unix_time, offset, parts.drop_last()) {
            Some(reached) => match parts.last() {
                TimePart::Tomorrow => day_after(reached, offset),
                TimePart::WeekDay(weekday) => weekday_from(reached + 86400, offset, weekday, 7),
                _ => Some(reached),
            },
            None => None,
        }
    }
}

/// Whether `to` is the civil time at `unix_time` in the local time type of
/// `from`.
pub open spec fn same_zone_at(from: DateTime, to: DateTime, unix_time: int) -> bool {
    &&& datetime_local_time_type(to) == datetime_local_time_type(from)
    &&& datetime_unix_time(to) == unix_time
}

/// The moment that the parts make of a civil time whose day has been
/// moved already: the civil time with the fields that the parts set, in
/// the same local time type, plus the seconds that the parts add up.
/// `None` where the fields name no civil time or the seconds cannot be
/// held.
pub open spec fn moment_from(moved: DateTime, parts: Seq<TimePart>) -> Option<int> {
    match apply_parts(fields_of(moved), parts) {
        Some((fields, sum)) => match civil_unix_time(
            fields.year,
            fields.month,
            fields.day,
            fields.hour,
            fields.minute,
            fields.second,
            zone_offset(datetime_local_time_type(moved)),
        ) {
            Some(unix_time) => if fits(unix_time + sum) {
                Some(unix_time + sum)
            } else {
                None
            },
            None => None,
        },
        None => None,
    }
}

fn add_seconds(sum: i64, amount: i64, unit: i64) -> (r: Option<i64>)
    requires
        unit == 1 || unit == 60 || unit == 3600,
    ensures
        r matches Some(total) ==> added(sum as int, amount * unit) == Some(total as int),
        r.is_none() ==> added(sum as int, amount * unit).is_none(),
{
    let seconds: i128 = amount as i128 * unit as i128;
    let total: i128 = sum as i128 + seconds;
    if seconds < i64::MIN as i128 || seconds > i64::MAX as i128 || total < i64::MIN as i128 || total
        > i64::MAX as i128 {
        None
    } else {
        Some(total as i64)
    }
}

/// What stands in `state`, with the seconds as a mathematical integer.
pub open spec fn state_of(state: Option<(CivilFields, i64)>) -> Option<(CivilFields, int)> {
    match state {
        Some((fields, sum)) => Some((fields, sum as int)),
        None => None,
    }
}

/// Applies the parts to the fields, one after the other, and adds up the
/// seconds that they count. `None` says that the seconds cannot be held.
pub fn apply_timeparts(start: CivilFields, tps: &[TimePart]) -> (r: Option<(CivilFields, i64)>)
    ensures
        state_of(r) == apply_parts(start, tps@),
{
    let mut state: Option<(CivilFields, i64)> = Some((start, 0));
    let n = tps.len();
    let mut i: usize = 0;
    proof {
        assert(tps@.take(0) =~= Seq::<TimePart>::empty());
    }
    while i < n
        invariant
            n == tps@.len(),
            i <= n,
            state_of(state) == apply_parts(start, tps@.take(i as int)),
        decreases n - i,
    {
        proof {
            assert(tps@.take(i + 1).drop_last() =~= tps@.take(i as int));
        }
        state = match state {
            None => None,
            Some((fields, sum)) => match tps[i] {
                TimePart::HM(h, m) => Some(
                    (
                        CivilFields {
                            year: fields.year,
                            month: fields.month,
                            day: fields.day,
                            hour: h,
                            minute: m,
                            second: fields.second,
                        },
                        sum,
                    ),
                ),
                TimePart::MD(m, d) => Some(
                    (
                        CivilFields {
                            year: fields.year,
                            month: m,
                            day: d,
                            hour: fields.hour,
                            minute: fields.minute,
                            second: fields.second,
                        },
                        sum,
                    ),
                ),
                TimePart::Month(m) => Some(
                    (
                        CivilFields {
                            year: fields.year,
                            month: m,
                            day: fields.day,
                            hour: fields.hour,
                            minute: fields.minute,
                            second: fields.second,
                        },
                        sum,
                    ),
                ),
                TimePart::Year(y) => Some(
                    (
                        CivilFields {
                            year: y,
                            month: fields.month,
                            day: fields.day,
                            hour: fields.hour,
                            minute: fields.minute,
                            second: fields.second,
                        },
                        sum,
                    ),
                ),
                TimePart::YMD(y, m, d) => Some(
                    (
                        CivilFields {
                            year: y,
                            month: m,
                            day: d,
                            hour: fields.hour,
                            minute: fields.minute,
                            second: fields.second,
                        },
                        sum,
                    ),
                ),
                TimePart::Hours(h) => match add_seconds(sum, h, 3600) {
                    Some(total) => Some((fields, total)),
                    None => None,
                },
                TimePart::Minutes(m) => match add_seconds(sum, m, 60) {
                    Some(total) => Some((fields, total)),
                    None => None,
                },
                TimePart::Seconds(s) => match add_seconds(sum, s, 1) {
                    Some(total) => Some((fields, total)),
                    None => None,
                },
                _ => Some((fields, sum)),
            },
        };
        i += 1;
    }
    proof {
        assert(tps@.take(n as int) =~= tps@);
    }
    state
}

/// The moment `interval_seconds` after the Unix time `unix_time`, or
/// `TzError` where its seconds cannot be held.
pub fn moment_after(unix_time: i64, interval_seconds: i64) -> (r: Result<UnixMoment, TimeError>)
    ensures
        fits(unix_time + interval_seconds) ==> (r matches Ok(m) && m@ == (unix_time
            + interval_seconds) * 1_000_000_000),
        !fits(unix_time + interval_seconds) ==> r == Err::<UnixMoment, TimeError>(
            TimeError::TzError,
        ),
{
    let total: i128 = unix_time as i128 + interval_seconds as i128;
    if total < i64::MIN as i128 || total > i64::MAX as i128 {
        Err(TimeError::TzError)
    } else {
        Ok(UnixMoment::new(total as i64))
    }
}

/// The civil time one day of 86400 seconds later, in the same local time
/// type, or `TzError` where there is none.
pub fn next_day(dt: DateTime) -> (r: Result<DateTime, TimeError>)
    ensures
        r.is_ok() <==> day_after(datetime_unix_time(dt) as int, offset_of(dt)).is_some(),
        r matches Ok(next) ==> {
            &&& same_zone_at(dt, next, datetime_unix_time(dt) + 86400)
            &&& local_week_day(datetime_unix_time(next), offset_of(dt)) == Some(
                datetime_week_day(next),
            )
        },
        r matches Err(e) ==> e == TimeError::TzError,
{
    let unix_time = dt.unix_time();
    if unix_time > i64::MAX - SECONDS_PER_DAY {
        return Err(TimeError::TzError);
    }
    let local = dt.local_time_type().clone();
    match DateTime::from_timespec_and_local(unix_time + SECONDS_PER_DAY, 0, local) {
        Ok(next) => Ok(next),
        Err(_) => Err(TimeError::TzError),
    }
}

/// The first of the seven days after `starting_dt` that is the day of the
/// week `weekday`, counted from Sunday as zero, at the same time of day,
/// or `TzError` where there is none: where `weekday` is none, or a day
/// leaves the range of dates.
pub fn find_weekday(starting_dt: DateTime, weekday: u8) -> (r: Result<DateTime, TimeError>)
    ensures
        r.is_ok() <==> weekday_from(
            datetime_unix_time(starting_dt) + 86400,
            offset_of(starting_dt),
            weekday,
            7,
        ).is_some(),
        r matches Ok(found) ==> {
            &&& datetime_week_day(found) == weekday
            &&& Some(datetime_unix_time(found) as int) == weekday_from(
                datetime_unix_time(starting_dt) + 86400,
                offset_of(starting_dt),
                weekday,
                7,
            )
            &&& datetime_local_time_type(found) == datetime_local_time_type(starting_dt)
        },
        r matches Err(e) ==> e == TimeError::TzError,
{
    let ghost wanted = weekday_from(
        datetime_unix_time(starting_dt) + 86400,
        offset_of(starting_dt),
        weekday,
        7,
    );
    let mut counter: u8 = 7;
    let mut dt = match next_day(starting_dt) {
        Ok(next) => next,
        Err(e) => {
            return Err(e);
        },
    };
    while counter > 0
        invariant
            counter <= 7,
            datetime_local_time_type(dt) == datetime_local_time_type(starting_dt),
            local_week_day(datetime_unix_time(dt), offset_of(starting_dt)) == Some(
                datetime_week_day(dt),
            ),
            wanted == weekday_from(
                datetime_unix_time(starting_dt) + 86400,
                offset_of(starting_dt),
                weekday,
                7,
            ),
            wanted == weekday_from(
                datetime_unix_time(dt) as int,
                offset_of(starting_dt),
                weekday,
                counter as nat,
            ),
        decreases counter,
    {
        if dt.week_day() == weekday {
            return Ok(dt);
        }
        dt = match next_day(dt) {
            Ok(next) => next,
            Err(e) => {
                proof {
                    reveal_with_fuel(weekday_from, 2);
                }
                return Err(e);
            },
        };
        counter -= 1;
    }
    Err(TimeError::TzError)
}

/// Moves the day of `current_dt` as the parts say, one after the other:
/// `tomorrow` by one day, a day of the week to the next day of that name.
/// `TzError` says that a part found no day.
pub fn move_day(current_dt: DateTime, tps: &[TimePart]) -> (r: Result<DateTime, TimeError>)
    ensures
        r.is_ok() <==> moved_unix(
            datetime_unix_time(current_dt) as int,
            offset_of(current_dt),
            tps@,
        ).is_some(),
        r matches Ok(moved) ==> same_zone_at(
            current_dt,
            moved,
            moved_unix(datetime_unix_time(current_dt) as int, offset_of(current_dt), tps@).unwrap(),
        ),
        r matches Err(e) ==> e == TimeError::TzError,
        (forall|i: int| 0 <= i < tps@.len() ==> !moves_day(#[trigger] tps@[i])) ==> r == Ok::<
            DateTime,
            TimeError,
        >(current_dt),
{
    let ghost start = datetime_unix_time(current_dt) as int;
    let ghost offset = offset_of(current_dt);
    let mut dt = current_dt;
    let n = tps.len();
    let mut i: usize = 0;
    proof {
        assert(tps@.take(0) =~= Seq::<TimePart>::empty());
    }
    while i < n
        invariant
            n == tps@.len(),
            i <= n,
            start == datetime_unix_time(current_dt),
            offset == offset_of(current_dt),
            datetime_local_time_type(dt) == datetime_local_time_type(current_dt),
            moved_unix(start, offset, tps@.take(i as int)) == Some(datetime_unix_time(dt) as int),
            (forall|j: int| 0 <= j < i ==> !moves_day(#[trigger] tps@[j])) ==> dt == current_dt,
        decreases n - i,
    {
        proof {
            assert(tps@.take(i + 1).drop_last() =~= tps@.take(i as int));
        }
        match tps[i] {
            TimePart::Tomorrow => {
                dt = match next_day(dt) {
                    Ok(next) => next,
                    Err(e) => {
                        proof {
                            lemma_no_day_stays(start, offset, tps@, i + 1);
                        }
                        return Err(e);
                    },
                };
            },
            TimePart::WeekDay(weekday) => {
                dt = match find_weekday(dt, weekday) {
                    Ok(found) => found,
                    Err(e) => {
                        proof {
                            lemma_no_day_stays(start, offset, tps@, i + 1);
                        }
                        return Err(e);
                    },
                };
            },
            _ => {},
        }
        i += 1;
    }
    proof {
        assert(tps@.take(n as int) =~= tps@);
    }
    Ok(dt)
}

/// Where the first `k` parts find no day, all of them find none.
proof fn lemma_no_day_stays(unix_time: int, offset: i32, parts: Seq<TimePart>, k: int)
    requires
        0 <= k <= parts.len(),
        moved_unix(unix_time, offset, parts.take(k)).is_none(),
    ensures
        moved_unix(unix_time, offset, parts).is_none(),
    decreases parts.len() - k,
{
    if k < parts.len() {
        assert(parts.take(k + 1).drop_last() =~= parts.take(k));
        lemma_no_day_stays(unix_time, offset, parts, k + 1);
    } else {
        assert(parts.take(k) =~= parts);
    }
}

/// The moment that the parts make of a civil time whose day has been
/// moved already: `moment_from(moved, ..)`, or `TzError` where there is no
/// such moment, because the fields name no civil time or the seconds
/// cannot be held.
pub fn moment_of_moved(moved: DateTime, tps: &[TimePart]) -> (r: Result<UnixMoment, TimeError>)
    ensures
        match moment_from(moved, tps@) {
            Some(seconds) => (r matches Ok(m) && m@ == seconds * 1_000_000_000),
            None => r == Err::<UnixMoment, TimeError>(TimeError::TzError),
        },
{
    let start = CivilFields {
        year: moved.year(),
        month: moved.month(),
        day: moved.month_day(),
        hour: moved.hour(),
        minute: moved.minute(),
        second: moved.second(),
    };
    let (fields, interval_seconds) = match apply_timeparts(start, tps) {
        Some(state) => state,
        None => {
            return Err(TimeError::TzError);
        },
    };
    let local = moved.local_time_type().clone();
    match DateTime::new(
        fields.year,
        fields.month,
        fields.day,
        fields.hour,
        fields.minute,
        fields.second,
        0,
        local,
    ) {
        Ok(new_dt) => moment_after(new_dt.unix_time(), interval_seconds),
        Err(_) => Err(TimeError::TzError),
    }
}

/// The moment that the parts make of the civil time `current_dt`. The day
/// is moved first, as `move_day` does, then the fields are set and the
/// seconds added, as `moment_of_moved` does. `TzError` says that there is
/// no such moment: a day could not be moved to, the fields name no civil
/// time, or the seconds cannot be held.
pub fn timeparts_to_unixmoment(current_dt: DateTime, tps: &[TimePart]) -> (r: Result<
    UnixMoment,
    TimeError,
>)
    ensures
        moved_unix(datetime_unix_time(current_dt) as int, offset_of(current_dt), tps@).is_none()
            ==> r == Err::<UnixMoment, TimeError>(TimeError::TzError),
        moved_unix(datetime_unix_time(current_dt) as int, offset_of(current_dt), tps@).is_some()
            ==> exists|moved: DateTime|
            {
                &&& same_zone_at(
                    current_dt,
                    moved,
                    moved_unix(
                        datetime_unix_time(current_dt) as int,
                        offset_of(current_dt),
                        tps@,
                    ).unwrap(),
                )
                &&& match #[trigger] moment_from(moved, tps@) {
                    Some(seconds) => (r matches Ok(m) && m@ == seconds * 1_000_000_000),
                    None => r == Err::<UnixMoment, TimeError>(TimeError::TzError),
                }
            },
        (forall|i: int| 0 <= i < tps@.len() ==> !moves_day(#[trigger] tps@[i])) ==> match moment_from(
            current_dt,
            tps@,
        ) {
            Some(seconds) => (r matches Ok(m) && m@ == seconds * 1_000_000_000),
            None => r == Err::<UnixMoment, TimeError>(TimeError::TzError),
        },
{
    match move_day(current_dt, tps) {
        Ok(moved) => moment_of_moved(moved, tps),
        Err(e) => Err(e),
    }
}

} // verus!
