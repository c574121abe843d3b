//! Civil times as short text.

use vstd::prelude::*;
use vstd::string::StringExecFns;
use tz::{DateTime, TimeZone, TimeZoneRef};
use crate::alarm::Alarm;
use crate::error::TimeError;
use crate::moment::UnixMoment;
use crate::text::{push_two_digits, two_digits};
use crate::zone::{
    borrowed_zone, civil_time_in, datetime_hour, datetime_local_time_type, datetime_minute,
    datetime_month, datetime_month_day, datetime_week_day, zone_designation, zone_local_time_types,
};

verus! {

/// The three letters of a day of the week, counted from Sunday as zero, or
/// `???` for a number that is none.
pub open spec fn dow_name(dow: u8) -> Seq<char> {
    match dow {
        0 => "Sun"@,
        1 => "Mon"@,
        2 => "Tue"@,
        3 => "Wed"@,
        4 => "Thu"@,
        5 => "Fri"@,
        6 => "Sat"@,
        _ => "???"@,
    }
}

/// The three letters of a month, counted from January as one, or `???` for
/// a number that is none.
pub open spec fn mon_name(mon: u8) -> Seq<char> {
    match mon {
        1 => "Jan"@,
        2 => "Feb"@,
        3 => "Mar"@,
        4 => "Apr"@,
        5 => "May"@,
        6 => "Jun"@,
        7 => "Jul"@,
        8 => "Aug"@,
        9 => "Sep"@,
        10 => "Oct"@,
        11 => "Nov"@,
        12 => "Dec"@,
        _ => "???"@,
    }
}

/// A civil time as text: day of the week, day of the month, month, hour
/// and minute, as in `Tue 04 Mar 09:05`.
pub open spec fn datetime_text(week_day: u8, month_day: u8, month: u8, hour: u8, minute: u8) -> Seq<
    char,
> {
    dow_name(week_day) + " "@ + two_digits(month_day as nat) + " "@ + mon_name(month) + " "@
        + two_digits(hour as nat) + ":"@ + two_digits(minute as nat)
}

/// The three letters of a day of the week.
pub fn dow_to_str(dow: u8) -> (name: &'static str)
    ensures
        name@ == dow_name(dow),
{
    match dow {
        0 => "Sun",
        1 => "Mon",
        2 => "Tue",
        3 => "Wed",
        4 => "Thu",
        5 => "Fri",
        6 => "Sat",
        _ => "???",
    }
}

/// The three letters of a month.
pub fn mon_to_str(mon: u8) -> (name: &'static str)
    ensures
        name@ == mon_name(mon),
{
    match mon {
        1 => "Jan",
        2 => "Feb",
        3 => "Mar",
        4 => "Apr",
        5 => "May",
        6 => "Jun",
        7 => "Jul",
        8 => "Aug",
        9 => "Sep",
        10 => "Oct",
        11 => "Nov",
        12 => "Dec",
        _ => "???",
    }
}

/// The text of a civil time given by its parts.
pub fn format_datetime(week_day: u8, month_day: u8, month: u8, hour: u8, minute: u8) -> (text:
    String)
    ensures
        text@ == datetime_text(week_day, month_day, month, hour, minute),
{
    let mut text = String::from_str(dow_to_str(week_day));
    text.append(" ");
    push_two_digits(&mut text, month_day as u64);
    text.append(" ");
    text.append(mon_to_str(month));
    text.append(" ");
    push_two_digits(&mut text, hour as u64);
    text.append(":");
    push_two_digits(&mut text, minute as u64);
    proof {
        assert(text@ =~= datetime_text(week_day, month_day, month, hour, minute));
    }
    text
}

/// The civil time as text, as in `Tue 04 Mar 09:05`.
pub fn humanize_datetime(dt: DateTime) -> (text: String)
    ensures
        text@ == datetime_text(
            datetime_week_day(dt),
            datetime_month_day(dt),
            datetime_month(dt),
            datetime_hour(dt),
            datetime_minute(dt),
        ),
{
    format_datetime(dt.week_day(), dt.month_day(), dt.month(), dt.hour(), dt.minute())
}

/// The civil time as text, followed by the designation of its zone, as in
/// `Tue 04 Mar 09:05 CET`.
pub fn humanize_datetime_full(dt: DateTime) -> (text: String)
    ensures
        text@ == datetime_text(
            datetime_week_day(dt),
            datetime_month_day(dt),
            datetime_month(dt),
            datetime_hour(dt),
            datetime_minute(dt),
        ) + " "@ + zone_designation(datetime_local_time_type(dt)),
{
    let mut text = humanize_datetime(dt);
    text.append(" ");
    text.append(dt.local_time_type().time_zone_designation());
    text
}

/// The designation of a zone's last local time type, or nothing where it
/// has none.
pub open spec fn zone_label_text(zone: TimeZoneRef<'_>) -> Seq<char> {
    if zone_local_time_types(zone).len() > 0 {
        zone_designation(zone_local_time_types(zone).last())
    } else {
        Seq::empty()
    }
}

/// The designation of a zone's last local time type as text.
pub fn zone_label(zone: TimeZoneRef<'_>) -> (label: String)
    ensures
        label@ == zone_label_text(zone),
{
    let types = zone.local_time_types();
    let n = types.len();
    if n > 0 {
        String::from_str(types[n - 1].time_zone_designation())
    } else {
        String::new()
    }
}

/// What a display is given to show: the civil time in a zone, and the
/// alarm that ends next.
#[derive(Debug)]
pub struct DisplayUpdate {
    /// The zone of the civil time.
    pub timezone: TimeZone,
    /// The civil time.
    pub dt: DateTime,
    /// The alarm that ends next, if one is pending.
    pub next_alarm: Option<Alarm>,
}

impl DisplayUpdate {
    /// The update for the moment `now` in `timezone`, with the civil time
    /// that the `tz` crate finds there for the moment's whole seconds, or
    /// `TzError` where the zone has none.
    pub fn new(now: UnixMoment, timezone: TimeZone, next_alarm: Option<Alarm>) -> (r: Result<
        Self,
        TimeError,
    >)
        ensures
            r.is_ok() <==> civil_time_in(
                now.whole_seconds() as i64,
                0,
                borrowed_zone(&timezone),
            ).is_some(),
            r matches Ok(update) ==> {
                &&& update.timezone == timezone
                &&& update.next_alarm == next_alarm
                &&& Some(update.dt) == civil_time_in(
                    now.whole_seconds() as i64,
                    0,
                    borrowed_zone(&timezone),
                )
            },
            r matches Err(e) ==> e == TimeError::TzError,
    {
        match now.as_datetime(timezone.as_ref()) {
            Some(dt) => Ok(DisplayUpdate { timezone, dt, next_alarm }),
            None => Err(TimeError::TzError),
        }
    }
}

} // verus!
