//! Civil time in a time zone, as the `tz` crate computes it.

use vstd::prelude::*;
use tz::error::{DateTimeError, ProjectDateTimeError, TzError};
use tz::{DateTime, LocalTimeType, TimeZone, TimeZoneRef};

verus! {

/// `tz::DateTime`, a date and a time of day in a time zone.
#[verifier::external_type_specification]
#[verifier::external_body]
pub struct ExDateTime(DateTime);

/// `tz::TimeZoneRef`, a borrowed time zone.
#[verifier::external_type_specification]
#[verifier::external_body]
pub struct ExTimeZoneRef<'a>(TimeZoneRef<'a>);

/// `tz::error::ProjectDateTimeError`, which says that a time zone has no
/// civil time for a moment.
#[verifier::external_type_specification]
#[verifier::external_body]
pub struct ExProjectDateTimeError(ProjectDateTimeError);

/// `tz::LocalTimeType`, a zone's offset from UTC with its designation.
#[verifier::external_type_specification]
#[verifier::external_body]
pub struct ExLocalTimeType(LocalTimeType);

/// `tz::TimeZone`, a time zone that owns its data.
#[verifier::external_type_specification]
#[verifier::external_body]
pub struct ExTimeZone(TimeZone);

/// `tz::error::TzError`, the crate's error of any kind.
#[verifier::external_type_specification]
#[verifier::external_body]
pub struct ExTzError(TzError);

/// `tz::error::DateTimeError`, which says that a date or a time of day is
/// none.
#[verifier::external_type_specification]
#[verifier::external_body]
pub struct ExDateTimeError(DateTimeError);

/// The year that `DateTime::year` returns.
pub uninterp spec fn datetime_year(civil: DateTime) -> i32;

/// The second of the minute that `DateTime::second` returns.
pub uninterp spec fn datetime_second(civil: DateTime) -> u8;

/// The Unix time in seconds that `DateTime::unix_time` returns.
pub uninterp spec fn datetime_unix_time(civil: DateTime) -> i64;

/// The reference to the zone that `TimeZone::as_ref` returns.
pub uninterp spec fn borrowed_zone(zone: &TimeZone) -> TimeZoneRef<'_>;

/// The local time types that `TimeZoneRef::local_time_types` returns.
pub uninterp spec fn zone_local_time_types(zone: TimeZoneRef<'_>) -> Seq<LocalTimeType>;

/// The offset from UTC in seconds that `LocalTimeType::ut_offset` returns.
pub uninterp spec fn zone_offset(local: LocalTimeType) -> i32;

/// The Unix time in seconds of the civil time that `DateTime::new` builds
/// from a date, a time of day and an offset from UTC, or `None` where it
/// builds none.
pub uninterp spec fn civil_unix_time(
    year: i32,
    month: u8,
    month_day: u8,
    hour: u8,
    minute: u8,
    second: u8,
    ut_offset: i32,
) -> Option<i64>;

/// The civil time that `DateTime::from_timespec` finds in a zone for a Unix
/// time with nanoseconds, or `None` where it finds none.
pub uninterp spec fn civil_time_in(unix_time: i64, nanoseconds: u32, zone: TimeZoneRef<'_>) -> Option<
    DateTime,
>;

/// The day of the week, counted from Sunday, of the civil time that
/// `DateTime::from_timespec_and_local` builds for a Unix time and an offset
/// from UTC, or `None` where it builds none.
pub uninterp spec fn local_week_day(unix_time: i64, ut_offset: i32) -> Option<u8>;

/// The day of the week that `DateTime::week_day` returns, counted from
/// Sunday.
pub uninterp spec fn datetime_week_day(civil: DateTime) -> u8;

/// The day of the month that `DateTime::month_day` returns.
pub uninterp spec fn datetime_month_day(civil: DateTime) -> u8;

/// The month that `DateTime::month` returns, counted from one.
pub uninterp spec fn datetime_month(civil: DateTime) -> u8;

/// The hour of the day that `DateTime::hour` returns.
pub uninterp spec fn datetime_hour(civil: DateTime) -> u8;

/// The minute of the hour that `DateTime::minute` returns.
pub uninterp spec fn datetime_minute(civil: DateTime) -> u8;

/// The local time type that `DateTime::local_time_type` returns.
pub uninterp spec fn datetime_local_time_type(civil: DateTime) -> LocalTimeType;

/// The designation that `LocalTimeType::time_zone_designation` returns,
/// such as `CET`.
pub uninterp spec fn zone_designation(local: LocalTimeType) -> Seq<char>;

/// `tz::DateTime::year`: the year.
pub assume_specification[ DateTime::year ](civil: &DateTime) -> (year: i32)
    ensures
        year == datetime_year(*civil),
;

/// `tz::DateTime::second`: the seconds of the minute, documented to lie in
/// `[0, 60]`.
pub assume_specification[ DateTime::second ](civil: &DateTime) -> (second: u8)
    ensures
        second == datetime_second(*civil),
        second <= 60,
;

/// `tz::DateTime::unix_time`: the Unix time in seconds.
pub assume_specification[ DateTime::unix_time ](civil: &DateTime) -> (unix_time: i64)
    ensures
        unix_time == datetime_unix_time(*civil),
;

/// `tz::TimeZone::as_ref`: the time zone, borrowed. The crate builds the
/// reference from the zone's own data alone.
pub assume_specification<'a>[ TimeZone::as_ref ](zone: &'a TimeZone) -> (borrowed: TimeZoneRef<'a>)
    ensures
        borrowed == borrowed_zone(zone),
;

/// `tz::TimeZoneRef::local_time_types`: the zone's local time types.
pub assume_specification<'a, 'b>[ TimeZoneRef::<'a>::local_time_types ](
    zone: &'b TimeZoneRef<'a>,
) -> (types: &'a [LocalTimeType])
    ensures
        types@ == zone_local_time_types(*zone),
;

/// `tz::LocalTimeType::ut_offset`: the offset from UTC in seconds.
pub assume_specification[ LocalTimeType::ut_offset ](local: &LocalTimeType) -> (offset: i32)
    ensures
        offset == zone_offset(*local),
;

/// `tz::LocalTimeType::clone`, which the crate derives for a `Copy` type:
/// the copy is the same local time type.
pub assume_specification[ <LocalTimeType as Clone>::clone ](local: &LocalTimeType) -> (copy:
    LocalTimeType)
    ensures
        copy == *local,
;

/// `tz::DateTime::new`: the civil time with the date, the time of day and
/// the local time type given, or an error where they make none. The crate
/// keeps the arguments in the result, and computes its Unix time from the
/// date, the time of day and the offset of the local time type.
pub assume_specification[ DateTime::new ](
    year: i32,
    month: u8,
    month_day: u8,
    hour: u8,
    minute: u8,
    second: u8,
    nanoseconds: u32,
    local_time_type: LocalTimeType,
) -> (r: Result<DateTime, DateTimeError>)
    ensures
        nanoseconds < 1_000_000_000 ==> (r.is_ok() <==> civil_unix_time(
            year,
            month,
            month_day,
            hour,
            minute,
            second,
            zone_offset(local_time_type),
        ).is_some()),
        r matches Ok(civil) ==> {
            &&& Some(datetime_unix_time(civil)) == civil_unix_time(
                year,
                month,
                month_day,
                hour,
                minute,
                second,
                zone_offset(local_time_type),
            )
            &&& datetime_year(civil) == year
            &&& datetime_month(civil) == month
            &&& datetime_month_day(civil) == month_day
            &&& datetime_hour(civil) == hour
            &&& datetime_minute(civil) == minute
            &&& datetime_second(civil) == second
            &&& datetime_local_time_type(civil) == local_time_type
        },
;

/// `tz::DateTime::from_timespec_and_local`: the civil time at the Unix time
/// given, by the local time type given, or an error where the date leaves
/// the crate's range. The crate keeps both arguments in the result, and
/// computes the date, and whether there is one, from the Unix time and the
/// offset of the local time type.
pub assume_specification[ DateTime::from_timespec_and_local ](
    unix_time: i64,
    nanoseconds: u32,
    local_time_type: LocalTimeType,
) -> (r: Result<DateTime, ProjectDateTimeError>)
    ensures
        r.is_ok() <==> local_week_day(unix_time, zone_offset(local_time_type)).is_some(),
        r matches Ok(civil) ==> {
            &&& datetime_unix_time(civil) == unix_time
            &&& datetime_local_time_type(civil) == local_time_type
            &&& Some(datetime_week_day(civil)) == local_week_day(
                unix_time,
                zone_offset(local_time_type),
            )
        },
;

/// `tz::DateTime::week_day`: the days since Sunday, documented to lie in
/// `[0, 6]`.
pub assume_specification[ DateTime::week_day ](civil: &DateTime) -> (day: u8)
    ensures
        day == datetime_week_day(*civil),
        day <= 6,
;

/// `tz::DateTime::month_day`: the day of the month, documented to lie in
/// `[1, 31]`.
pub assume_specification[ DateTime::month_day ](civil: &DateTime) -> (day: u8)
    ensures
        day == datetime_month_day(*civil),
        1 <= day <= 31,
;

/// `tz::DateTime::month`: the month, documented to lie in `[1, 12]`.
pub assume_specification[ DateTime::month ](civil: &DateTime) -> (month: u8)
    ensures
        month == datetime_month(*civil),
        1 <= month <= 12,
;

/// `tz::DateTime::hour`: the hours since midnight, documented to lie in
/// `[0, 23]`.
pub assume_specification[ DateTime::hour ](civil: &DateTime) -> (hour: u8)
    ensures
        hour == datetime_hour(*civil),
        hour <= 23,
;

/// `tz::DateTime::minute`: the minutes of the hour, documented to lie in
/// `[0, 59]`.
pub assume_specification[ DateTime::minute ](civil: &DateTime) -> (minute: u8)
    ensures
        minute == datetime_minute(*civil),
        minute <= 59,
;

/// `tz::DateTime::local_time_type`: the local time type of the civil time.
pub assume_specification<'a>[ DateTime::local_time_type ](civil: &'a DateTime) -> (local:
    &'a LocalTimeType)
    ensures
        *local == datetime_local_time_type(*civil),
;

/// `tz::LocalTimeType::time_zone_designation`: the designation as text,
/// empty where the local time type has none.
pub assume_specification<'a>[ LocalTimeType::time_zone_designation ](
    local: &'a LocalTimeType,
) -> (text: &'a str)
    ensures
        text@ == zone_designation(*local),
;

/// `tz::DateTime::clone`, which the crate derives for a `Copy` type: the
/// copy is the same civil time.
pub assume_specification[ <DateTime as Clone>::clone ](civil: &DateTime) -> (copy: DateTime)
    ensures
        copy == *civil,
;

/// `tz::DateTime::from_timespec`: the civil time in the zone at the Unix
/// time given, or an error where the zone has none for it. The crate
/// computes both from the arguments alone, and keeps the Unix time in the
/// result.
pub assume_specification[ DateTime::from_timespec ](
    unix_time: i64,
    nanoseconds: u32,
    time_zone_ref: TimeZoneRef<'_>,
) -> (r: Result<DateTime, ProjectDateTimeError>)
    ensures
        r matches Ok(civil) ==> civil_time_in(unix_time, nanoseconds, time_zone_ref) == Some(
            civil,
        ) && datetime_unix_time(civil) == unix_time,
        r.is_err() ==> civil_time_in(unix_time, nanoseconds, time_zone_ref).is_none(),
;

} // verus!
