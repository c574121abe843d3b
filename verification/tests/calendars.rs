use clockd::calendar::{
    apply_timeparts, find_weekday, moment_after, moment_of_moved, move_day, next_day, timeparts_to_unixmoment,
    CivilFields,
};
use clockd::{TimeError, TimePart, UnixMoment};

fn monday_morning() -> tz::DateTime {
    let utc = tz::TimeZone::utc();
    UnixMoment::new(1_709_543_100).as_datetime(utc.as_ref()).unwrap()
}

fn fields() -> CivilFields {
    CivilFields { year: 2024, month: 3, day: 4, hour: 9, minute: 5, second: 0 }
}

#[test]
fn parts_set_their_fields() {
    let (f, sum) = apply_timeparts(fields(), &[TimePart::HM(13, 45)]).unwrap();
    assert_eq!(f, CivilFields { year: 2024, month: 3, day: 4, hour: 13, minute: 45, second: 0 });
    assert_eq!(sum, 0);
    let (f, _) = apply_timeparts(fields(), &[TimePart::MD(9, 12), TimePart::Year(1992)]).unwrap();
    assert_eq!(f, CivilFields { year: 1992, month: 9, day: 12, hour: 9, minute: 5, second: 0 });
    let (f, _) = apply_timeparts(fields(), &[TimePart::Month(8), TimePart::YMD(2030, 1, 2), TimePart::Month(7)]).unwrap();
    assert_eq!(f, CivilFields { year: 2030, month: 7, day: 2, hour: 9, minute: 5, second: 0 });
    let (f, sum) = apply_timeparts(fields(), &[TimePart::Today, TimePart::Tomorrow, TimePart::WeekDay(3)]).unwrap();
    assert_eq!((f, sum), (fields(), 0));
    assert_eq!(apply_timeparts(fields(), &[]), Some((fields(), 0)));
}

#[test]
fn parts_add_up_their_seconds() {
    let parts = [TimePart::Hours(54), TimePart::Minutes(10), TimePart::Seconds(-7), TimePart::Hours(-1)];
    assert_eq!(apply_timeparts(fields(), &parts), Some((fields(), 54 * 3600 + 600 - 7 - 3600)));
    assert_eq!(apply_timeparts(fields(), &[TimePart::Seconds(i64::MAX)]), Some((fields(), i64::MAX)));
    assert_eq!(apply_timeparts(fields(), &[TimePart::Seconds(i64::MAX), TimePart::Seconds(1)]), None);
    assert_eq!(apply_timeparts(fields(), &[TimePart::Seconds(i64::MAX), TimePart::Seconds(1), TimePart::Seconds(-5)]), None);
    assert_eq!(apply_timeparts(fields(), &[TimePart::Hours(i64::MAX / 3600 + 1)]), None);
    assert_eq!(apply_timeparts(fields(), &[TimePart::Hours(i64::MAX / 3600)]), Some((fields(), i64::MAX / 3600 * 3600)));
    assert_eq!(apply_timeparts(fields(), &[TimePart::Minutes(i64::MIN / 60 - 1)]), None);
}

#[test]
fn a_moment_after_a_unix_time() {
    assert!(matches!(moment_after(100, 20), Ok(m) if m == UnixMoment::new(120)));
    assert!(matches!(moment_after(i64::MAX, 0), Ok(m) if m == UnixMoment::new(i64::MAX)));
    assert!(matches!(moment_after(i64::MAX, 1), Err(TimeError::TzError)));
    assert!(matches!(moment_after(i64::MIN, -1), Err(TimeError::TzError)));
    assert!(matches!(moment_after(i64::MIN, i64::MAX), Ok(m) if m == UnixMoment::new(-1)));
}

#[test]
fn the_next_day() {
    let next = next_day(monday_morning()).unwrap();
    assert_eq!(next.unix_time(), 1_709_543_100 + 86_400);
    assert_eq!((next.month_day(), next.hour(), next.minute(), next.week_day()), (5, 9, 5, 2));
    assert_eq!(next.local_time_type().ut_offset(), 0);
}

#[test]
fn the_next_day_of_a_name() {
    let wednesday = find_weekday(monday_morning(), 3).unwrap();
    assert_eq!(wednesday.unix_time(), 1_709_715_900);
    let monday = find_weekday(monday_morning(), 1).unwrap();
    assert_eq!(monday.unix_time(), 1_710_147_900);
    let sunday = find_weekday(monday_morning(), 0).unwrap();
    assert_eq!(sunday.unix_time(), 1_710_061_500);
    assert!(matches!(find_weekday(monday_morning(), 7), Err(TimeError::TzError)));
}

#[test]
fn parts_move_the_day() {
    let moved = move_day(monday_morning(), &[TimePart::HM(1, 2), TimePart::Hours(5)]).unwrap();
    assert_eq!(moved.unix_time(), 1_709_543_100);
    let moved = move_day(monday_morning(), &[TimePart::Tomorrow, TimePart::Tomorrow]).unwrap();
    assert_eq!(moved.unix_time(), 1_709_543_100 + 2 * 86_400);
    let moved = move_day(monday_morning(), &[TimePart::Tomorrow, TimePart::WeekDay(2)]).unwrap();
    assert_eq!(moved.unix_time(), 1_709_543_100 + 8 * 86_400);
    assert!(move_day(monday_morning(), &[TimePart::WeekDay(9)]).is_err());
}

#[test]
fn written_times_as_moments() {
    let at = |parts: &[TimePart]| timeparts_to_unixmoment(monday_morning(), parts);
    assert!(matches!(at(&[]), Ok(m) if m == UnixMoment::new(1_709_543_100)));
    assert!(matches!(at(&[TimePart::Tomorrow, TimePart::HM(13, 45)]), Ok(m) if m == UnixMoment::new(1_709_646_300)));
    assert!(matches!(at(&[TimePart::Hours(54), TimePart::Minutes(10)]), Ok(m) if m == UnixMoment::new(1_709_738_100)));
    assert!(matches!(at(&[TimePart::MD(9, 12), TimePart::Year(1992)]), Ok(m) if m == UnixMoment::new(716_288_700)));
    assert!(matches!(at(&[TimePart::WeekDay(3)]), Ok(m) if m == UnixMoment::new(1_709_715_900)));
    assert!(matches!(at(&[TimePart::Month(8)]), Ok(m) if m == UnixMoment::new(1_722_762_300)));
    assert!(matches!(at(&[TimePart::MD(2, 29)]), Ok(m) if m == UnixMoment::new(1_709_197_500)));
    assert!(matches!(at(&[TimePart::Today, TimePart::Seconds(30)]), Ok(m) if m == UnixMoment::new(1_709_543_130)));
}

#[test]
fn written_times_that_are_none() {
    let at = |parts: &[TimePart]| timeparts_to_unixmoment(monday_morning(), parts);
    assert!(matches!(at(&[TimePart::MD(2, 30)]), Err(TimeError::TzError)));
    assert!(matches!(at(&[TimePart::MD(2, 29), TimePart::Year(2023)]), Err(TimeError::TzError)));
    assert!(matches!(at(&[TimePart::HM(24, 0)]), Err(TimeError::TzError)));
    assert!(matches!(at(&[TimePart::HM(12, 60)]), Err(TimeError::TzError)));
    assert!(matches!(at(&[TimePart::Month(13)]), Err(TimeError::TzError)));
    assert!(matches!(at(&[TimePart::WeekDay(7)]), Err(TimeError::TzError)));
    assert!(matches!(at(&[TimePart::Seconds(i64::MAX)]), Err(TimeError::TzError)));
    assert!(matches!(at(&[TimePart::Hours(i64::MAX)]), Err(TimeError::TzError)));
}

#[test]
fn written_times_in_a_zone() {
    let cet = tz::LocalTimeType::new(3600, false, Some(b"CET")).unwrap();
    let zone = tz::TimeZone::new(vec![], vec![cet], vec![], None).unwrap();
    let now = UnixMoment::new(1_709_543_100).as_datetime(zone.as_ref()).unwrap();
    assert_eq!(now.hour(), 10);
    let m = timeparts_to_unixmoment(now, &[TimePart::HM(13, 45)]);
    assert!(matches!(m, Ok(m) if m == UnixMoment::new(1_709_510_400 + 13 * 3600 + 45 * 60 - 3600)));
    let m = timeparts_to_unixmoment(now, &[TimePart::Tomorrow]);
    assert!(matches!(m, Ok(m) if m == UnixMoment::new(1_709_543_100 + 86_400)));
}

#[test]
fn a_moved_day_keeps_its_date() {
    let m = moment_of_moved(monday_morning(), &[TimePart::Tomorrow, TimePart::HM(13, 45)]);
    assert!(matches!(m, Ok(m) if m == UnixMoment::new(1_709_510_400 + 13 * 3600 + 45 * 60)));
    let m = moment_of_moved(monday_morning(), &[TimePart::WeekDay(9), TimePart::Minutes(1)]);
    assert!(matches!(m, Ok(m) if m == UnixMoment::new(1_709_543_160)));
    assert!(matches!(moment_of_moved(monday_morning(), &[TimePart::MD(4, 31)]), Err(TimeError::TzError)));
}
