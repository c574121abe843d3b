use clockd::{Alarm, AlarmEvent, AlarmSpec, AlarmSpecError, AlarmState, UnixMoment};
use std::path::PathBuf;
use std::time::Duration;

fn alarm(end: i64) -> Alarm {
    Alarm::created_at(String::from("tea"), None, UnixMoment::new(end), UnixMoment::new(1))
}

#[test]
fn a_new_alarm_waits() {
    let a = Alarm::created_at(
        String::from("tea"),
        Some(PathBuf::from("/tmp/bell")),
        UnixMoment::new(100),
        UnixMoment::new(40),
    );
    assert_eq!(a.name, "tea");
    assert_eq!(a.soundfile, Some(PathBuf::from("/tmp/bell")));
    assert_eq!(a.end_t, UnixMoment::new(100));
    assert_eq!(a.creation_t, UnixMoment::new(40));
    assert_eq!(a.state, AlarmState::Waiting);
    assert!(a.is_running());
}

#[test]
fn a_look_before_the_end_starts_the_alarm() {
    let mut a = alarm(100);
    let event = a.update_with_current_time(UnixMoment::new(50));
    assert!(matches!(event, Some(AlarmEvent::Started(ref s)) if s.state == AlarmState::Started && s.name == "tea"));
    assert_eq!(a.state, AlarmState::Started);
    assert!(a.is_running());
    assert!(a.update_with_current_time(UnixMoment::new(50)).is_none());
    assert!(a.update_with_current_time(UnixMoment::new(98)).is_none());
    assert_eq!(a.state, AlarmState::Started);
}

#[test]
fn a_look_at_the_end_rings_once() {
    let mut a = alarm(100);
    let event = a.update_with_current_time(UnixMoment::new(100));
    assert!(matches!(event, Some(AlarmEvent::Now(ref s)) if s.state == AlarmState::Done && s.end_t == UnixMoment::new(100)));
    assert_eq!(a.state, AlarmState::Done);
    assert!(!a.is_running());
    assert!(a.update_with_current_time(UnixMoment::new(100)).is_none());
    assert!(a.update_with_current_time(UnixMoment::new(500)).is_none());
    assert_eq!(a.state, AlarmState::Done);
}

#[test]
fn a_started_alarm_rings_at_its_end() {
    let mut a = alarm(100);
    assert!(matches!(a.update_with_current_time(UnixMoment::new(10)), Some(AlarmEvent::Started(_))));
    assert!(matches!(a.update_with_current_time(UnixMoment::new(101)), Some(AlarmEvent::Now(_))));
    assert_eq!(a.state, AlarmState::Done);
}

#[test]
fn an_alarm_with_time_left_has_not_rung() {
    let mut a = Alarm::created_at(String::new(), None, UnixMoment::new(11), UnixMoment::new(1));
    let now = UnixMoment::from(Duration::new(10, 500_000_000));
    let r = a.update_with_current_time(now);
    assert!(matches!(r, Some(AlarmEvent::Started(_))) && a.is_running());
    let just_before = UnixMoment::new(10) + Duration::new(0, 999_999_999);
    assert!(a.update_with_current_time(just_before).is_none());
    assert!(a.is_running());
    assert!(matches!(a.update_with_current_time(UnixMoment::new(11)), Some(AlarmEvent::Now(_))));
    assert!(!a.is_running());
}

#[test]
fn an_alarm_rings_a_nanosecond_past_its_end() {
    let mut a = alarm(100);
    let just_after = UnixMoment::new(100) + Duration::new(0, 1);
    assert!(matches!(a.update_with_current_time(just_after), Some(AlarmEvent::Now(_))));
    assert_eq!(a.state, AlarmState::Done);
}

#[test]
fn an_alarm_that_ends_after_its_creation() {
    let created = UnixMoment::new(1_000);
    let a = Alarm::ending_after(String::from("tea"), None, Duration::new(90, 5), created);
    assert!(matches!(a, Ok(ref x) if x.creation_t == created
        && x.end_t == UnixMoment::new(1_090) + Duration::new(0, 5)
        && x.state == AlarmState::Waiting
        && x.name == "tea"
        && x.soundfile.is_none()));
    let last = Alarm::ending_after(String::new(), None, Duration::new(i64::MAX as u64 - 1_000, 999_999_999), created);
    assert!(matches!(last, Ok(ref x) if x.end_t.seconds() == i64::MAX && x.end_t.subsec_nanos() == 999_999_999));
    let beyond = Alarm::ending_after(String::new(), None, Duration::new(i64::MAX as u64 - 999, 0), created);
    assert!(matches!(beyond, Err(clockd::TimeError::SystemTimeError)));
}

#[test]
fn done_is_never_left() {
    let mut a = alarm(100);
    a.state = AlarmState::Done;
    assert!(a.update_with_current_time(UnixMoment::new(10)).is_none());
    assert_eq!(a.state, AlarmState::Done);
    assert!(a.update_with_current_time(UnixMoment::new(200)).is_none());
    assert_eq!(a.state, AlarmState::Done);
}

#[test]
fn alarms_from_the_clock() {
    let a = Alarm::new_from_unixmoment(String::from("a"), None, UnixMoment::new(5));
    assert!(matches!(a, Ok(ref x) if x.end_t == UnixMoment::new(5) && x.state == AlarmState::Waiting && x.name == "a"));
    let b = Alarm::new_from_durations(String::from("b"), None, Duration::new(90, 5));
    assert!(matches!(b, Ok(ref x) if x.creation_t.duration_until(x.end_t) == Some(Duration::new(90, 5))));
    let c = Alarm::new_from_durations(String::from("c"), None, Duration::new(u64::MAX, 0));
    assert!(c.is_err());
}

#[test]
fn a_clone_is_the_same_alarm() {
    let a = Alarm::created_at(
        String::from("tea"),
        Some(PathBuf::from("/tmp/bell")),
        UnixMoment::new(100),
        UnixMoment::new(40),
    );
    let b = a.clone();
    assert_eq!(b.name, a.name);
    assert_eq!(b.soundfile, a.soundfile);
    assert_eq!(b.end_t, a.end_t);
    assert_eq!(b.creation_t, a.creation_t);
    assert_eq!(b.state, a.state);
    let event = AlarmEvent::Now(a);
    assert!(matches!(event.clone(), AlarmEvent::Now(ref x) if x.name == "tea"));
}

#[test]
fn a_request_becomes_a_waiting_alarm() {
    let spec = AlarmSpec::new(String::from("tea"), None, UnixMoment::new(100));
    let a = Alarm::from_spec(spec, UnixMoment::new(60), false);
    assert!(matches!(a, Ok(ref x) if x.name == "tea"
        && x.end_t == UnixMoment::new(100)
        && x.creation_t == UnixMoment::new(60)
        && x.state == AlarmState::Waiting
        && x.soundfile.is_none()));
    let spec = AlarmSpec::new(String::from("now"), None, UnixMoment::new(60));
    assert!(Alarm::from_spec(spec, UnixMoment::new(60), false).is_ok());
}

#[test]
fn a_request_for_the_past_is_turned_down() {
    let spec = AlarmSpec::new(String::from("tea"), None, UnixMoment::new(59));
    assert!(matches!(Alarm::from_spec(spec, UnixMoment::new(60), true), Err(AlarmSpecError::EndTimeInPast)));
    let spec = AlarmSpec::new(String::from("tea"), Some(PathBuf::from("x")), UnixMoment::new(59));
    assert!(matches!(Alarm::from_spec(spec, UnixMoment::new(60), false), Err(AlarmSpecError::EndTimeInPast)));
}

#[test]
fn a_request_without_its_sound_file_is_turned_down() {
    let spec = AlarmSpec::new(String::from("tea"), Some(PathBuf::from("x")), UnixMoment::new(100));
    assert!(matches!(Alarm::from_spec(spec.clone(), UnixMoment::new(60), false), Err(AlarmSpecError::SoundfileNotExist)));
    let a = Alarm::from_spec(spec, UnixMoment::new(60), true);
    assert!(matches!(a, Ok(ref x) if x.soundfile == Some(PathBuf::from("x"))));
}

#[test]
fn request_errors_have_names() {
    assert_eq!(AlarmSpecError::EndTimeInPast.message(), "EndTimeInPast");
    assert_eq!(AlarmSpecError::SoundfileNotExist.message(), "SoundfileNotExist");
}
