use clockd::event_loop::{begin_iteration, dispatch, dispatch_in_zone, drain_step, handle_command};
use clockd::{
    Alarm, AlarmList, AlarmSpec, AppCommand, AppEvent, MainLoopEvent, Polled, TimeError, UnixMoment,
};
use std::path::PathBuf;
use std::time::Duration;

fn spec(name: &str, end: UnixMoment) -> AlarmSpec {
    AlarmSpec::new(String::from(name), None, end)
}

fn names(alarms: &Vec<Alarm>) -> Vec<String> {
    alarms.iter().map(|a| a.name.clone()).collect()
}

#[test]
fn three_alarms_and_six_seconds() {
    let now = UnixMoment::new(1_000_000);
    let mut list = AlarmList::new();
    for (name, secs) in [("test1", 5u64), ("test2", 10), ("test3", 3620)] {
        let told = handle_command(&mut list, AppCommand::Add(spec(name, now + Duration::from_secs(secs))), now, false);
        assert!(matches!(told, Some(AppEvent::AlarmListUpdate)));
    }
    let plan = begin_iteration(&mut list, now);
    assert!(plan.rings.is_empty());
    assert_eq!(plan.alarm_timer, Some(Duration::from_secs(5)));
    assert!(plan.tick);

    let mut rang = 0;
    for second in 1..=6u64 {
        let plan = begin_iteration(&mut list, now + Duration::from_secs(second));
        rang += plan.rings.len();
        if second == 5 {
            assert!(matches!(&plan.rings[0], AppEvent::Ring(a) if a.name == "test1"));
            assert_eq!(plan.alarm_timer, Some(Duration::from_secs(5)));
        }
    }
    assert_eq!(rang, 1);
    assert_eq!(list.pending_len(), 2);
    assert_eq!(list.alarming_len(), 1);
    assert!(matches!(list.lead_alarming(), Some(a) if a.name == "test1"));
}

#[test]
fn one_sweep_after_six_seconds() {
    let now = UnixMoment::new(1_000_000);
    let mut list = AlarmList::new();
    for (name, secs) in [("test1", 5u64), ("test2", 10), ("test3", 3620)] {
        handle_command(&mut list, AppCommand::Add(spec(name, now + Duration::from_secs(secs))), now, false);
    }
    let plan = begin_iteration(&mut list, now + Duration::from_secs(6));
    assert_eq!(plan.rings.len(), 1);
    assert!(matches!(&plan.rings[0], AppEvent::Ring(a) if a.name == "test1"));
    assert_eq!(list.pending_len(), 2);
    assert_eq!(list.alarming_len(), 1);
    assert_eq!(plan.alarm_timer, Some(Duration::from_secs(4)));
    assert!(plan.tick);
}

#[test]
fn nothing_pending_arms_nothing() {
    let mut list = AlarmList::new();
    let plan = begin_iteration(&mut list, UnixMoment::new(1_000));
    assert!(plan.rings.is_empty());
    assert_eq!(plan.alarm_timer, None);
    assert!(!plan.tick);
}

#[test]
fn the_tick_runs_only_near_an_end_or_while_ringing() {
    let now = UnixMoment::new(1_000);
    let mut list = AlarmList::new();
    handle_command(&mut list, AppCommand::Add(spec("far", now + Duration::new(3600, 1))), now, false);
    let plan = begin_iteration(&mut list, now);
    assert_eq!(plan.alarm_timer, Some(Duration::new(3600, 1)));
    assert!(!plan.tick);

    let plan = begin_iteration(&mut list, now + Duration::new(0, 1));
    assert_eq!(plan.alarm_timer, Some(Duration::new(3600, 0)));
    assert!(plan.tick);

    let mut list = AlarmList::new();
    handle_command(&mut list, AppCommand::Add(spec("soon", now + Duration::from_secs(2))), now, false);
    handle_command(&mut list, AppCommand::Add(spec("far", now + Duration::from_secs(90_000))), now, false);
    let plan = begin_iteration(&mut list, now + Duration::from_secs(2));
    assert_eq!(plan.rings.len(), 1);
    assert_eq!(plan.alarm_timer, Some(Duration::from_secs(89_998)));
    assert!(plan.tick);
    handle_command(&mut list, AppCommand::Acknowledge, now, false);
    let plan = begin_iteration(&mut list, now + Duration::from_secs(3));
    assert!(plan.rings.is_empty());
    assert!(!plan.tick);
}

#[test]
fn rings_come_in_the_order_of_the_ends() {
    let now = UnixMoment::new(1_000);
    let mut list = AlarmList::new();
    handle_command(&mut list, AppCommand::Add(spec("b", now + Duration::from_secs(20))), now, false);
    handle_command(&mut list, AppCommand::Add(spec("a", now + Duration::from_secs(10))), now, false);
    handle_command(&mut list, AppCommand::Add(spec("c", now + Duration::from_secs(20))), now, false);
    let plan = begin_iteration(&mut list, now + Duration::from_secs(20));
    let rang: Vec<String> = plan
        .rings
        .iter()
        .map(|e| match e {
            AppEvent::Ring(a) => a.name.clone(),
            _ => String::from("?"),
        })
        .collect();
    assert_eq!(rang, vec!["a", "b", "c"]);
    assert_eq!(names(list.alarming()), vec!["a", "b", "c"]);
}

#[test]
fn a_tick_never_ends_the_round() {
    assert!(matches!(drain_step(MainLoopEvent::Tick), Polled::Broadcast(AppEvent::Tick)));
    assert!(matches!(drain_step(MainLoopEvent::Minute), Polled::Leave(MainLoopEvent::Minute)));
    assert!(matches!(drain_step(MainLoopEvent::AlarmTimer), Polled::Leave(MainLoopEvent::AlarmTimer)));
    assert!(matches!(drain_step(MainLoopEvent::NewListener), Polled::Leave(MainLoopEvent::NewListener)));
    assert!(matches!(
        drain_step(MainLoopEvent::Command(AppCommand::Acknowledge)),
        Polled::Leave(MainLoopEvent::Command(AppCommand::Acknowledge))
    ));
}

#[test]
fn a_request_that_is_turned_down_changes_nothing() {
    let now = UnixMoment::new(1_000);
    let mut list = AlarmList::new();
    let past = AppCommand::Add(spec("past", UnixMoment::new(999)));
    assert!(handle_command(&mut list, past, now, true).is_none());
    let silent = AppCommand::Add(AlarmSpec::new(String::from("x"), Some(PathBuf::from("/nowhere")), UnixMoment::new(2_000)));
    assert!(handle_command(&mut list, silent, now, false).is_none());
    assert_eq!(list.pending_len(), 0);
    let heard = AppCommand::Add(AlarmSpec::new(String::from("x"), Some(PathBuf::from("/there")), UnixMoment::new(2_000)));
    assert!(matches!(handle_command(&mut list, heard, now, true), Some(AppEvent::AlarmListUpdate)));
    assert_eq!(list.pending_len(), 1);
}

#[test]
fn commands_change_the_list_and_tell_the_listeners() {
    let now = UnixMoment::new(1_000);
    let mut list = AlarmList::new();
    handle_command(&mut list, AppCommand::Add(spec("a", UnixMoment::new(1_010))), now, false);
    handle_command(&mut list, AppCommand::Add(spec("b", UnixMoment::new(1_020))), UnixMoment::new(1_001), false);
    assert!(matches!(handle_command(&mut list, AppCommand::SwitchDisplay, now, false), Some(AppEvent::SwitchDisplay)));
    assert_eq!(list.pending_len(), 2);
    assert!(matches!(
        handle_command(&mut list, AppCommand::Remove(UnixMoment::new(1_001)), now, false),
        Some(AppEvent::AlarmListUpdate)
    ));
    assert_eq!(names(list.pending()), vec!["a"]);
    begin_iteration(&mut list, UnixMoment::new(1_010));
    assert_eq!(list.alarming_len(), 1);
    assert!(matches!(
        handle_command(&mut list, AppCommand::Remove(UnixMoment::new(1_000)), now, false),
        Some(AppEvent::AlarmListUpdate)
    ));
    assert_eq!(list.alarming_len(), 1);
    assert!(matches!(handle_command(&mut list, AppCommand::Acknowledge, now, false), Some(AppEvent::Ack)));
    assert_eq!(list.alarming_len(), 0);
}

#[test]
fn dispatch_by_source() {
    let now = UnixMoment::new(1_000);
    let mut list = AlarmList::new();
    assert!(matches!(dispatch(&mut list, MainLoopEvent::AlarmTimer, None, now, false), Ok(None)));
    assert!(matches!(dispatch(&mut list, MainLoopEvent::NewListener, None, now, false), Ok(Some(AppEvent::NewListener))));
    assert!(matches!(dispatch(&mut list, MainLoopEvent::Tick, None, now, false), Ok(Some(AppEvent::Tick))));
    assert!(matches!(dispatch(&mut list, MainLoopEvent::Minute, None, now, false), Err(TimeError::TzError)));
    let utc = tz::TimeZone::utc();
    let civil = now.as_datetime(utc.as_ref());
    assert!(matches!(
        dispatch(&mut list, MainLoopEvent::Minute, civil, now, false),
        Ok(Some(AppEvent::Minute(dt))) if dt.unix_time() == 1_000
    ));
    let add = MainLoopEvent::Command(AppCommand::Add(spec("a", UnixMoment::new(1_010))));
    assert!(matches!(dispatch(&mut list, add, None, now, false), Ok(Some(AppEvent::AlarmListUpdate))));
    assert_eq!(list.pending_len(), 1);
}

#[test]
fn dispatch_in_a_zone_looks_up_the_minute() {
    let now = UnixMoment::new(3_600 * 5 + 60 * 7);
    let mut list = AlarmList::new();
    let utc = tz::TimeZone::utc();
    let told = dispatch_in_zone(&mut list, MainLoopEvent::Minute, now, false, utc.as_ref());
    assert!(matches!(told, Ok(Some(AppEvent::Minute(dt))) if dt.hour() == 5 && dt.minute() == 7));
    let told = dispatch_in_zone(&mut list, MainLoopEvent::Command(AppCommand::Acknowledge), now, false, utc.as_ref());
    assert!(matches!(told, Ok(Some(AppEvent::Ack))));
}

#[test]
fn the_alarm_timer_runs_to_the_end_of_the_next_alarm() {
    let now = UnixMoment::new(1_000);
    let mut list = AlarmList::new();
    handle_command(&mut list, AppCommand::Add(spec("a", UnixMoment::new(1_005))), now, false);
    let plan = begin_iteration(&mut list, UnixMoment::new(1_004) + Duration::new(0, 999_999_999));
    assert!(plan.rings.is_empty());
    assert_eq!(plan.alarm_timer, Some(Duration::new(0, 1)));
    assert_eq!(list.pending_len(), 1);
    let plan = begin_iteration(&mut list, UnixMoment::new(1_005));
    assert_eq!(plan.rings.len(), 1);
    assert_eq!(plan.alarm_timer, None);
}
