use clockd::waybar::{
    tooltip_section, update_display, update_text_alarm, update_text_clock, update_tooltip, WaybarDisplay,
    WaybarDisplayMode, WaybarUpdate,
};
use clockd::{Alarm, AlarmList, AppEvent, UnixMoment};

fn alarm(name: &str, end: i64, created: i64) -> Alarm {
    Alarm::created_at(String::from(name), None, UnixMoment::new(end), UnixMoment::new(created))
}

fn list() -> AlarmList {
    let mut list = AlarmList::new();
    list.add(alarm("tea", 1_300, 1));
    list.add(alarm("rice", 1_090, 2));
    list.add(alarm("cake", 5_000, 3));
    list.update_with_current_time(UnixMoment::new(1_100));
    list
}

const RULE: &str = "--------------------";

#[test]
fn a_section_heading() {
    let mut text = String::from(">");
    tooltip_section(&mut text, "Pending Alarms");
    assert_eq!(text, format!(">Pending Alarms:\n{RULE}\n"));
}

#[test]
fn the_clock_on_the_bar() {
    let mut update = WaybarUpdate::new(UnixMoment::new(1_100));
    update.time_display = String::from("Thu 01 Jan 00:18");
    update_text_clock(&mut update, 2);
    assert_eq!(update.text, " 2\u{23f2}  Thu 01 Jan 00:18");
    update_text_clock(&mut update, 12);
    assert_eq!(update.text, "12\u{23f2}  Thu 01 Jan 00:18");
}

#[test]
fn an_alarm_on_the_bar() {
    let mut update = WaybarUpdate::new(UnixMoment::new(1_100));
    let tea = alarm("tea", 1_300, 1);
    update_text_alarm(&mut update, 2, Some(&tea), UnixMoment::new(1_100));
    assert_eq!(update.text, " 2\u{23f2}  tea 3m 20s");
    update_text_alarm(&mut update, 2, Some(&tea), UnixMoment::new(1_310));
    assert_eq!(update.text, " 2\u{23f2}  tea 10s ago");
    update_text_alarm(&mut update, 0, None, UnixMoment::new(1_310));
    assert_eq!(update.text, " 0\u{23f2}  NO ALARM 0s");
}

#[test]
fn the_tooltip_lists_all_alarms() {
    let list = list();
    let mut update = WaybarUpdate::new(UnixMoment::new(1_100));
    update.time_display_full = String::from("Thu 01 Jan 00:18 UTC");
    update_tooltip(&list, &mut update);
    let expected = format!(
        "Pending Alarms:\n{RULE}\ntea 3m 20s\ncake 1h 5m\nCurrent Alarms:\n{RULE}\nrice 10s ago\n{RULE}\nThu 01 Jan 00:18 UTC\n"
    );
    assert_eq!(update.tooltip, expected);
}

#[test]
fn the_display_by_mode() {
    let list = list();
    let mut update = WaybarUpdate::new(UnixMoment::new(1_100));
    update.time_display = String::from("clock");
    update_display(&mut update, &list, WaybarDisplayMode::Clock);
    assert_eq!(update.text, " 2\u{23f2}  clock");
    update_display(&mut update, &list, WaybarDisplayMode::NextPending);
    assert_eq!(update.text, " 2\u{23f2}  tea 3m 20s");
    update_display(&mut update, &list, WaybarDisplayMode::LeadAlarm);
    assert_eq!(update.text, " 2\u{23f2}  rice 10s ago");
    assert!(update.tooltip.starts_with("Pending Alarms:\n"));
    let empty = AlarmList::new();
    update_display(&mut update, &empty, WaybarDisplayMode::NextPending);
    assert_eq!(update.text, " 0\u{23f2}  NO ALARM 0s");
    assert_eq!(update.tooltip, format!("Pending Alarms:\n{RULE}\nCurrent Alarms:\n{RULE}\n{RULE}\n\n"));
}

#[test]
fn the_time_is_brought_up_to_date() {
    let utc = tz::TimeZone::utc();
    let now = UnixMoment::new(1_709_543_100);
    let mut update = WaybarUpdate::new(UnixMoment::new(0));
    update.update_time(now, now.as_datetime(utc.as_ref()));
    assert_eq!(update.now, now);
    assert_eq!(update.time_display, "Mon 04 Mar 09:05");
    assert_eq!(update.time_display_full, "Mon 04 Mar 09:05 ");
    update.update_time(UnixMoment::new(5), None);
    assert_eq!(update.now, UnixMoment::new(5));
    assert_eq!(update.time_display, "unknown");
    assert_eq!(update.time_display_full, "unknown");
}

#[test]
fn the_display_follows_the_events() {
    let utc = tz::TimeZone::utc();
    let zone = utc.as_ref();
    let mut list = AlarmList::new();
    list.add(alarm("tea", 1_300, 1));
    let start = UnixMoment::new(1_000);
    let mut display = WaybarDisplay::new(&list, start, start.as_datetime(zone));
    assert_eq!(display.mode, WaybarDisplayMode::Clock);
    assert!(display.auto_switch);
    assert_eq!(display.update.text, " 1\u{23f2}  Thu 01 Jan 00:16");
    assert_eq!(display.update.class, "");

    let now = UnixMoment::new(1_060);
    display.on_event(&AppEvent::Tick, &list, now, now.as_datetime(zone));
    assert_eq!(display.mode, WaybarDisplayMode::NextPending);
    assert_eq!(display.update.text, " 1\u{23f2}  tea 4m 0s");

    display.on_event(&AppEvent::SwitchDisplay, &list, now, None);
    assert_eq!(display.mode, WaybarDisplayMode::Clock);
    assert!(!display.auto_switch);
    assert_eq!(display.update.text, " 1\u{23f2}  Thu 01 Jan 00:17");

    let now = UnixMoment::new(1_120);
    display.on_event(&AppEvent::Tick, &list, now, now.as_datetime(zone));
    assert_eq!(display.mode, WaybarDisplayMode::Clock);
    assert_eq!(display.update.text, " 1\u{23f2}  Thu 01 Jan 00:18");

    display.on_event(&AppEvent::SwitchDisplay, &list, now, None);
    assert_eq!(display.mode, WaybarDisplayMode::NextPending);
    assert_eq!(display.update.text, " 1\u{23f2}  tea 3m 0s");

    let now = UnixMoment::new(1_300);
    let events = list.update_with_current_time(now);
    assert_eq!(events.len(), 1);
    let rung = AppEvent::Ring(alarm("tea", 1_300, 1));
    display.on_event(&rung, &list, now, now.as_datetime(zone));
    assert_eq!(display.mode, WaybarDisplayMode::LeadAlarm);
    assert!(!display.auto_switch);
    assert_eq!(display.update.class, "ringing");
    assert_eq!(display.update.text, " 0\u{23f2}  tea 0s");

    display.on_event(&AppEvent::SwitchDisplay, &list, now, None);
    assert_eq!(display.mode, WaybarDisplayMode::LeadAlarm);

    let now = UnixMoment::new(1_320);
    display.on_event(&AppEvent::Minute(now.as_datetime(zone).unwrap()), &list, now, now.as_datetime(zone));
    assert_eq!(display.update.text, " 0\u{23f2}  tea 20s ago");
    assert_eq!(display.update.now, now);

    list.acknowledge();
    let late = UnixMoment::new(1_400);
    display.on_event(&AppEvent::Ack, &list, late, None);
    assert_eq!(display.mode, WaybarDisplayMode::Clock);
    assert!(display.auto_switch);
    assert_eq!(display.update.class, "");
    assert_eq!(display.update.now, now);
    assert_eq!(display.update.text, " 0\u{23f2}  Thu 01 Jan 00:22");

    display.on_event(&AppEvent::SwitchDisplay, &list, late, None);
    assert_eq!(display.mode, WaybarDisplayMode::Clock);
}

#[test]
fn some_events_leave_the_bar_alone() {
    let mut list = AlarmList::new();
    let start = UnixMoment::new(1_000);
    let mut display = WaybarDisplay::new(&list, start, None);
    let text = display.update.text.clone();
    let tooltip = display.update.tooltip.clone();
    list.add(alarm("tea", 1_300, 1));
    display.on_event(&AppEvent::NewListener, &list, UnixMoment::new(2_000), None);
    assert_eq!(display.update.text, text);
    assert_eq!(display.update.tooltip, tooltip);
    display.on_event(&AppEvent::AlarmListUpdate, &list, UnixMoment::new(2_000), None);
    assert_eq!(display.update.text, text);
    assert_eq!(display.update.tooltip, format!("Pending Alarms:\n{RULE}\ntea 5m 0s\nCurrent Alarms:\n{RULE}\n{RULE}\nunknown\n"));
    assert_eq!(display.update.now, start);
}
