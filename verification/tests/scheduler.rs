use clockd::{Alarm, AlarmEvent, AlarmList, AlarmState, UnixMoment};

fn alarm(name: &str, end: i64, created: i64) -> Alarm {
    Alarm::created_at(String::from(name), None, UnixMoment::new(end), UnixMoment::new(created))
}

fn names(alarms: &Vec<Alarm>) -> Vec<String> {
    alarms.iter().map(|a| a.name.clone()).collect()
}

#[test]
fn a_new_list_is_empty() {
    let list = AlarmList::new();
    assert_eq!(list.pending_len(), 0);
    assert_eq!(list.alarming_len(), 0);
    assert!(list.next_alarm().is_none());
    assert!(list.lead_alarming().is_none());
}

#[test]
fn pending_alarms_are_kept_in_the_order_of_their_ends() {
    let mut list = AlarmList::new();
    list.add(alarm("c", 300, 1));
    list.add(alarm("a", 100, 2));
    list.add(alarm("d", 400, 3));
    list.add(alarm("b", 200, 4));
    assert_eq!(names(list.pending()), vec!["a", "b", "c", "d"]);
    assert_eq!(list.pending_len(), 4);
    assert!(matches!(list.next_alarm(), Some(a) if a.name == "a"));
}

#[test]
fn the_next_alarm_is_the_earliest_whatever_the_order_of_admission() {
    let ends = [50i64, 10, 40, 20, 30, 5, 60];
    let mut list = AlarmList::new();
    let mut smallest = i64::MAX;
    for (i, end) in ends.iter().enumerate() {
        list.add(alarm("x", *end, i as i64));
        smallest = smallest.min(*end);
        assert!(matches!(list.next_alarm(), Some(a) if a.end_t == UnixMoment::new(smallest)));
    }
}

#[test]
fn alarms_with_one_end_keep_the_order_of_admission() {
    let mut list = AlarmList::new();
    list.add(alarm("first", 100, 1));
    list.add(alarm("late", 200, 2));
    list.add(alarm("second", 100, 3));
    list.add(alarm("third", 100, 4));
    assert_eq!(names(list.pending()), vec!["first", "second", "third", "late"]);
}

#[test]
fn a_sweep_reports_each_change_once() {
    let mut list = AlarmList::new();
    list.add(alarm("a", 100, 1));
    list.add(alarm("b", 200, 2));
    let events = list.update_with_current_time(UnixMoment::new(150));
    assert_eq!(events.len(), 2);
    assert!(matches!(&events[0], AlarmEvent::Now(a) if a.name == "a" && a.state == AlarmState::Done));
    assert!(matches!(&events[1], AlarmEvent::Started(a) if a.name == "b" && a.state == AlarmState::Started));
    assert_eq!(names(list.pending()), vec!["b"]);
    assert_eq!(names(list.alarming()), vec!["a"]);
    assert!(matches!(list.lead_alarming(), Some(a) if a.name == "a" && a.state == AlarmState::Done));
    assert!(matches!(list.next_alarm(), Some(a) if a.name == "b" && a.state == AlarmState::Started));
}

#[test]
fn a_second_sweep_at_the_same_moment_is_silent() {
    let mut list = AlarmList::new();
    list.add(alarm("a", 100, 1));
    list.add(alarm("b", 200, 2));
    list.add(alarm("c", 150, 3));
    let now = UnixMoment::new(150);
    assert_eq!(list.update_with_current_time(now).len(), 3);
    assert!(list.update_with_current_time(now).is_empty());
    assert_eq!(list.pending_len(), 1);
    assert_eq!(list.alarming_len(), 2);
    assert!(list.update_with_current_time(now).is_empty());
    assert_eq!(list.pending_len(), 1);
    assert_eq!(list.alarming_len(), 2);
}

#[test]
fn every_alarm_is_in_one_container() {
    let mut list = AlarmList::new();
    for i in 0..6 {
        list.add(alarm("x", 100 + 10 * i, i));
    }
    for now in [0i64, 95, 100, 115, 130, 200] {
        list.update_with_current_time(UnixMoment::new(now));
        assert_eq!(list.pending_len() + list.alarming_len(), 6);
        let mut ids: Vec<UnixMoment> = list.pending().iter().map(|a| a.creation_t).collect();
        ids.extend(list.alarming().iter().map(|a| a.creation_t));
        ids.sort();
        ids.dedup();
        assert_eq!(ids.len(), 6);
        assert!(list.pending().iter().all(|a| a.is_running()));
        assert!(list.alarming().iter().all(|a| !a.is_running()));
    }
    assert_eq!(list.pending_len(), 0);
}

#[test]
fn alarms_that_end_together_ring_together() {
    let mut list = AlarmList::new();
    list.add(alarm("a", 100, 1));
    list.add(alarm("b", 100, 2));
    list.add(alarm("c", 500, 3));
    let events = list.update_with_current_time(UnixMoment::new(100));
    let rang = events.iter().filter(|e| matches!(e, AlarmEvent::Now(_))).count();
    assert_eq!(rang, 2);
    assert_eq!(names(list.alarming()), vec!["a", "b"]);
    assert_eq!(names(list.pending()), vec!["c"]);
}

#[test]
fn alarms_ring_in_the_order_of_their_ends() {
    let mut list = AlarmList::new();
    list.add(alarm("late", 300, 1));
    list.add(alarm("early", 100, 2));
    list.add(alarm("middle", 200, 3));
    list.update_with_current_time(UnixMoment::new(100));
    list.update_with_current_time(UnixMoment::new(250));
    assert_eq!(names(list.alarming()), vec!["early", "middle"]);
    list.update_with_current_time(UnixMoment::new(1000));
    assert_eq!(names(list.alarming()), vec!["early", "middle", "late"]);
    assert!(matches!(list.lead_alarming(), Some(a) if a.name == "early"));
}

#[test]
fn acknowledge_empties_the_alarming_container() {
    let mut list = AlarmList::new();
    for i in 0..5 {
        list.add(alarm("x", 100 + i, i));
    }
    list.add(alarm("later", 900, 9));
    list.update_with_current_time(UnixMoment::new(200));
    assert_eq!(list.alarming_len(), 5);
    list.acknowledge();
    assert_eq!(list.alarming_len(), 0);
    assert!(list.lead_alarming().is_none());
    assert_eq!(names(list.pending()), vec!["later"]);
    list.acknowledge();
    assert_eq!(list.alarming_len(), 0);
}

#[test]
fn remove_withdraws_a_pending_alarm() {
    let mut list = AlarmList::new();
    list.add(alarm("a", 100, 1));
    list.add(alarm("b", 200, 2));
    list.add(alarm("c", 300, 3));
    list.remove(UnixMoment::new(2));
    assert_eq!(names(list.pending()), vec!["a", "c"]);
    list.remove(UnixMoment::new(77));
    assert_eq!(names(list.pending()), vec!["a", "c"]);
    list.remove(UnixMoment::new(1));
    list.remove(UnixMoment::new(3));
    assert_eq!(list.pending_len(), 0);
}

#[test]
fn remove_leaves_an_alarm_that_has_rung() {
    let mut list = AlarmList::new();
    list.add(alarm("a", 100, 1));
    list.add(alarm("b", 200, 2));
    list.update_with_current_time(UnixMoment::new(100));
    list.remove(UnixMoment::new(1));
    assert_eq!(names(list.alarming()), vec!["a"]);
    assert_eq!(names(list.pending()), vec!["b"]);
    assert!(matches!(list.lead_alarming(), Some(a) if a.creation_t == UnixMoment::new(1)));
}

#[test]
fn remove_leaves_a_pending_alarm_that_is_done() {
    let mut list = AlarmList::new();
    let mut done = alarm("done", 100, 1);
    done.state = AlarmState::Done;
    list.add(done);
    list.add(alarm("b", 200, 2));
    list.remove(UnixMoment::new(1));
    assert_eq!(names(list.pending()), vec!["done", "b"]);
}

#[test]
fn a_sweep_leaves_alarms_with_time_left() {
    let mut list = AlarmList::new();
    list.add(alarm("a", 100, 1));
    list.add(alarm("b", 101, 2));
    let now = UnixMoment::new(100) + std::time::Duration::new(0, 999_999_999);
    let events = list.update_with_current_time(now);
    assert_eq!(events.iter().filter(|e| matches!(e, AlarmEvent::Now(_))).count(), 1);
    assert_eq!(names(list.alarming()), vec!["a"]);
    assert_eq!(names(list.pending()), vec!["b"]);
}
