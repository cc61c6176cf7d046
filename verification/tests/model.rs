use enjo::model::{Date, Priority, Status, Task, Timestamp};

fn minus_one_milli(t: Timestamp) -> Timestamp {
    let total = t.secs as i128 * 1_000_000_000 + t.nanos as i128 - 1_000_000;
    Timestamp { secs: total.div_euclid(1_000_000_000) as i64, nanos: total.rem_euclid(1_000_000_000) as u32 }
}

#[test]
fn status_str_roundtrip() {
    for s in [Status::Todo, Status::InProgress, Status::Done] {
        assert_eq!(Status::from_str(s.as_str()), Some(s));
    }
    assert_eq!(Status::Todo.as_str(), "todo");
    assert_eq!(Status::InProgress.as_str(), "in_progress");
    assert_eq!(Status::Done.as_str(), "done");
    assert_eq!(Status::from_str("bogus"), None);
}

#[test]
fn priority_str_roundtrip() {
    for p in [Priority::Low, Priority::Medium, Priority::High, Priority::Urgent] {
        assert_eq!(Priority::from_str(p.as_str()), Some(p));
    }
    assert_eq!(Priority::Low.as_str(), "low");
    assert_eq!(Priority::Medium.as_str(), "medium");
    assert_eq!(Priority::High.as_str(), "high");
    assert_eq!(Priority::Urgent.as_str(), "urgent");
    assert_eq!(Priority::from_str("bogus"), None);
}

#[test]
fn status_next_wraps() {
    assert_eq!(Status::Todo.next(), Status::InProgress);
    assert_eq!(Status::InProgress.next(), Status::Done);
    assert_eq!(Status::Done.next(), Status::Todo);
}

#[test]
fn priority_next_wraps() {
    assert_eq!(Priority::Low.next(), Priority::Medium);
    assert_eq!(Priority::Medium.next(), Priority::High);
    assert_eq!(Priority::High.next(), Priority::Urgent);
    assert_eq!(Priority::Urgent.next(), Priority::Low);
}

#[test]
fn priority_ordering() {
    assert!(Priority::Urgent > Priority::Low);
    assert!(Priority::Urgent > Priority::High);
    assert!(Priority::High > Priority::Medium);
    assert!(Priority::Medium > Priority::Low);
    assert!(Priority::Urgent.rank() > Priority::Low.rank());

    // "priority descending" sort, as used by the Today view.
    let mut ps = vec![Priority::Medium, Priority::Urgent, Priority::Low, Priority::High];
    ps.sort_by(|a, b| b.cmp(a));
    assert_eq!(ps, vec![Priority::Urgent, Priority::High, Priority::Medium, Priority::Low]);
}

#[test]
fn defaults() {
    assert_eq!(Status::default(), Status::Todo);
    assert_eq!(Priority::default(), Priority::Medium);
}

#[test]
fn new_task_defaults() {
    let t = Task::new("write tests".to_string());
    assert_eq!(t.title, "write tests");
    assert_eq!(t.status, Status::Todo);
    assert_eq!(t.priority, Priority::Medium);
    assert!(!t.deleted);
    assert!(t.notes.is_none());
    assert!(t.due_date.is_none());
    assert!(t.project.is_none());
    assert!(t.completed_at.is_none());
    assert!(t.server_seq.is_none());
    assert_eq!(t.created_at, t.updated_at);
    // UUIDv7 is version 7.
    assert_eq!(uuid::Uuid::from_u128(t.id).get_version_num(), 7);
}

#[test]
fn set_status_done_stamps_completed_and_bumps_updated() {
    let mut t = Task::new("ship".to_string());
    let before = t.updated_at;
    t.set_status(Status::Done);
    assert_eq!(t.status, Status::Done);
    assert!(t.completed_at.is_some());
    assert!(t.updated_at >= before);
    let completed = t.completed_at.unwrap();
    assert!(t.updated_at >= minus_one_milli(completed));
}

#[test]
fn set_status_done_to_done_preserves_completed_at() {
    let mut t = Task::new("ship".to_string());
    t.set_status(Status::Done);
    let first = t.completed_at.expect("completed_at set on entering Done");
    // Re-setting Done must not clobber the first completion time...
    t.set_status(Status::Done);
    assert_eq!(t.completed_at, Some(first));
    // ...but updated_at still advances.
    assert!(t.updated_at >= first);
}

#[test]
fn leaving_done_clears_completed() {
    let mut t = Task::new("ship".to_string());
    t.set_status(Status::Done);
    assert!(t.completed_at.is_some());
    t.set_status(Status::InProgress);
    assert_eq!(t.status, Status::InProgress);
    assert!(t.completed_at.is_none());
}

#[test]
fn toggle_done_roundtrips() {
    let mut t = Task::new("ship".to_string());
    assert_eq!(t.status, Status::Todo);
    t.toggle_done();
    assert_eq!(t.status, Status::Done);
    assert!(t.completed_at.is_some());
    t.toggle_done();
    assert_eq!(t.status, Status::Todo);
    assert!(t.completed_at.is_none());
}

#[test]
fn touch_bumps_updated_at() {
    let mut t = Task::new("ship".to_string());
    let before = t.updated_at;
    t.touch();
    assert!(t.updated_at >= before);
}

#[test]
fn set_status_at_uses_the_given_instant() {
    let now = Timestamp { secs: 1_800_000_000, nanos: 5 };
    let mut t = Task::new_at("x".to_string(), 42, Timestamp { secs: 1_700_000_000, nanos: 0 });
    t.set_status_at(Status::Done, now);
    assert_eq!(t.completed_at, Some(now));
    assert_eq!(t.updated_at, now);
    let later = Timestamp { secs: 1_900_000_000, nanos: 0 };
    t.set_status_at(Status::Done, later);
    assert_eq!(t.completed_at, Some(now));
    assert_eq!(t.updated_at, later);
    t.set_status_at(Status::Todo, later);
    assert_eq!(t.completed_at, None);
    t.toggle_done_at(later);
    assert_eq!(t.status, Status::Done);
    t.touch_at(now);
    assert_eq!(t.updated_at, now);
}

#[test]
fn cycles_come_back() {
    for s in [Status::Todo, Status::InProgress, Status::Done] {
        assert_eq!(s.next().next().next(), s);
    }
    for p in [Priority::Low, Priority::Medium, Priority::High, Priority::Urgent] {
        assert_eq!(p.next().next().next().next(), p);
    }
}

#[test]
fn dates_and_instants_are_checked() {
    assert!(Date::from_days_from_ce(enjo::model::DATE_MAX_DAYS).is_some());
    assert!(Date::from_days_from_ce(enjo::model::DATE_MAX_DAYS + 1).is_none());
    assert!(Date::from_days_from_ce(enjo::model::DATE_MIN_DAYS - 1).is_none());
    assert_eq!(Date::from_days_from_ce(739_617).unwrap().days_from_ce(), 739_617);
    assert!(Timestamp { secs: 0, nanos: 0 }.is_valid());
    assert!(!Timestamp { secs: 0, nanos: 2_000_000_000 }.is_valid());
    // A leap second only in the last second of a minute.
    assert!(Timestamp { secs: 59, nanos: 1_500_000_000 }.is_valid());
    assert!(!Timestamp { secs: 58, nanos: 1_500_000_000 }.is_valid());
    assert!(!Timestamp { secs: i64::MAX, nanos: 0 }.is_valid());
    assert!(Timestamp::now().is_valid());
}

#[test]
fn clock_reading_is_after_the_epoch_without_leap_second() {
    let now = Timestamp::now();
    assert!(now.is_valid());
    // Any clock this runs on reads a time after 2020-01-01T00:00:00Z.
    assert!(now.secs > 1_577_836_800);
    assert!(now.nanos < 1_000_000_000);
}
