use enjo::app::App;
use enjo::model::{Date, Priority, Status, Task, Timestamp, DATE_MAX_DAYS, DATE_MIN_DAYS};
use enjo::ordering::sort_tasks;
use enjo::status::format_status;

fn task(title: &str, id: u128, created: i64, priority: Priority, due: Option<i32>) -> Task {
    let mut t = Task::new_at(title.to_string(), id, Timestamp { secs: created, nanos: 0 });
    t.priority = priority;
    t.due_date = due.map(|d| Date::from_days_from_ce(d).unwrap());
    t
}

#[test]
fn sort_is_priority_desc_due_asc_created_asc_and_stable() {
    let mut v = vec![
        task("low", 1, 10, Priority::Low, None),
        task("tie-b", 2, 5, Priority::High, Some(700_000)),
        task("undated-high", 3, 1, Priority::High, None),
        task("tie-a", 4, 5, Priority::High, Some(700_000)),
        task("early-due", 5, 9, Priority::High, Some(600_000)),
        task("urgent", 6, 99, Priority::Urgent, None),
        task("older-same-due", 7, 4, Priority::High, Some(700_000)),
    ];
    sort_tasks(&mut v);
    let titles: Vec<_> = v.iter().map(|t| t.title.as_str()).collect();
    assert_eq!(
        titles,
        vec!["urgent", "early-due", "older-same-due", "tie-b", "tie-a", "undated-high", "low"]
    );
}

#[test]
fn a_due_date_on_the_last_day_ties_with_no_due_date() {
    let mut v = vec![
        task("none", 1, 0, Priority::Medium, None),
        task("max", 2, 0, Priority::Medium, Some(DATE_MAX_DAYS)),
    ];
    sort_tasks(&mut v);
    assert_eq!(v[0].title, "none");
    assert_eq!(v[1].title, "max");
}

#[test]
fn date_bounds_are_chronos() {
    assert!(chrono::NaiveDate::from_num_days_from_ce_opt(DATE_MIN_DAYS).is_some());
    assert!(chrono::NaiveDate::from_num_days_from_ce_opt(DATE_MIN_DAYS - 1).is_none());
    assert!(chrono::NaiveDate::from_num_days_from_ce_opt(DATE_MAX_DAYS).is_some());
    assert!(chrono::NaiveDate::from_num_days_from_ce_opt(DATE_MAX_DAYS + 1).is_none());
    assert_eq!(chrono::NaiveDate::MAX, chrono::NaiveDate::from_num_days_from_ce_opt(DATE_MAX_DAYS).unwrap());
    // Extreme dates survive the row codec.
    for d in [DATE_MIN_DAYS, -365, 0, 3_652_059, DATE_MAX_DAYS] {
        let mut t = Task::new("edge".to_string());
        t.due_date = Some(Date::from_days_from_ce(d).unwrap());
        let back = enjo::codec::decode_row(enjo::codec::encode_task(&t)).unwrap();
        assert_eq!(back.due_date, t.due_date);
    }
}

#[test]
fn status_line_shows_the_head_of_in_progress() {
    let mut a = task("a lower one", 1, 1, Priority::Low, None);
    a.set_status(Status::InProgress);
    let mut b = task("the urgent one", 2, 2, Priority::Urgent, None);
    b.set_status(Status::InProgress);
    let c = task("not started", 3, 3, Priority::Urgent, None);
    let app = App::new(vec![a, b, c]);
    let ip = app.in_progress_tasks();
    assert_eq!(ip.len(), 2);
    assert_eq!(format_status(&ip, 40), "the urgent one");
    let sections = app.today_sections();
    assert_eq!(sections[0].tasks[0].title, "the urgent one");
}
