use enjo::codec::{decode_row, encode_task, storable_task, DecodeError, StoredRow};
use enjo::model::{Date, Priority, Status, Task, Timestamp};

fn date(y: i32, m: u32, d: u32) -> Date {
    let nd = chrono::NaiveDate::from_ymd_opt(y, m, d).unwrap();
    Date::from_days_from_ce(chrono::Datelike::num_days_from_ce(&nd)).unwrap()
}

fn full_task() -> Task {
    let mut t = Task::new("fully populated".to_string());
    t.notes = Some("some notes".to_string());
    t.priority = Priority::Urgent;
    t.due_date = Some(date(2026, 12, 31));
    t.project = Some("enjo".to_string());
    t.set_status(Status::Done);
    t.server_seq = Some(99);
    t
}

#[test]
fn encode_decode_round_trips_a_full_task() {
    let t = full_task();
    assert!(storable_task(&t));
    let row = encode_task(&t);
    assert_eq!(row.status, "done");
    assert_eq!(row.priority, "urgent");
    assert_eq!(row.due_date.as_deref(), Some("2026-12-31"));
    assert_eq!(row.deleted, 0);
    assert_eq!(row.id, uuid::Uuid::from_u128(t.id).hyphenated().to_string());
    let back = decode_row(row).unwrap();
    assert_eq!(back, t);
}

#[test]
fn encode_decode_round_trips_a_minimal_task() {
    let mut t = Task::new("minimal".to_string());
    t.deleted = true;
    let row = encode_task(&t);
    assert_eq!(row.deleted, 1);
    assert!(row.notes.is_none() && row.due_date.is_none() && row.completed_at.is_none());
    assert_eq!(decode_row(row).unwrap(), t);
}

#[test]
fn sub_second_instants_round_trip() {
    let precise = chrono::DateTime::parse_from_rfc3339("2026-06-27T12:34:56.123456789Z").unwrap();
    let ts = Timestamp { secs: precise.timestamp(), nanos: precise.timestamp_subsec_nanos() };
    let mut t = Task::new_at("precise".to_string(), 7, ts);
    t.completed_at = Some(ts);
    let row = encode_task(&t);
    assert_eq!(row.created_at, "2026-06-27T12:34:56.123456789+00:00");
    let back = decode_row(row).unwrap();
    assert_eq!(back.created_at.nanos, 123_456_789);
    assert_eq!(back, t);
}

fn good_row() -> StoredRow {
    StoredRow {
        id: "0190f3c4-5b6a-7c8d-9e0f-112233445566".to_string(),
        title: "x".to_string(),
        notes: None,
        status: "todo".to_string(),
        priority: "low".to_string(),
        due_date: None,
        project: None,
        created_at: "2026-01-01T00:00:00Z".to_string(),
        updated_at: "2026-01-01T00:00:00Z".to_string(),
        completed_at: None,
        deleted: 0,
        server_seq: None,
    }
}

#[test]
fn each_bad_column_is_reported() {
    assert!(decode_row(good_row()).is_ok());
    let cases: Vec<(fn(&mut StoredRow), DecodeError, usize)> = vec![
        (|r| r.id = "not-a-uuid".to_string(), DecodeError::BadId, 0),
        (|r| r.status = "bogus".to_string(), DecodeError::BadStatus, 3),
        (|r| r.priority = "bogus".to_string(), DecodeError::BadPriority, 4),
        (|r| r.due_date = Some("2026-02-30".to_string()), DecodeError::BadDueDate, 5),
        (|r| r.created_at = "not-a-timestamp".to_string(), DecodeError::BadCreatedAt, 7),
        (|r| r.updated_at = "yesterday".to_string(), DecodeError::BadUpdatedAt, 8),
        (|r| r.completed_at = Some("soon".to_string()), DecodeError::BadCompletedAt, 9),
    ];
    for (spoil, err, col) in cases {
        let mut row = good_row();
        spoil(&mut row);
        let e = decode_row(row).unwrap_err();
        assert_eq!(e, err);
        assert_eq!(e.column(), col);
        assert!(!e.field().is_empty());
    }
    // The first bad column in column order wins.
    let mut row = good_row();
    row.priority = "bogus".to_string();
    row.status = "bogus".to_string();
    assert_eq!(decode_row(row).unwrap_err(), DecodeError::BadStatus);
    assert_eq!(DecodeError::BadDueDate.field(), "due_date");
}

#[test]
fn decoded_offsets_become_utc() {
    let mut row = good_row();
    row.created_at = "2026-01-01T09:00:00+09:00".to_string();
    row.deleted = 5;
    let t = decode_row(row).unwrap();
    assert_eq!(t.created_at, Timestamp { secs: 1767225600, nanos: 0 });
    assert!(t.deleted);
}
