use enjo::model::{Date, Priority, Status, Task, Timestamp};
use enjo::ui::{
    all_list_title, decimal_text, footer_status, help_keys_text, form_line, header_label, priority_tag, scroll_offset, section_heading_text,
    status_mark, task_row_texts, today_layout, TodayLine, help_lines, HelpLine,
};
use enjo::app::{Screen, StatusFilter, TodaySection};

#[test]
fn scroll_offset_keeps_selection_visible() {
    // height >= total: no scrolling.
    assert_eq!(scroll_offset(0, 5, 10), 0);
    assert_eq!(scroll_offset(4, 5, 5), 0);
    // Selection near the top, plenty of lines below: no offset.
    assert_eq!(scroll_offset(0, 100, 10), 0);
    assert_eq!(scroll_offset(9, 100, 10), 0);
    // Selection one past the bottom edge: offset advances by one.
    assert_eq!(scroll_offset(10, 100, 10), 1);
    // Selection in the middle keeps it inside the window.
    let off = scroll_offset(50, 100, 10) as usize;
    assert!(off <= 50 && 50 < off + 10, "selection must be in window");
    // Last line: clamped so the window ends exactly at the bottom.
    assert_eq!(scroll_offset(99, 100, 10), 90);
    // Degenerate inputs must not panic and yield 0.
    assert_eq!(scroll_offset(0, 0, 0), 0);
    assert_eq!(scroll_offset(5, 5, 0), 0);
}

#[test]
fn tags_and_marks() {
    assert_eq!(priority_tag(Priority::Low), "(L)");
    assert_eq!(priority_tag(Priority::Medium), "(M)");
    assert_eq!(priority_tag(Priority::High), "(H)");
    assert_eq!(priority_tag(Priority::Urgent), "(U)");
    assert_eq!(status_mark(Status::Done), "[x]");
    assert_eq!(status_mark(Status::InProgress), "[~]");
    assert_eq!(status_mark(Status::Todo), "[ ]");
    assert_eq!(decimal_text(0), "0");
    assert_eq!(decimal_text(1234567), "1234567");
}

#[test]
fn row_texts_describe_the_task() {
    let mut t = Task::new_at("Ship it".to_string(), 1, Timestamp { secs: 0, nanos: 0 });
    t.priority = Priority::High;
    t.status = Status::InProgress;
    t.project = Some("enjo".to_string());
    let d = chrono::NaiveDate::from_ymd_opt(2026, 6, 27).unwrap();
    t.due_date = Date::from_days_from_ce(chrono::Datelike::num_days_from_ce(&d));
    let r = task_row_texts(&t);
    assert_eq!(r.check, "[~] ");
    assert_eq!(r.priority, "(H) ");
    assert_eq!(r.title, "Ship it");
    assert_eq!(r.due, "  due:2026-06-27");
    assert_eq!(r.project, "  #enjo");
    t.due_date = None;
    t.project = None;
    let r = task_row_texts(&t);
    assert_eq!(r.due, "");
    assert_eq!(r.project, "");
}

#[test]
fn headers_footers_and_form_lines() {
    assert_eq!(header_label(Screen::Today, StatusFilter::All), "enjo · Today / Next");
    assert_eq!(header_label(Screen::All, StatusFilter::InProgress), "enjo · All tasks · filter: In progress");
    assert_eq!(footer_status(Screen::Today, StatusFilter::All, 3, None), " Today · 3 tasks · local-only");
    assert_eq!(
        footer_status(Screen::All, StatusFilter::Done, 0, Some("Saved")),
        " All [Done] · 0 tasks · local-only · Saved"
    );
    assert_eq!(form_line("Title", "abc", true, true), ">     Title: abc_");
    assert_eq!(form_line("Priority", "high", false, false), "   Priority: high");
    assert_eq!(form_line("Very long label", "v", false, true), "  Very long label: v");
    assert_eq!(section_heading_text("Next up", 2), "── Next up (2) ──");
    assert_eq!(help_keys_text("q"), format!("  {:<18}", "q"));
    assert_eq!(help_keys_text("Tab / Shift-Tab"), format!("  {:<18}", "Tab / Shift-Tab"));
    assert_eq!(help_keys_text("a-very-long-binding-name"), "  a-very-long-binding-name");
    assert_eq!(all_list_title(StatusFilter::Todo), "All tasks [Todo]");
}

fn section(title: &'static str, n: usize) -> TodaySection {
    let tasks = (0..n)
        .map(|i| Task::new_at(format!("{title} {i}"), i as u128, Timestamp { secs: i as i64, nanos: 0 }))
        .collect();
    TodaySection { title, tasks }
}

#[test]
fn today_layout_marks_the_selected_row() {
    let sections = vec![section("In progress", 1), section("Overdue / due today", 0), section("Next up", 2)];
    let layout = today_layout(&sections, 2);
    // heading, row, blank | heading, (none), blank | heading, row, row, blank
    assert_eq!(layout.lines.len(), 10);
    assert!(matches!(layout.lines[0], TodayLine::Heading(ref h) if h == "── In progress (1) ──"));
    assert!(matches!(layout.lines[4], TodayLine::NoneYet));
    assert_eq!(layout.selected_line, 8);
    assert!(matches!(layout.lines[8], TodayLine::Row(ref t, true) if t.title == "Next up 1"));
    assert!(matches!(layout.lines[7], TodayLine::Row(_, false)));

    let empty = vec![section("In progress", 0), section("Overdue / due today", 0), section("Next up", 0)];
    let layout = today_layout(&empty, 0);
    assert_eq!(layout.lines.len(), 1);
    assert!(matches!(layout.lines[0], TodayLine::NoTasks));
    assert_eq!(layout.selected_line, 0);

    // A cursor past the end selects no row.
    let layout = today_layout(&sections, 7);
    assert_eq!(layout.selected_line, 0);
    assert!(layout.lines.iter().all(|l| !matches!(l, TodayLine::Row(_, true))));
}

#[test]
fn help_table_lists_bindings_with_one_spacer() {
    let lines = help_lines();
    assert_eq!(lines.len(), 18);
    match &lines[0] {
        HelpLine::Binding { keys, desc } => {
            assert_eq!(keys, &format!("  {:<18}", "j / k, ↓ / ↑"));
            assert_eq!(desc, "move selection");
        },
        HelpLine::Blank => panic!("the table starts with a binding"),
    }
    assert!(matches!(lines[12], HelpLine::Blank));
    let blanks = lines.iter().filter(|l| matches!(l, HelpLine::Blank)).count();
    assert_eq!(blanks, 1);
    match &lines[17] {
        HelpLine::Binding { keys, desc } => {
            assert_eq!(keys, &format!("  {:<18}", "Esc"));
            assert_eq!(desc, "cancel");
        },
        HelpLine::Blank => panic!("the table ends with a binding"),
    }
}
