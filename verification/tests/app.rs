use enjo::app::{
    App, Moment, KeyCode, KeyEvent, KeyModifiers, Screen, StatusFilter, StoreReply, StoreRequest,
};
use enjo::clock::local_today;
use enjo::model::{Date, Priority, Status, Task, Timestamp};

/// An in-memory task store answering the application's requests the way the
/// SQLite store does: active tasks ordered by creation then id, upsert by id,
/// soft delete with a fresh clock.
struct MemStore {
    rows: Vec<Task>,
    fail_reads: bool,
}

impl MemStore {
    fn new() -> MemStore {
        MemStore { rows: Vec::new(), fail_reads: false }
    }

    fn get(&self, id: u128) -> Option<Task> {
        self.rows.iter().find(|t| t.id == id).cloned()
    }

    fn upsert(&mut self, task: Task) {
        match self.rows.iter_mut().find(|t| t.id == task.id) {
            Some(row) => *row = task,
            None => self.rows.push(task),
        }
    }

    fn perform(&mut self, request: StoreRequest) -> StoreReply {
        match request {
            StoreRequest::ListActive => {
                if self.fail_reads {
                    return StoreReply::Listed(Err("boom".to_string()));
                }
                let mut v: Vec<Task> = self.rows.iter().filter(|t| !t.deleted).cloned().collect();
                v.sort_by(|a, b| (a.created_at, a.id).cmp(&(b.created_at, b.id)));
                StoreReply::Listed(Ok(v))
            },
            StoreRequest::Get(id) => {
                if self.fail_reads {
                    return StoreReply::Fetched(Err("boom".to_string()));
                }
                StoreReply::Fetched(Ok(self.get(id)))
            },
            StoreRequest::Upsert(t) => {
                self.upsert(t);
                StoreReply::Written(Ok(()))
            },
            StoreRequest::SoftDelete(id) => {
                if let Some(row) = self.rows.iter_mut().find(|t| t.id == id) {
                    row.deleted = true;
                    row.updated_at = Timestamp::now();
                }
                StoreReply::Written(Ok(()))
            },
        }
    }
}

struct Harness {
    app: App,
    store: MemStore,
}

impl Harness {
    fn drive(&mut self, mut request: Option<StoreRequest>) {
        while let Some(r) = request {
            let reply = self.store.perform(r);
            request = self.app.on_reply(reply);
        }
    }

    fn on_key(&mut self, key: KeyEvent) {
        let r = self.app.on_key(key);
        self.drive(r);
    }

    /// Refresh the task list; true when the store read succeeded.
    fn reload(&mut self) -> bool {
        let r = self.app.reload();
        let reply = self.store.perform(r);
        let ok = matches!(reply, StoreReply::Listed(Ok(_)));
        let next = self.app.on_reply(reply);
        self.drive(next);
        ok
    }

    fn tasks(&self) -> Vec<Task> {
        self.app.tasks().clone()
    }
}

fn app() -> Harness {
    Harness { app: App::new(Vec::new()), store: MemStore::new() }
}

fn key(code: KeyCode) -> KeyEvent {
    KeyEvent::new(code, KeyModifiers::Plain)
}

fn type_str(h: &mut Harness, s: &str) {
    for c in s.chars() {
        h.on_key(key(KeyCode::Char(c)));
    }
}

/// Seed a task straight through the store, then reload the app.
fn seed(h: &mut Harness, task: Task) {
    h.store.upsert(task);
    assert!(h.reload(), "in-memory reload should succeed");
}

fn today() -> Date {
    local_today()
}

fn days_after(d: Date, n: i32) -> Date {
    Date::from_days_from_ce(d.days_from_ce() + n).unwrap()
}

#[test]
fn add_task_via_form_appears_in_today() {
    let mut a = app();
    a.on_key(key(KeyCode::Char('n')));
    assert_eq!(a.app.screen(), Screen::Edit);
    type_str(&mut a, "Buy milk");
    a.on_key(key(KeyCode::Enter));

    assert_eq!(a.app.screen(), Screen::Today);
    let titles: Vec<_> = a.app.visible_tasks().into_iter().map(|t| t.title).collect();
    assert_eq!(titles, vec!["Buy milk".to_string()]);
}

#[test]
fn empty_title_keeps_form_open_with_message() {
    let mut a = app();
    a.on_key(key(KeyCode::Char('n')));
    a.on_key(key(KeyCode::Enter));
    assert_eq!(a.app.screen(), Screen::Edit);
    assert!(a.app.status_message().unwrap().contains("Title"));
    assert!(a.app.visible_tasks().is_empty());
}

#[test]
fn invalid_due_date_keeps_form_open() {
    let mut a = app();
    a.on_key(key(KeyCode::Char('n')));
    type_str(&mut a, "Has date");
    // Move to the due-date field and type garbage.
    a.on_key(key(KeyCode::Tab)); // notes
    a.on_key(key(KeyCode::Tab)); // project
    a.on_key(key(KeyCode::Tab)); // due date
    type_str(&mut a, "not-a-date");
    a.on_key(key(KeyCode::Enter));
    assert_eq!(a.app.screen(), Screen::Edit);
    assert!(a.app.status_message().unwrap().contains("date"));
}

#[test]
fn navigation_clamps_at_both_ends() {
    let mut a = app();
    seed(&mut a, Task::new("a".into()));
    seed(&mut a, Task::new("b".into()));
    seed(&mut a, Task::new("c".into()));
    assert_eq!(a.app.selected(), 0);

    // Up at the top stays at 0.
    a.on_key(key(KeyCode::Char('k')));
    assert_eq!(a.app.selected(), 0);

    a.on_key(key(KeyCode::Char('j')));
    a.on_key(key(KeyCode::Char('j')));
    assert_eq!(a.app.selected(), 2);
    // Down at the bottom stays at the last index (clamp, no wrap).
    a.on_key(key(KeyCode::Char('j')));
    assert_eq!(a.app.selected(), 2);
    assert!(a.app.selected_task().is_some());
}

#[test]
fn toggle_done_removes_task_from_today() {
    let mut a = app();
    seed(&mut a, Task::new("finish me".into()));
    assert_eq!(a.app.visible_tasks().len(), 1);

    a.on_key(key(KeyCode::Char(' ')));
    // Done tasks are excluded from Today.
    assert!(a.app.visible_tasks().is_empty());

    // ...but they remain in the store with Done status (visible on All).
    let all: Vec<_> = a.tasks();
    assert_eq!(all.len(), 1);
    assert_eq!(all[0].status, Status::Done);
}

#[test]
fn cycle_status_persists() {
    let mut a = app();
    seed(&mut a, Task::new("cycle".into()));
    let id = a.tasks()[0].id;
    a.on_key(key(KeyCode::Char('s'))); // Todo -> InProgress
    let got = a.store.get(id).unwrap();
    assert_eq!(got.status, Status::InProgress);
}

#[test]
fn cannot_start_second_in_progress_via_s_key() {
    let mut a = app();
    seed(&mut a, Task::new("first".into()));
    seed(&mut a, Task::new("second".into()));

    // Start the first task (Todo -> InProgress) — allowed.
    a.on_key(key(KeyCode::Char('s')));
    // Move to the second task and try to start it too — blocked.
    a.on_key(key(KeyCode::Char('j')));
    a.on_key(key(KeyCode::Char('s')));

    let in_progress: Vec<_> = a
        .tasks()
        .iter()
        .filter(|t| t.status == Status::InProgress)
        .map(|t| t.title.clone())
        .collect();
    assert_eq!(in_progress, vec!["first".to_string()]);
    assert!(a.app.status_message().unwrap().contains("Already in progress"));
}

#[test]
fn in_progress_task_can_still_advance_to_done() {
    let mut a = app();
    seed(&mut a, Task::new("solo".into()));
    let id = a.tasks()[0].id;
    a.on_key(key(KeyCode::Char('s'))); // Todo -> InProgress
    assert_eq!(a.store.get(id).unwrap().status, Status::InProgress);
    // The single-WIP guard only blocks entering InProgress; advancing the
    // in-progress task itself to Done is still allowed.
    a.on_key(key(KeyCode::Char('s'))); // InProgress -> Done
    assert_eq!(a.store.get(id).unwrap().status, Status::Done);
}

#[test]
fn cannot_set_in_progress_via_edit_form_when_one_exists() {
    let mut a = app();
    seed(&mut a, Task::new("active".into()));
    a.on_key(key(KeyCode::Char('s'))); // active -> InProgress

    // Create a new task and try to mark it InProgress in the form.
    a.on_key(key(KeyCode::Char('n')));
    type_str(&mut a, "newbie");
    a.on_key(key(KeyCode::BackTab)); // Title -> Status
    a.on_key(key(KeyCode::Char('s'))); // Todo -> InProgress (form buffer)
    a.on_key(key(KeyCode::Enter)); // save -> blocked

    assert_eq!(a.app.screen(), Screen::Edit);
    assert!(a.app.status_message().unwrap().contains("Already in progress"));
    let titles: Vec<_> = a.tasks().iter().map(|t| t.title.clone()).collect();
    assert!(!titles.contains(&"newbie".to_string()));
}

#[test]
fn editing_in_progress_task_can_keep_it_in_progress() {
    let mut a = app();
    seed(&mut a, Task::new("focus".into()));
    a.on_key(key(KeyCode::Char('s'))); // focus -> InProgress
    let id = a.tasks()[0].id;

    // Editing the in-progress task itself (status stays InProgress) must not
    // be blocked — it is excluded from the "other in progress" check.
    a.on_key(key(KeyCode::Char('e')));
    type_str(&mut a, " edited");
    a.on_key(key(KeyCode::Enter));

    assert_eq!(a.app.screen(), Screen::Today);
    let got = a.store.get(id).unwrap();
    assert_eq!(got.status, Status::InProgress);
    assert_eq!(got.title, "focus edited");
}

#[test]
fn cycle_priority_persists() {
    let mut a = app();
    seed(&mut a, Task::new("cycle".into()));
    let id = a.tasks()[0].id;
    // Default Medium -> High.
    a.on_key(key(KeyCode::Char('p')));
    let got = a.store.get(id).unwrap();
    assert_eq!(got.priority, Priority::High);
}

#[test]
fn soft_delete_removes_and_reclamps() {
    let mut a = app();
    seed(&mut a, Task::new("one".into()));
    seed(&mut a, Task::new("two".into()));
    // Select the last item, then delete it.
    a.on_key(key(KeyCode::Char('j')));
    assert_eq!(a.app.selected(), 1);
    a.on_key(key(KeyCode::Char('d')));

    assert_eq!(a.app.visible_tasks().len(), 1);
    // Selection re-clamped to the remaining valid index.
    assert_eq!(a.app.selected(), 0);
    assert!(a.app.selected_task().is_some());
}

#[test]
fn today_sectioning_and_ordering() {
    let mut a = app();
    let t = today();

    // Section 1: in progress (two, to check priority tie-break).
    let mut ip_low = Task::new("ip-low".into());
    ip_low.set_status(Status::InProgress);
    ip_low.priority = Priority::Low;
    let mut ip_high = Task::new("ip-high".into());
    ip_high.set_status(Status::InProgress);
    ip_high.priority = Priority::High;

    // Section 2: overdue todo (due yesterday).
    let mut overdue = Task::new("overdue".into());
    overdue.due_date = Some(days_after(t, -1));

    // Section 3: future todo, plus an undated todo.
    let mut future = Task::new("future".into());
    future.due_date = Some(days_after(t, 10));
    let undated = Task::new("undated".into());

    // Excluded entirely.
    let mut done = Task::new("done".into());
    done.set_status(Status::Done);

    for task in [ip_low.clone(), ip_high.clone(), overdue.clone(), future.clone(), undated.clone(), done.clone()] {
        seed(&mut a, task);
    }

    let sections = a.app.today_sections();
    assert_eq!(sections[0].title, "In progress");
    // Priority-desc tie-break: High before Low.
    assert_eq!(sections[0].tasks.iter().map(|t| t.title.as_str()).collect::<Vec<_>>(), vec!["ip-high", "ip-low"]);
    assert_eq!(sections[1].tasks.iter().map(|t| t.title.as_str()).collect::<Vec<_>>(), vec!["overdue"]);
    // Next up holds both the future-dated and undated todos (done excluded).
    let next_titles: Vec<_> = sections[2].tasks.iter().map(|t| t.title.as_str()).collect();
    assert!(next_titles.contains(&"future"));
    assert!(next_titles.contains(&"undated"));
    assert!(!next_titles.contains(&"done"));

    // Flattened visible order = s1 ++ s2 ++ s3.
    let flat: Vec<_> = a.app.visible_tasks().into_iter().map(|t| t.title).collect();
    assert_eq!(flat[0], "ip-high");
    assert_eq!(flat[1], "ip-low");
    assert_eq!(flat[2], "overdue");
    // No Done task anywhere in Today.
    assert!(!flat.contains(&"done".to_string()));
    assert_eq!(flat.len(), 5);
}

#[test]
fn all_view_status_filter_cycles() {
    let mut a = app();
    let mut todo = Task::new("todo".into());
    todo.set_status(Status::Todo);
    let mut prog = Task::new("prog".into());
    prog.set_status(Status::InProgress);
    let mut done = Task::new("done".into());
    done.set_status(Status::Done);
    seed(&mut a, todo);
    seed(&mut a, prog);
    seed(&mut a, done);

    // Switch to All view.
    a.on_key(key(KeyCode::Tab));
    assert_eq!(a.app.screen(), Screen::All);
    assert_eq!(a.app.filter(), StatusFilter::All);
    assert_eq!(a.app.visible_tasks().len(), 3);

    // All -> Todo.
    a.on_key(key(KeyCode::Char('/')));
    assert_eq!(a.app.filter(), StatusFilter::Todo);
    assert_eq!(a.app.visible_tasks().len(), 1);
    assert_eq!(a.app.visible_tasks()[0].status, Status::Todo);

    // Todo -> InProgress.
    a.on_key(key(KeyCode::Char('/')));
    assert_eq!(a.app.filter(), StatusFilter::InProgress);
    assert_eq!(a.app.visible_tasks()[0].status, Status::InProgress);

    // InProgress -> Done.
    a.on_key(key(KeyCode::Char('/')));
    assert_eq!(a.app.filter(), StatusFilter::Done);
    assert_eq!(a.app.visible_tasks()[0].status, Status::Done);

    // Done -> All (wrap).
    a.on_key(key(KeyCode::Char('/')));
    assert_eq!(a.app.filter(), StatusFilter::All);
    assert_eq!(a.app.visible_tasks().len(), 3);
}

#[test]
fn edit_existing_task_updates_fields() {
    let mut a = app();
    seed(&mut a, Task::new("orig".into()));
    a.on_key(key(KeyCode::Char('e')));
    assert_eq!(a.app.screen(), Screen::Edit);
    // Clear the title and retype.
    for _ in 0.."orig".len() {
        a.on_key(key(KeyCode::Backspace));
    }
    type_str(&mut a, "updated");
    a.on_key(key(KeyCode::Enter));
    assert_eq!(a.app.screen(), Screen::Today);
    assert_eq!(a.app.visible_tasks()[0].title, "updated");
}

#[test]
fn sync_key_shows_local_only_message() {
    let mut a = app();
    a.on_key(KeyEvent::new(KeyCode::Char('s'), KeyModifiers::Control));
    assert!(a.app.status_message().unwrap().contains("Phase 3"));
}

#[test]
fn shift_s_steps_status_backward() {
    let mut a = app();
    a.on_key(key(KeyCode::Char('n')));
    type_str(&mut a, "task");
    a.on_key(key(KeyCode::Enter));
    // Forward once: Todo -> InProgress.
    a.on_key(key(KeyCode::Char('s')));
    assert_eq!(a.app.visible_tasks()[0].status, Status::InProgress);
    // Shift+S steps back: InProgress -> Todo, without passing through Done.
    a.on_key(key(KeyCode::Char('S')));
    assert_eq!(a.app.visible_tasks()[0].status, Status::Todo);
}

#[test]
fn overview_lists_all_tasks_with_done_last() {
    let mut a = app();
    let mut done = Task::new("finished".into());
    done.set_status(Status::Done);
    seed(&mut a, done);
    seed(&mut a, Task::new("todo".into()));
    let mut wip = Task::new("working".into());
    wip.set_status(Status::InProgress);
    seed(&mut a, wip);

    let titles: Vec<_> = a.app.overview_tasks().into_iter().map(|t| t.title).collect();
    // All three present (done is excluded from Today but shown here)…
    assert_eq!(titles.len(), 3);
    // …and the completed task sorts to the bottom.
    assert_eq!(titles.last().unwrap(), "finished");
}

#[test]
fn cursor_follows_task_when_priority_reorders() {
    let mut a = app();
    // Two tasks at default priority (Medium); insertion order is the tie-break,
    // so "a" sorts first and "b" second.
    seed(&mut a, Task::new("a".into()));
    seed(&mut a, Task::new("b".into()));
    // Select "b" (index 1) and bump its priority up so it sorts to the top.
    a.on_key(key(KeyCode::Char('j')));
    assert_eq!(a.app.visible_tasks()[a.app.selected()].title, "b");
    a.on_key(key(KeyCode::Char('p'))); // Medium -> High, "b" moves up
    // Cursor follows "b" to its new position (now index 0).
    assert_eq!(a.app.visible_tasks()[a.app.selected()].title, "b");
    assert_eq!(a.app.selected(), 0);
}

#[test]
fn shift_p_steps_priority_backward() {
    let mut a = app();
    a.on_key(key(KeyCode::Char('n')));
    type_str(&mut a, "task");
    a.on_key(key(KeyCode::Enter));
    // Default priority is Medium; one step back -> Low.
    a.on_key(key(KeyCode::Char('P')));
    assert_eq!(a.app.visible_tasks()[0].priority, Priority::Low);
}

#[test]
fn shift_s_into_in_progress_respects_single_wip() {
    let mut a = app();
    // "first" is already in progress; "second" is Done. Stepping "second"
    // backward (Done -> InProgress) must be blocked by the single-WIP guard.
    let mut first = Task::new("first".into());
    first.set_status(Status::InProgress);
    seed(&mut a, first);
    let mut second = Task::new("second".into());
    second.set_status(Status::Done);
    seed(&mut a, second);
    let second_id = a.tasks().iter().find(|t| t.title == "second").unwrap().id;

    // Done tasks are hidden on Today; switch to All to select "second".
    a.on_key(key(KeyCode::Tab));
    let second_idx = a.app.visible_tasks().iter().position(|t| t.title == "second").unwrap();
    for _ in 0..second_idx {
        a.on_key(key(KeyCode::Char('j')));
    }
    a.on_key(key(KeyCode::Char('S'))); // Done -> InProgress, blocked

    assert_eq!(a.store.get(second_id).unwrap().status, Status::Done);
    assert!(a.app.status_message().unwrap().contains("Already in progress"));
}

#[test]
fn quit_sets_flag() {
    let mut a = app();
    assert!(!a.app.should_quit());
    a.on_key(key(KeyCode::Char('q')));
    assert!(a.app.should_quit());
}

#[test]
fn reload_read_error_keeps_tasks_and_sets_status() {
    let mut a = app();
    seed(&mut a, Task::new("survivor".into()));
    assert_eq!(a.app.visible_tasks().len(), 1);

    // Make the store's reads fail, then force a reload.
    a.store.fail_reads = true;
    let ok = a.reload();
    assert!(!ok, "reload must report failure");
    // Previous in-memory task list is retained, app stays usable.
    assert_eq!(a.tasks().len(), 1);
    assert!(a.app.status_message().unwrap().contains("Failed to reload tasks"));
}

#[test]
fn edit_save_read_error_keeps_form_open_with_status() {
    let mut a = app();
    seed(&mut a, Task::new("orig".into()));
    a.on_key(key(KeyCode::Char('e')));
    assert_eq!(a.app.screen(), Screen::Edit);

    // The edit-save path reads the task by id before writing; a read error
    // there must surface a message and leave the form open.
    a.store.fail_reads = true;
    a.on_key(key(KeyCode::Enter));
    assert_eq!(a.app.screen(), Screen::Edit);
    assert!(a.app.status_message().unwrap().contains("Failed to load task"));
}

#[test]
fn help_toggles_and_dismisses() {
    let mut a = app();
    a.on_key(key(KeyCode::Char('?')));
    assert_eq!(a.app.screen(), Screen::Help);
    a.on_key(key(KeyCode::Esc));
    assert_eq!(a.app.screen(), Screen::Today);
}

// ----- Further cases of the state machine. -----

#[test]
fn edit_form_fields_and_values() {
    let mut a = app();
    a.on_key(key(KeyCode::Char('n')));
    type_str(&mut a, "  Plan trip  ");
    a.on_key(key(KeyCode::Tab)); // notes
    type_str(&mut a, "   ");
    a.on_key(key(KeyCode::Tab)); // project
    type_str(&mut a, "home");
    a.on_key(key(KeyCode::Tab)); // due date
    type_str(&mut a, " 2030-01-02 ");
    a.on_key(key(KeyCode::Tab)); // priority
    a.on_key(key(KeyCode::Right)); // Medium -> High
    a.on_key(key(KeyCode::Char('x'))); // ignored on a non-text field
    a.on_key(key(KeyCode::Tab)); // status
    a.on_key(key(KeyCode::Left)); // Todo -> Done
    assert_eq!(a.app.edit_state().status(), Status::Done);
    a.on_key(key(KeyCode::Right)); // Done -> Todo
    assert_eq!(a.app.edit_state().priority(), Priority::High);
    assert_eq!(a.app.edit_state().project(), "home");
    a.on_key(KeyEvent::new(KeyCode::Char('s'), KeyModifiers::Control)); // save
    assert_eq!(a.app.screen(), Screen::Today);
    assert_eq!(a.app.status_message(), Some("Saved"));
    let t = &a.tasks()[0];
    assert_eq!(t.title, "Plan trip");
    assert_eq!(t.notes, None);
    assert_eq!(t.project.as_deref(), Some("home"));
    assert_eq!(t.priority, Priority::High);
    let d = chrono::NaiveDate::from_ymd_opt(2030, 1, 2).unwrap();
    assert_eq!(t.due_date.unwrap().days_from_ce(), chrono::Datelike::num_days_from_ce(&d));
}

#[test]
fn esc_cancels_the_form() {
    let mut a = app();
    a.on_key(key(KeyCode::Char('n')));
    type_str(&mut a, "never");
    a.on_key(key(KeyCode::Esc));
    assert_eq!(a.app.screen(), Screen::Today);
    assert!(a.tasks().is_empty());
    assert!(a.app.edit_state().is_new());
}

#[test]
fn editing_a_vanished_task_returns_to_the_list() {
    let mut a = app();
    seed(&mut a, Task::new("ghost".into()));
    a.on_key(key(KeyCode::Char('e')));
    a.store.rows.clear();
    a.on_key(key(KeyCode::Enter));
    assert_eq!(a.app.screen(), Screen::Today);
    assert_eq!(a.app.status_message(), Some("Task no longer exists"));
    assert!(a.tasks().is_empty());
    assert_eq!(a.app.selected(), 0);
}

#[test]
fn nothing_selected_cannot_be_edited() {
    let mut a = app();
    a.on_key(key(KeyCode::Char('e')));
    assert_eq!(a.app.screen(), Screen::Today);
    assert_eq!(a.app.status_message(), Some("No task selected"));
}

#[test]
fn write_failures_are_reported() {
    let mut a = app();
    seed(&mut a, Task::new("w".into()));
    let r = a.app.on_key(key(KeyCode::Char('p')));
    assert!(matches!(r, Some(StoreRequest::Upsert(_))));
    let next = a.app.on_reply(StoreReply::Written(Err("disk full".to_string())));
    assert!(next.is_none());
    assert_eq!(a.app.status_message(), Some("Update failed: disk full"));

    let r = a.app.on_key(key(KeyCode::Char('d')));
    assert!(matches!(r, Some(StoreRequest::SoftDelete(_))));
    a.app.on_reply(StoreReply::Written(Err("locked".to_string())));
    assert_eq!(a.app.status_message(), Some("Delete failed: locked"));

    // A reply nobody waits for changes nothing.
    let before = a.app.selected();
    assert!(a.app.on_reply(StoreReply::Listed(Ok(Vec::new()))).is_none());
    assert_eq!(a.tasks().len(), 1);
    assert_eq!(a.app.selected(), before);
}

#[test]
fn save_failure_keeps_the_form() {
    let mut a = app();
    a.on_key(key(KeyCode::Char('n')));
    type_str(&mut a, "x");
    let r = a.app.on_key(key(KeyCode::Enter));
    match r {
        Some(StoreRequest::Upsert(t)) => {
            assert_eq!(t.title, "x");
            assert_eq!(t.status, Status::Todo);
            assert_eq!(t.created_at, t.updated_at);
        },
        _ => panic!("a new task is written"),
    }
    a.app.on_reply(StoreReply::Written(Err("nope".to_string())));
    assert_eq!(a.app.screen(), Screen::Edit);
    assert_eq!(a.app.status_message(), Some("Save failed: nope"));
}

#[test]
fn deleting_reports_deleted() {
    let mut a = app();
    seed(&mut a, Task::new("bye".into()));
    a.on_key(key(KeyCode::Char('d')));
    assert_eq!(a.app.status_message(), Some("Deleted"));
    assert!(a.store.rows[0].deleted);
    assert!(a.app.visible_tasks().is_empty());
}

#[test]
fn exact_steps_at_a_fixed_moment() {
    let now = Timestamp { secs: 1_750_000_000, nanos: 0 };
    let m = Moment { today: Date::from_days_from_ce(739_000).unwrap(), now, fresh_id: 99 };
    let mut app = App::new(Vec::new());
    assert!(app.on_key_at(key(KeyCode::Char('n')), m).is_none());
    for c in "id".chars() {
        app.on_key_at(key(KeyCode::Char(c)), m);
    }
    match app.on_key_at(key(KeyCode::Enter), m) {
        Some(StoreRequest::Upsert(t)) => {
            assert_eq!(t.id, 99);
            assert_eq!(t.created_at, now);
            assert_eq!(t.updated_at, now);
        },
        _ => panic!("the new task is written"),
    }
    assert!(matches!(app.on_reply_at(StoreReply::Written(Ok(())), m), Some(StoreRequest::ListActive)));
}

fn cursor_in_range(h: &Harness) -> bool {
    let n = h.app.visible_tasks().len();
    if n == 0 { h.app.selected() == 0 } else { h.app.selected() < n }
}

#[test]
fn every_key_keeps_the_cursor_on_the_list() {
    let mut a = app();
    for title in ["one", "two", "three"] {
        seed(&mut a, Task::new(title.to_string()));
    }
    let keys = [
        KeyCode::Tab, KeyCode::Char('j'), KeyCode::Char('j'), KeyCode::Char('j'), KeyCode::Char('?'),
        KeyCode::Esc, KeyCode::Char('/'), KeyCode::Char('/'), KeyCode::Char('/'), KeyCode::Char('/'),
        KeyCode::Char('j'), KeyCode::Char('j'), KeyCode::Char('e'), KeyCode::Esc, KeyCode::Char(' '),
        KeyCode::Char('n'), KeyCode::Char('?'), KeyCode::Esc, KeyCode::Char('d'), KeyCode::Tab,
        KeyCode::Char('j'), KeyCode::Char('d'), KeyCode::Char('k'), KeyCode::Char('d'), KeyCode::Char('d'),
    ];
    for code in keys {
        a.on_key(key(code));
        assert!(cursor_in_range(&a), "cursor left the list after {:?}", code);
        assert!(matches!(a.app.list_screen(), Screen::Today | Screen::All));
    }
    assert!(a.app.visible_tasks().is_empty());
    assert_eq!(a.app.selected(), 0);
}

#[test]
fn plain_reload_leaves_the_cursor_where_it_was() {
    let mut a = app();
    for title in ["one", "two", "three"] {
        seed(&mut a, Task::new(title.to_string()));
    }
    a.on_key(key(KeyCode::Char('j')));
    a.on_key(key(KeyCode::Char('j')));
    assert_eq!(a.app.selected(), 2);
    // Another writer deletes two tasks; a plain refresh does not clamp.
    for row in a.store.rows.iter_mut().take(2) {
        row.deleted = true;
    }
    assert!(a.reload());
    assert_eq!(a.app.visible_tasks().len(), 1);
    assert_eq!(a.app.selected(), 2);
    assert!(a.app.selected_task().is_none());
}

#[test]
fn a_key_clears_the_previous_message_and_sets_only_its_own() {
    let mut a = app();
    seed(&mut a, Task::new("survivor".into()));
    a.store.fail_reads = true;
    assert!(!a.reload());
    assert!(a.app.status_message().unwrap().contains("Failed to reload tasks"));
    a.store.fail_reads = false;
    // A key that sets no message leaves none.
    a.on_key(key(KeyCode::Char('j')));
    assert_eq!(a.app.status_message(), None);
    // A key whose handling refuses says so.
    a.on_key(KeyEvent::new(KeyCode::Char('s'), KeyModifiers::Control));
    assert_eq!(a.app.status_message(), Some("Sync arrives in Phase 3 (local-only build)"));
    a.on_key(key(KeyCode::Char('?')));
    assert_eq!(a.app.status_message(), None);
}
