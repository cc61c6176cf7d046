use enjo::model::{Priority, Task};
use enjo::cli::StatusOptions;
use enjo::model::Status;
use enjo::status::{escape_tmux, format_status, status_output, truncate, DEFAULT_MAX_LEN};

fn task(title: &str) -> Task {
    let mut t = Task::new(title.to_string());
    t.priority = Priority::Medium;
    t
}

#[test]
fn idle_when_nothing_in_progress() {
    assert_eq!(format_status(&[], DEFAULT_MAX_LEN), "idle");
}

#[test]
fn single_task_shows_title() {
    let tasks = vec![task("Write the parser")];
    assert_eq!(format_status(&tasks, DEFAULT_MAX_LEN), "Write the parser");
}

#[test]
fn multiple_in_progress_shows_only_the_first() {
    let tasks = vec![task("Top task"), task("Second"), task("Third")];
    assert_eq!(format_status(&tasks, DEFAULT_MAX_LEN), "Top task");
}

#[test]
fn long_title_is_truncated_with_ellipsis() {
    let tasks = vec![task("abcdefghij")];
    let out = format_status(&tasks, 5);
    assert_eq!(out, "abcd…");
    assert_eq!(out.chars().count(), 5);
}

#[test]
fn truncation_counts_chars_not_bytes() {
    let tasks = vec![task("ééééééé")];
    let out = format_status(&tasks, 3);
    assert_eq!(out, "éé…");
    assert_eq!(out.chars().count(), 3);
}

#[test]
fn title_is_trimmed() {
    let tasks = vec![task("  spaced  ")];
    assert_eq!(format_status(&tasks, DEFAULT_MAX_LEN), "spaced");
}

#[test]
fn zero_max_len_yields_empty() {
    let tasks = vec![task("anything")];
    assert_eq!(format_status(&tasks, 0), "");
}

#[test]
fn escape_tmux_doubles_hashes() {
    assert_eq!(escape_tmux("fix #42 and #[bold]"), "fix ##42 and ##[bold]");
    assert_eq!(escape_tmux("no hashes"), "no hashes");
}

#[test]
fn truncate_edges() {
    // Exactly at the limit: kept whole.
    assert_eq!(truncate("abcde", 5), "abcde");
    // Unicode white space (an ideographic space, a tab) is trimmed too.
    assert_eq!(truncate("\u{3000}\tmid\u{a0}", 10), "mid");
    assert_eq!(truncate("   ", 3), "");
    assert_eq!(truncate("abc", 1), "…");
    assert_eq!(escape_tmux("##"), "####");
    assert_eq!(escape_tmux(""), "");
}

#[test]
fn status_output_escapes_only_for_tmux() {
    let mut running = task("fix #42 soon");
    running.set_status(Status::InProgress);
    let todo = task("not started #1");
    let active = vec![todo, running];
    let plain = StatusOptions { tmux: false, max_len: DEFAULT_MAX_LEN };
    let tmux = StatusOptions { tmux: true, max_len: DEFAULT_MAX_LEN };
    assert_eq!(status_output(&plain, &active), "fix #42 soon");
    assert_eq!(status_output(&tmux, &active), "fix ##42 soon");
    let short = StatusOptions { tmux: true, max_len: 6 };
    assert_eq!(status_output(&short, &active), "fix ##…");
    assert_eq!(status_output(&tmux, &vec![task("waiting #3")]), "idle");
}
