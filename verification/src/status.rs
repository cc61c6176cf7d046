//! The one-line `enjo status` summary for a status bar (e.g. tmux): the
//! title of the leading in-progress task, truncated, or `idle`.

use vstd::prelude::*;
use vstd::string::*;
use crate::model::{Task, TaskView};
use crate::ordering::views;
use crate::listing::{Pick, picked, pick_sorted};
use crate::cli::StatusOptions;
use crate::text::{push_char, trim, trimmed};

verus! {

/// Default maximum width (in characters) of the rendered title before it is
/// truncated with an ellipsis.
pub const DEFAULT_MAX_LEN: usize = 40;

/// Text shown when nothing is in progress.
pub const IDLE_TEXT: &'static str = "idle";

/// The ellipsis that marks a cut title.
pub open spec fn ellipsis() -> char {
    '\u{2026}'
}

/// `s` trimmed, then cut to at most `max_len` characters; a cut keeps the
/// first `max_len - 1` characters and appends an ellipsis.
pub open spec fn truncated(s: Seq<char>, max_len: nat) -> Seq<char> {
    let t = trimmed(s);
    if t.len() <= max_len {
        t
    } else if max_len == 0 {
        Seq::empty()
    } else {
        t.take(max_len - 1).push(ellipsis())
    }
}

/// The status line for the in-progress tasks in Today order: the leading
/// task's title truncated to `max_len`, or `idle` when there is none.
pub open spec fn status_line(in_progress: Seq<TaskView>, max_len: nat) -> Seq<char> {
    if in_progress.len() == 0 {
        "idle"@
    } else {
        truncated(in_progress[0].title, max_len)
    }
}

/// Truncate `s` to at most `max_len` characters (counting Unicode scalar
/// values, not bytes), appending `…` when anything was dropped. Surrounding
/// whitespace is trimmed first.
pub fn truncate(s: &str, max_len: usize) -> (r: String)
    ensures
        r@ == truncated(s@, max_len as nat),
        r@.len() <= max_len,
{
    let t = trim(s);
    let n = t.as_str().unicode_len();
    if n <= max_len {
        return t;
    }
    if max_len == 0 {
        return String::new();
    }
    let mut out = String::from_str(t.as_str().substring_char(0, max_len - 1));
    push_char(&mut out, '\u{2026}');
    proof {
        assert(out@ =~= trimmed(s@).take(max_len - 1).push(ellipsis()));
    }
    out
}

/// Build the one-line status string from the in-progress tasks (already in
/// Today sort order). Shows the leading task's title truncated to
/// `max_len`, or `idle` when none is in progress.
pub fn format_status(in_progress: &[Task], max_len: usize) -> (r: String)
    ensures
        r@ == status_line(in_progress@.map_values(|t: Task| t@), max_len as nat),
{
    if in_progress.len() == 0 {
        String::from_str(IDLE_TEXT)
    } else {
        truncate(in_progress[0].title.as_str(), max_len)
    }
}

/// `s` with every `#` doubled, the rest kept.
pub open spec fn tmux_escaped(s: Seq<char>) -> Seq<char>
    decreases s.len(),
{
    if s.len() == 0 {
        s
    } else {
        tmux_escaped(s.drop_last()) + if s.last() == '#' {
            seq!['#', '#']
        } else {
            seq![s.last()]
        }
    }
}

/// Escape `#` as `##` so that arbitrary task titles cannot inject tmux format
/// sequences (`#[...]`, `#{...}`, `#(...)`) into the status line. In tmux `##`
/// renders as a single literal `#`.
pub fn escape_tmux(s: &str) -> (r: String)
    ensures
        r@ == tmux_escaped(s@),
{
    let n = s.unicode_len();
    let mut out = String::new();
    let mut i: usize = 0;
    while i < n
        invariant
            n == s@.len(),
            i <= n,
            out@ == tmux_escaped(s@.take(i as int)),
        decreases n - i,
    {
        let c = s.get_char(i);
        proof {
            assert(s@.take(i as int + 1).drop_last() =~= s@.take(i as int));
        }
        if c == '#' {
            push_char(&mut out, '#');
            push_char(&mut out, '#');
        } else {
            push_char(&mut out, c);
        }
        proof {
            assert(out@ =~= tmux_escaped(s@.take(i as int + 1)));
        }
        i = i + 1;
    }
    proof {
        assert(s@.take(n as int) =~= s@);
    }
    out
}

/// What `enjo status` prints for the active tasks: the status line of the
/// in-progress tasks in Today order, cut to `max_len`, with `#` escaped
/// for tmux exactly when `tmux` is asked for.
pub open spec fn status_output_text(active: Seq<TaskView>, tmux: bool, max_len: nat) -> Seq<char> {
    let line = status_line(picked(active, Pick::InProgress), max_len);
    if tmux {
        tmux_escaped(line)
    } else {
        line
    }
}

/// The line `enjo status` prints for the active tasks under the given
/// options: [`format_status`] of the in-progress tasks in Today order with
/// the option's width, passed through [`escape_tmux`] when `--tmux` was given.
pub fn status_output(options: &StatusOptions, active: &Vec<Task>) -> (r: String)
    ensures
        r@ == status_output_text(views(active@), options.tmux, options.max_len as nat),
{
    let in_progress = pick_sorted(active, Pick::InProgress);
    let line = format_status(in_progress.as_slice(), options.max_len);
    proof {
        assert(in_progress@.map_values(|t: Task| t@) =~= views(in_progress@));
    }
    if options.tmux {
        escape_tmux(line.as_str())
    } else {
        line
    }
}

} // verus!
