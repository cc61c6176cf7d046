//! Properties of the library that span several functions or every state,
//! proved over the specifications the functions' contracts use.

use vstd::prelude::*;
use vstd::seq_lib::*;
use vstd::multiset::*;
use crate::model::{Date, Priority, Status, TaskView, Timestamp};
use crate::ordering::{sorted_tasks, lemma_sorted_tasks};
use crate::listing::{Pick, picks, picked, today_flat, overview_list};
use crate::app::{
    AppView, EditField, KeyCode, KeyEvent, KeyModifiers, Moment, RequestView, ReplyView, Screen,
    StatusFilter, first_other_in_progress, other_in_progress,
};

verus! {

/// A live task in progress.
pub open spec fn live_in_progress(t: TaskView) -> bool {
    !t.deleted && t.status == Status::InProgress
}

/// At most one task is live and in progress: any two such tasks share one id.
pub open spec fn single_in_progress(s: Seq<TaskView>) -> bool {
    forall|i: int, j: int|
        0 <= i < s.len() && 0 <= j < s.len() && live_in_progress(#[trigger] s[i]) && live_in_progress(
            #[trigger] s[j],
        ) ==> s[i].id == s[j].id
}

/// Writing `t` over the tasks `s` cannot add a second task in progress:
/// when `t` is live and in progress, every live in-progress task of `s` is
/// `t` itself (the same id).
pub open spec fn write_keeps_single(s: Seq<TaskView>, t: TaskView) -> bool {
    live_in_progress(t) ==> forall|i: int| 0 <= i < s.len() && live_in_progress(#[trigger] s[i]) ==> s[i].id == t.id
}

/// The store after an insert-or-replace of `t` by id.
pub open spec fn upserted(s: Seq<TaskView>, t: TaskView) -> Seq<TaskView> {
    if exists|i: int| 0 <= i < s.len() && s[i].id == t.id {
        s.map_values(|u: TaskView| if u.id == t.id { t } else { u })
    } else {
        s.push(t)
    }
}

/// Cycles: four steps of the status filter, of the priority cycle, and three
/// of the status cycle come back to the start; one step back undoes one
/// step forward, for statuses, priorities and edit-form fields.
pub proof fn lemma_cycles(s: Status, p: Priority, f: StatusFilter, e: EditField)
    ensures
        s.spec_next().spec_next().spec_next() == s,
        p.spec_next().spec_next().spec_next().spec_next() == p,
        f.spec_next().spec_next().spec_next().spec_next() == f,
        e.spec_next().spec_prev() == e,
        e.spec_prev().spec_next() == e,
{
}

/// One step back undoes one step forward: for statuses (Shift-S after `s`)
/// and priorities (Shift-P after `p`).
pub proof fn lemma_steps_back_undo(s: Status, p: Priority)
    ensures
        s.spec_next().spec_next().spec_next() == s,
        p.spec_next().spec_next().spec_next().spec_next() == p,
        (s.spec_next().spec_next()).spec_next() == s,
        (p.spec_next().spec_next().spec_next()).spec_next() == p,
{
}

/// The priority rank orders the priorities as declared: Low < Medium < High < Urgent.
pub proof fn lemma_rank_order()
    ensures
        Priority::Low.spec_rank() < Priority::Medium.spec_rank(),
        Priority::Medium.spec_rank() < Priority::High.spec_rank(),
        Priority::High.spec_rank() < Priority::Urgent.spec_rank(),
        forall|a: Priority, b: Priority| a.spec_rank() == b.spec_rank() ==> a == b,
{
}

/// Setting a status keeps `completed_at` set exactly when the task is done;
/// a redundant Done -> Done keeps the first completion instant; the
/// last-write-wins clock becomes the instant of the change.
pub proof fn lemma_set_status_completion(t: TaskView, s: Status, now: Timestamp)
    requires
        t.completion_consistent(),
    ensures
        t.with_status(s, now).completion_consistent(),
        t.with_status(s, now).status == s,
        t.with_status(s, now).updated_at == now,
        t.status == Status::Done && s == Status::Done ==> t.with_status(s, now).completed_at == t.completed_at,
        t.status != Status::Done && s == Status::Done ==> t.with_status(s, now).completed_at == Some(now),
{
}

/// Toggling done twice brings a to-do task back to to-do with no completion
/// instant; once it is done.
pub proof fn lemma_toggle_twice(t: TaskView, now1: Timestamp, now2: Timestamp)
    requires
        t.status == Status::Todo,
    ensures
        t.with_status(t.toggled_status(), now1).status == Status::Done,
        t.with_status(t.toggled_status(), now1).completed_at == Some(now1),
        ({
            let u = t.with_status(t.toggled_status(), now1);
            u.with_status(u.toggled_status(), now2).status == Status::Todo && u.with_status(
                u.toggled_status(),
                now2,
            ).completed_at is None
        }),
{
}

/// A sorted pick holds exactly the tasks of `s` that the pick takes.
pub proof fn lemma_picked_members(s: Seq<TaskView>, p: Pick)
    ensures
        picked(s, p).to_multiset() =~= s.filter(|t: TaskView| picks(p, t)).to_multiset(),
        forall|i: int| 0 <= i < picked(s, p).len() ==> picks(p, #[trigger] picked(s, p)[i]) && s.contains(
            picked(s, p)[i],
        ),
{
    broadcast use group_to_multiset_ensures;
    let f = s.filter(|t: TaskView| picks(p, t));
    lemma_sorted_tasks(f);
    assert forall|i: int| 0 <= i < picked(s, p).len() implies picks(p, #[trigger] picked(s, p)[i])
        && s.contains(picked(s, p)[i]) by {
        let x = picked(s, p)[i];
        assert(picked(s, p).contains(x));
        assert(picked(s, p).to_multiset().count(x) > 0);
        assert(f.contains(x));
        s.lemma_filter_contains_rev(|t: TaskView| picks(p, t), x);
    }
}

/// When no other live task is in progress, none of `s` is.
proof fn lemma_no_other_in_progress(s: Seq<TaskView>, except: Option<u128>)
    requires
        first_other_in_progress(s, except) is None,
    ensures
        forall|i: int| 0 <= i < s.len() ==> !other_in_progress(#[trigger] s[i], except),
    decreases s.len(),
{
    if s.len() > 0 {
        lemma_no_other_in_progress(s.drop_first(), except);
        assert forall|i: int| 0 <= i < s.len() implies !other_in_progress(#[trigger] s[i], except) by {
            if i > 0 {
                assert(s[i] == s.drop_first()[i - 1]);
            }
        }
    }
}

/// Every row of a list screen is one of the loaded tasks, and not deleted.
pub proof fn lemma_rows_are_live_tasks(app: AppView, today: Date)
    ensures
        forall|i: int|
            0 <= i < app.visible(today).len() ==> app.tasks.contains(#[trigger] app.visible(today)[i])
                && !app.visible(today)[i].deleted,
{
    broadcast use vstd::seq_lib::group_seq_properties;
    let v = app.visible(today);
    if app.list_screen() == Screen::All {
        lemma_picked_members(app.tasks, Pick::Filtered(app.filter));
    } else {
        let a = picked(app.tasks, Pick::InProgress);
        let b = picked(app.tasks, Pick::Overdue(today));
        let c = picked(app.tasks, Pick::NextUp(today));
        lemma_picked_members(app.tasks, Pick::InProgress);
        lemma_picked_members(app.tasks, Pick::Overdue(today));
        lemma_picked_members(app.tasks, Pick::NextUp(today));
        assert forall|i: int| 0 <= i < v.len() implies app.tasks.contains(#[trigger] v[i]) && !v[i].deleted by {
            if i < a.len() {
                assert(v[i] == a[i]);
            } else if i < a.len() + b.len() {
                assert(v[i] == b[i - a.len()]);
            } else {
                assert(v[i] == c[i - a.len() - b.len()]);
            }
        }
    }
}

/// The task under the cursor is one of the loaded tasks, and is live.
pub proof fn lemma_selected_is_loaded(app: AppView, today: Date)
    ensures
        app.selected_task(today) matches Some(t) ==> app.tasks.contains(t) && !t.deleted,
{
    lemma_rows_are_live_tasks(app, today);
    if let Some(t) = app.selected_task(today) {
        assert(t == app.visible(today)[app.selected as int]);
    }
}

/// The single-task-in-progress rule, on keys: whenever the task list holds
/// at most one live task in progress, every task a key press asks the
/// store to write keeps it so.
pub proof fn lemma_keys_keep_single_in_progress(app: AppView, key: KeyEvent, m: Moment)
    requires
        single_in_progress(app.tasks),
    ensures
        app.key_step(key, m).1 matches Some(RequestView::Upsert(t)) ==> write_keeps_single(app.tasks, t),
{
    let s = AppView { message: None, pending: crate::app::PendingView::Idle, ..app };
    lemma_selected_is_loaded(s, m.today);
    if let Some(t) = s.selected_task(m.today) {
        let k = choose|k: int| 0 <= k < s.tasks.len() && s.tasks[k] == t;
        assert(s.tasks[k] == t);
        match first_other_in_progress(s.tasks, Some(t.id)) {
            None => lemma_no_other_in_progress(s.tasks, Some(t.id)),
            Some(_) => {},
        }
    }
    match first_other_in_progress(s.tasks, s.edit.editing_id) {
        None => lemma_no_other_in_progress(s.tasks, s.edit.editing_id),
        Some(_) => {},
    }
}

/// The single-task-in-progress rule, on store replies: when the stored copy
/// of the edited task comes back under the edited id, the write that saves
/// it keeps at most one live task in progress.
pub proof fn lemma_replies_keep_single_in_progress(app: AppView, reply: ReplyView, m: Moment)
    requires
        single_in_progress(app.tasks),
        reply matches ReplyView::Fetched(Ok(Some(t))) ==> app.edit.editing_id == Some(t.id),
    ensures
        app.reply_step(reply, m).1 matches Some(RequestView::Upsert(t)) ==> write_keeps_single(app.tasks, t),
{
    match first_other_in_progress(app.tasks, app.edit.editing_id) {
        None => lemma_no_other_in_progress(app.tasks, app.edit.editing_id),
        Some(_) => {},
    }
}

/// A write that keeps the rule, applied to a store that obeys it, leaves a
/// store that obeys it.
pub proof fn lemma_upsert_keeps_single_in_progress(s: Seq<TaskView>, t: TaskView)
    requires
        single_in_progress(s),
        write_keeps_single(s, t),
    ensures
        single_in_progress(upserted(s, t)),
{
    let r = upserted(s, t);
    if exists|i: int| 0 <= i < s.len() && s[i].id == t.id {
        assert forall|i: int, j: int|
            0 <= i < r.len() && 0 <= j < r.len() && live_in_progress(#[trigger] r[i]) && live_in_progress(
                #[trigger] r[j],
            ) implies r[i].id == r[j].id by {
            if s[i].id == t.id {
                assert(r[i] == t);
            } else {
                assert(r[i] == s[i]);
            }
            if s[j].id == t.id {
                assert(r[j] == t);
            } else {
                assert(r[j] == s[j]);
            }
        }
    } else {
        assert forall|i: int, j: int|
            0 <= i < r.len() && 0 <= j < r.len() && live_in_progress(#[trigger] r[i]) && live_in_progress(
                #[trigger] r[j],
            ) implies r[i].id == r[j].id by {
            if i < s.len() {
                assert(r[i] == s[i]);
            }
            if j < s.len() {
                assert(r[j] == s[j]);
            }
        }
    }
}

/// The first index of a task with the id holds a task with that id, and
/// there is one exactly when some task has that id.
proof fn lemma_index_of_id_sound(s: Seq<TaskView>, id: u128)
    ensures
        crate::app::index_of_id(s, id) matches Some(i) ==> 0 <= i < s.len() && s[i].id == id,
        crate::app::index_of_id(s, id) is None ==> forall|k: int| 0 <= k < s.len() ==> (#[trigger] s[k]).id != id,
    decreases s.len(),
{
    if s.len() > 0 {
        lemma_index_of_id_sound(s.drop_first(), id);
        assert forall|k: int| 1 <= k < s.len() implies (#[trigger] s[k]) == s.drop_first()[k - 1] by {}
    }
}

/// After a change the cursor follows its task: when the task with the id is
/// on the list screen, the cursor lands on it; otherwise it is clamped.
pub proof fn lemma_cursor_follows_task(app: AppView, id: u128, today: Date)
    requires
        app.visible(today).len() <= usize::MAX,
    ensures
        (exists|k: int| 0 <= k < app.visible(today).len() && (#[trigger] app.visible(today)[k]).id == id) ==> ({
            let s = app.select_id(id, today);
            s.selected < s.visible(today).len() && s.visible(today)[s.selected as int].id == id
        }),
        !(exists|k: int| 0 <= k < app.visible(today).len() && (#[trigger] app.visible(today)[k]).id == id)
            ==> app.select_id(id, today) == app.clamped(today),
{
    lemma_index_of_id_sound(app.visible(today), id);
    if let Some(i) = crate::app::index_of_id(app.visible(today), id) {
        assert(app.select_id(id, today).visible(today) == app.visible(today));
        assert(app.select_id(id, today).selected as int == i);
    }
}

/// Store failures never crash and never lose the loaded list: a failed
/// read or write leaves the tasks as they were and reports the failure in
/// the status message; a failed read of the edited task, or a failed save,
/// keeps the edit form open.
pub proof fn lemma_failures_keep_state(app: AppView, e: Seq<char>, m: Moment)
    ensures
        app.pending !is Idle ==> {
            let fetched = app.reply_step(ReplyView::Fetched(Err(e)), m);
            let written = app.reply_step(ReplyView::Written(Err(e)), m);
            let listed = app.reply_step(ReplyView::Listed(Err(e)), m);
            &&& fetched.0.tasks == app.tasks && written.0.tasks == app.tasks && listed.0.tasks == app.tasks
            &&& (app.pending is Fetch ==> fetched.0.screen == app.screen && fetched.0.message is Some
                && fetched.1 is None)
            &&& (app.pending is Write ==> written.0.screen == app.screen && written.0.message is Some
                && written.1 is None)
            &&& (app.pending is Reload ==> listed.0.message is Some && listed.1 is None)
        },
{
}

/// A message a key's own handling may leave: none, or one of its refusals.
pub open spec fn key_message(msg: Option<Seq<char>>) -> bool {
    ||| msg is None
    ||| msg == Some("Sync arrives in Phase 3 (local-only build)"@)
    ||| msg == Some("No task selected"@)
    ||| msg == Some("Title cannot be empty"@)
    ||| (exists|d: Seq<char>| msg == Some(crate::app::invalid_date_msg(d)))
    ||| (exists|t: Seq<char>| msg == Some(crate::app::already_in_progress_msg(t)))
}

/// Every key press is handled without a store error: the message left
/// after a key never carries over from before it and is set only by the
/// key's own handling, to one of the refusals below (the sync placeholder,
/// no task under the cursor, an empty title, an unreadable due date, a
/// second task in progress); a key whose handling sets none leaves no
/// message. Store failures arrive later, as replies, and are reported
/// there (see [`lemma_failures_keep_state`]).
#[verifier::spinoff_prover]
#[verifier::rlimit(40)]
pub proof fn lemma_key_messages(app: AppView, key: KeyEvent, m: Moment)
    ensures
        app.key_step(key, m) == (AppView { message: None, ..app }).key_step(key, m),
        key_message(app.key_step(key, m).0.message),
{
    let s = AppView { message: None, pending: crate::app::PendingView::Idle, ..app };
    let msg = app.key_step(key, m).0.message;
    if s.screen == Screen::Edit {
        let title = crate::text::trimmed(s.edit.title);
        let d = crate::text::trimmed(s.edit.due_date);
        if msg == Some(crate::app::invalid_date_msg(d)) {
        }
        match first_other_in_progress(s.tasks, s.edit.editing_id) {
            Some(o) => {
                if msg == Some(crate::app::already_in_progress_msg(o.title)) {
                }
            },
            None => {},
        }
    } else if s.screen != Screen::Help {
        match s.selected_task(m.today) {
            Some(t) => match first_other_in_progress(s.tasks, Some(t.id)) {
                Some(o) => {
                    if msg == Some(crate::app::already_in_progress_msg(o.title)) {
                    }
                },
                None => {},
            },
            None => {},
        }
    }
}

/// Saving a form whose trimmed title is empty, or whose non-empty trimmed
/// due date chrono cannot read, keeps the form open with a message and
/// asks the store for nothing.
pub proof fn lemma_invalid_form_stays_open(app: AppView, m: Moment)
    requires
        app.screen == Screen::Edit,
        crate::text::trimmed(app.edit.title).len() == 0 || (crate::text::trimmed(app.edit.due_date).len() != 0
            && crate::codec::ymd_parsed(crate::text::trimmed(app.edit.due_date)) is None),
    ensures
        ({
            let enter = KeyEvent { code: KeyCode::Enter, modifiers: KeyModifiers::Plain };
            let r = app.key_step(enter, m);
            r.0.screen == Screen::Edit && r.0.message is Some && r.1 is None && r.0.tasks == app.tasks
        }),
{
}

/// The cursor is on a row, or at 0 on an empty list.
pub open spec fn cursor_in_range(app: AppView, today: Date) -> bool {
    if app.visible(today).len() == 0 {
        app.selected == 0
    } else {
        app.selected < app.visible(today).len()
    }
}

/// Navigation clamps and never wraps: `j`/`k` keep a cursor that is on a
/// row on a row (or at 0 on an empty list); `k` at the top and `j` at the
/// bottom stay put; clamping always lands in range.
pub proof fn lemma_navigation_clamps(app: AppView, today: Date)
    ensures
        cursor_in_range(app, today) ==> cursor_in_range(app.select_next(today), today),
        cursor_in_range(app, today) ==> cursor_in_range(app.select_prev(), today),
        cursor_in_range(app.clamped(today), today),
        app.selected == 0 ==> app.select_prev().selected == 0,
        app.visible(today).len() > 0 && app.selected == app.visible(today).len() - 1 ==> app.select_next(
            today,
        ).selected == app.selected,
{
}

/// A list is no longer than the tasks it is drawn from.
proof fn lemma_picked_len(s: Seq<TaskView>, p: Pick)
    ensures
        picked(s, p).len() <= s.len(),
{
    lemma_sorted_tasks(s.filter(|t: TaskView| picks(p, t)));
    s.lemma_filter_len(|t: TaskView| picks(p, t));
}

/// The list the cursor indexes is no longer than the loaded tasks.
proof fn lemma_visible_len(app: AppView, today: Date)
    ensures
        app.visible(today).len() <= app.tasks.len(),
{
    if app.list_screen() == Screen::All {
        lemma_picked_len(app.tasks, Pick::Filtered(app.filter));
    } else {
        broadcast use group_to_multiset_ensures;
        lemma_today_covers_open_tasks(app.tasks, today);
        let open = |t: TaskView| !t.deleted && t.status != Status::Done;
        app.tasks.lemma_filter_len(open);
        assert(today_flat(app.tasks, today).to_multiset().len() == app.tasks.filter(open).to_multiset().len());
    }
}

/// Every key keeps the application's shape: the edit form and the help
/// overlay return to Today or All, and a save in flight is awaited on the
/// edit form. A key that finds the cursor on a row of the list screen in
/// effect (or at 0 on an empty list) leaves it so: no key moves the
/// cursor off the list or changes the list behind it without moving the
/// cursor back onto it.
pub proof fn lemma_keys_keep_cursor_in_range(app: AppView, key: KeyEvent, m: Moment)
    requires
        app.well_formed(),
        app.tasks.len() <= usize::MAX,
    ensures
        app.key_step(key, m).0.well_formed(),
        cursor_in_range(app, m.today) ==> cursor_in_range(app.key_step(key, m).0, m.today),
{
    let s = AppView { message: None, pending: crate::app::PendingView::Idle, ..app };
    assert(s.visible(m.today) == app.visible(m.today));
    match s.screen {
        Screen::Edit => lemma_edit_key_keeps_cursor(s, key, m),
        Screen::Help => {},
        _ => lemma_list_key_keeps_cursor(s, key, m),
    }
}

/// [`lemma_keys_keep_cursor_in_range`] on the Today or All screen.
proof fn lemma_list_key_keeps_cursor(s: AppView, key: KeyEvent, m: Moment)
    requires
        s.well_formed(),
        s.tasks.len() <= usize::MAX,
        s.screen == Screen::Today || s.screen == Screen::All,
        s.pending is Idle,
    ensures
        s.list_key(key, m).0.well_formed(),
        cursor_in_range(s, m.today) ==> cursor_in_range(s.list_key(key, m).0, m.today),
{
    let today = m.today;
    let c = key.code;
    let r = s.list_key(key, m).0;
    if key.is_ctrl_s() {
    } else if c == KeyCode::Char('j') || c == KeyCode::Down {
        lemma_navigation_clamps(s, today);
    } else if c == KeyCode::Char('k') || c == KeyCode::Up {
        lemma_navigation_clamps(s, today);
    } else if c == KeyCode::Char('n') {
        assert(r.visible(today) == s.visible(today));
    } else if c == KeyCode::Char('e') || c == KeyCode::Enter {
        assert(r.visible(today) == s.visible(today));
    } else if c == KeyCode::Char(' ') || c == KeyCode::Char('s') || c == KeyCode::Char('S') || c == KeyCode::Char(
        'p',
    ) || c == KeyCode::Char('P') || c == KeyCode::Char('d') {
        assert(r.visible(today) == s.visible(today));
    } else if c == KeyCode::Char('/') {
        let f = AppView { filter: s.filter.spec_next(), ..s };
        lemma_visible_len(f, today);
        lemma_navigation_clamps(f, today);
    } else if c == KeyCode::Tab {
    } else if c == KeyCode::Char('?') {
        assert(r.visible(today) == s.visible(today));
    } else {
        assert(r.visible(today) == s.visible(today));
    }
}

/// [`lemma_keys_keep_cursor_in_range`] on the edit form.
proof fn lemma_edit_key_keeps_cursor(s: AppView, key: KeyEvent, m: Moment)
    requires
        s.well_formed(),
        s.screen == Screen::Edit,
        s.pending is Idle,
    ensures
        s.edit_key(key, m).0.well_formed(),
        s.edit_key(key, m).0.visible(m.today) == s.visible(m.today),
        s.edit_key(key, m).0.selected == s.selected,
{
}

/// Every store reply keeps the application's shape, and a reply that finds
/// the cursor on a row of the list screen in effect (or at 0 on an empty
/// list) leaves it so, but for the list that a plain refresh
/// ([`crate::app::App::reload`]) brings, which replaces the tasks and
/// leaves the cursor where it was.
pub proof fn lemma_replies_keep_cursor_in_range(app: AppView, reply: ReplyView, m: Moment)
    requires
        app.well_formed(),
        app.tasks.len() <= usize::MAX,
        reply matches ReplyView::Listed(Ok(ts)) ==> ts.len() <= usize::MAX,
    ensures
        app.reply_step(reply, m).0.well_formed(),
        cursor_in_range(app, m.today) && !(app.pending == (crate::app::PendingView::Reload {
            after_reload: crate::app::AfterReload::Refresh,
        }) && reply matches ReplyView::Listed(Ok(_))) ==> cursor_in_range(app.reply_step(reply, m).0, m.today),
{
    let today = m.today;
    let s = app.with_pending(crate::app::PendingView::Idle);
    assert(s.visible(today) == app.visible(today));
    lemma_visible_len(app, today);
    match reply {
        ReplyView::Listed(Ok(ts)) => {
            let t = AppView { tasks: ts, ..s };
            lemma_visible_len(t, today);
            match app.pending {
                crate::app::PendingView::Reload { after_reload: then } => match then {
                    crate::app::AfterReload::Select(id) => {
                        lemma_cursor_follows_task(t, id, today);
                        lemma_index_of_id_sound(t.visible(today), id);
                    },
                    crate::app::AfterReload::Saved(id) => {
                        lemma_cursor_follows_task(t, id, today);
                        lemma_index_of_id_sound(t.visible(today), id);
                    },
                    _ => {},
                },
                _ => {},
            }
        },
        ReplyView::Listed(Err(e)) => {
            match app.pending {
                crate::app::PendingView::Reload { after_reload: crate::app::AfterReload::Select(id) } => {
                    let t = s.with_message("Failed to reload tasks: "@ + e);
                    lemma_visible_len(t, today);
                    lemma_cursor_follows_task(t, id, today);
                    lemma_index_of_id_sound(t.visible(today), id);
                },
                _ => {},
            }
        },
        _ => {},
    }
}

/// `Tab` twice brings a list screen back; `?` then Esc leaves help for the
/// screen it was opened from; `n` then Esc leaves a new form for the list
/// screen it was opened from, with the tasks untouched.
pub proof fn lemma_view_and_help_round_trip(app: AppView, m: Moment)
    requires
        app.screen == Screen::Today || app.screen == Screen::All,
    ensures
        ({
            let tab = KeyEvent { code: KeyCode::Tab, modifiers: KeyModifiers::Plain };
            app.key_step(tab, m).0.key_step(tab, m).0.screen == app.screen
        }),
        ({
            let q = KeyEvent { code: KeyCode::Char('?'), modifiers: KeyModifiers::Plain };
            let esc = KeyEvent { code: KeyCode::Esc, modifiers: KeyModifiers::Plain };
            app.key_step(q, m).0.screen == Screen::Help && app.key_step(q, m).0.key_step(esc, m).0.screen
                == app.screen
        }),
        ({
            let n = KeyEvent { code: KeyCode::Char('n'), modifiers: KeyModifiers::Plain };
            let esc = KeyEvent { code: KeyCode::Esc, modifiers: KeyModifiers::Plain };
            let opened = app.key_step(n, m).0;
            opened.screen == Screen::Edit && opened.key_step(esc, m).0.screen == app.screen
                && opened.key_step(esc, m).0.tasks == app.tasks && opened.key_step(esc, m).1 is None
        }),
{
}

/// The last-write-wins clock, on keys: every task a key press asks the
/// store to write carries the instant of that key press as `updated_at`.
#[verifier::rlimit(50)]
pub proof fn lemma_keys_bump_the_clock(app: AppView, key: KeyEvent, m: Moment)
    ensures
        app.key_step(key, m).1 matches Some(RequestView::Upsert(t)) ==> t.updated_at == m.now,
{
    let s = AppView { message: None, pending: crate::app::PendingView::Idle, ..app };
    if s.screen == Screen::Edit {
        assert(s.key_step(key, m) == s.edit_key(key, m));
    } else if s.screen != Screen::Help {
        assert(s.key_step(key, m) == s.list_key(key, m));
    }
}

/// The last-write-wins clock, on store replies: the write that saves a
/// fetched task carries the instant of the reply as `updated_at`.
pub proof fn lemma_replies_bump_the_clock(app: AppView, reply: ReplyView, m: Moment)
    ensures
        app.reply_step(reply, m).1 matches Some(RequestView::Upsert(t)) ==> t.updated_at == m.now,
{
}

/// Every task a key press asks the store to write keeps `completed_at` set
/// exactly when it is done, when the task under the cursor did; a new
/// task always does.
#[verifier::rlimit(50)]
pub proof fn lemma_keys_keep_completion(app: AppView, key: KeyEvent, m: Moment)
    requires
        forall|i: int| 0 <= i < app.tasks.len() ==> (#[trigger] app.tasks[i]).completion_consistent(),
    ensures
        app.key_step(key, m).1 matches Some(RequestView::Upsert(t)) ==> t.completion_consistent(),
{
    let s = AppView { message: None, pending: crate::app::PendingView::Idle, ..app };
    lemma_selected_is_loaded(s, m.today);
    if let Some(t) = s.selected_task(m.today) {
        let k = choose|k: int| 0 <= k < s.tasks.len() && s.tasks[k] == t;
        assert(s.tasks[k].completion_consistent());
    }
    if s.screen == Screen::Edit {
        assert(s.key_step(key, m) == s.edit_key(key, m));
    } else if s.screen != Screen::Help {
        assert(s.key_step(key, m) == s.list_key(key, m));
    }
}

/// The write that saves a fetched task keeps `completed_at` set exactly
/// when it is done, when the stored copy did.
pub proof fn lemma_replies_keep_completion(app: AppView, reply: ReplyView, m: Moment)
    requires
        reply matches ReplyView::Fetched(Ok(Some(t))) ==> t.completion_consistent(),
    ensures
        app.reply_step(reply, m).1 matches Some(RequestView::Upsert(t)) ==> t.completion_consistent(),
{
}

/// `enjo status` shows the task that heads the "In progress" section of
/// the Today view, or `idle` when that section is empty.
pub proof fn lemma_status_line_heads_today(s: Seq<TaskView>, today: Date, max_len: nat)
    ensures
        crate::status::status_line(picked(s, Pick::InProgress), max_len) == if crate::listing::today_lists(
            s,
            today,
        ).0.len() == 0 {
            "idle"@
        } else {
            crate::status::truncated(crate::listing::today_lists(s, today).0[0].title, max_len)
        },
{
}

/// The Today view shows every live task that is not done exactly once,
/// and nothing else: its three sections together hold exactly those tasks.
pub proof fn lemma_today_covers_open_tasks(s: Seq<TaskView>, today: Date)
    ensures
        today_flat(s, today).to_multiset() =~= s.filter(|t: TaskView| !t.deleted && t.status != Status::Done).to_multiset(),
{
    broadcast use group_to_multiset_ensures;
    lemma_picked_members(s, Pick::InProgress);
    lemma_picked_members(s, Pick::Overdue(today));
    lemma_picked_members(s, Pick::NextUp(today));
    let a = picked(s, Pick::InProgress);
    let b = picked(s, Pick::Overdue(today));
    let c = picked(s, Pick::NextUp(today));
    lemma_multiset_commutative(a + b, c);
    lemma_multiset_commutative(a, b);
    lemma_filter_split3(s, today);
}

/// Filtering by "live and not done" counts each task as the three section
/// filters together count it.
proof fn lemma_filter_split3(s: Seq<TaskView>, today: Date)
    ensures
        s.filter(|t: TaskView| !t.deleted && t.status != Status::Done).to_multiset() =~= s.filter(
            |t: TaskView| picks(Pick::InProgress, t),
        ).to_multiset().add(s.filter(|t: TaskView| picks(Pick::Overdue(today), t)).to_multiset()).add(
            s.filter(|t: TaskView| picks(Pick::NextUp(today), t)).to_multiset(),
        ),
    decreases s.len(),
{
    broadcast use group_to_multiset_ensures, Seq::lemma_filter_push;
    if s.len() > 0 {
        let d = s.drop_last();
        lemma_filter_split3(d, today);
        assert(d.push(s.last()) =~= s);
    } else {
        assert(s.filter(|t: TaskView| !t.deleted && t.status != Status::Done) =~= Seq::<TaskView>::empty()) by {
            reveal(Seq::filter);
        }
        assert(s.filter(|t: TaskView| picks(Pick::InProgress, t)) =~= Seq::<TaskView>::empty()) by {
            reveal(Seq::filter);
        }
        assert(s.filter(|t: TaskView| picks(Pick::Overdue(today), t)) =~= Seq::<TaskView>::empty()) by {
            reveal(Seq::filter);
        }
        assert(s.filter(|t: TaskView| picks(Pick::NextUp(today), t)) =~= Seq::<TaskView>::empty()) by {
            reveal(Seq::filter);
        }
    }
}

/// The overview lists every live task, open ones first and done ones last.
pub proof fn lemma_overview_done_last(s: Seq<TaskView>)
    ensures
        forall|i: int, j: int|
            0 <= i < j < overview_list(s).len() && (#[trigger] overview_list(s)[i]).status == Status::Done
                ==> (#[trigger] overview_list(s)[j]).status == Status::Done,
        forall|i: int| 0 <= i < overview_list(s).len() ==> !(#[trigger] overview_list(s)[i]).deleted,
{
    lemma_picked_members(s, Pick::Open);
    lemma_picked_members(s, Pick::Finished);
    let a = picked(s, Pick::Open);
    let b = picked(s, Pick::Finished);
    assert forall|i: int| 0 <= i < overview_list(s).len() implies !(#[trigger] overview_list(s)[i]).deleted
        && ((i < a.len()) == ((overview_list(s)[i]).status != Status::Done)) by {
        if i < a.len() {
            assert(overview_list(s)[i] == a[i]);
        } else {
            assert(overview_list(s)[i] == b[i - a.len()]);
        }
    }
}

/// A status passes a filter exactly when the filter is `All` or names that
/// status: `Todo` passes only to-do tasks, `InProgress` only tasks in
/// progress, `Done` only done ones.
pub proof fn lemma_filter_passes_named_status(f: StatusFilter, s: Status)
    ensures
        f.spec_matches(s) <==> (f == StatusFilter::All || (f == StatusFilter::Todo && s == Status::Todo) || (f
            == StatusFilter::InProgress && s == Status::InProgress) || (f == StatusFilter::Done && s
            == Status::Done)),
{
}

/// The All view under a filter shows exactly the live loaded tasks whose
/// status the filter passes: every row is such a task, and every such task
/// is a row.
pub proof fn lemma_all_view_obeys_filter(app: AppView, today: Date)
    requires
        app.list_screen() == Screen::All,
    ensures
        forall|i: int|
            0 <= i < app.visible(today).len() ==> {
                let t = #[trigger] app.visible(today)[i];
                &&& app.tasks.contains(t)
                &&& !t.deleted
                &&& (app.filter == StatusFilter::Todo ==> t.status == Status::Todo)
                &&& (app.filter == StatusFilter::InProgress ==> t.status == Status::InProgress)
                &&& (app.filter == StatusFilter::Done ==> t.status == Status::Done)
            },
        forall|t: TaskView|
            app.tasks.contains(t) && !t.deleted && (app.filter == StatusFilter::All || (app.filter
                == StatusFilter::Todo && t.status == Status::Todo) || (app.filter == StatusFilter::InProgress
                && t.status == Status::InProgress) || (app.filter == StatusFilter::Done && t.status
                == Status::Done)) ==> #[trigger] app.visible(today).contains(t),
{
    broadcast use group_to_multiset_ensures;
    let p = Pick::Filtered(app.filter);
    lemma_picked_members(app.tasks, p);
    assert forall|t: TaskView|
        app.tasks.contains(t) && !t.deleted && (app.filter == StatusFilter::All || (app.filter
            == StatusFilter::Todo && t.status == Status::Todo) || (app.filter == StatusFilter::InProgress
            && t.status == Status::InProgress) || (app.filter == StatusFilter::Done && t.status
            == Status::Done)) implies #[trigger] app.visible(today).contains(t) by {
        lemma_filter_passes_named_status(app.filter, t.status);
        let f = app.tasks.filter(|u: TaskView| picks(p, u));
        let k = choose|k: int| 0 <= k < app.tasks.len() && app.tasks[k] == t;
        app.tasks.lemma_filter_contains(|u: TaskView| picks(p, u), k);
        assert(f.contains(t));
        assert(f.to_multiset().count(t) > 0);
        assert(app.visible(today).to_multiset().count(t) > 0);
    }
}

/// `d` soft-deletes the row under the cursor of the list on screen: with
/// the cursor on a row, the request names that row's task; with no row
/// under the cursor, nothing is asked of the store. The loaded tasks are
/// not touched before the store answers.
pub proof fn lemma_delete_takes_row_under_cursor(app: AppView, m: Moment)
    requires
        app.screen == Screen::Today || app.screen == Screen::All,
    ensures
        ({
            let d = KeyEvent { code: KeyCode::Char('d'), modifiers: KeyModifiers::Plain };
            let r = app.key_step(d, m);
            &&& app.selected < app.visible(m.today).len() ==> r.1 == Some(
                RequestView::SoftDelete(app.visible(m.today)[app.selected as int].id),
            )
            &&& app.selected >= app.visible(m.today).len() ==> r.1 is None
            &&& r.0.tasks == app.tasks
        }),
{
    let s = AppView { message: None, pending: crate::app::PendingView::Idle, ..app };
    assert(s.visible(m.today) == app.visible(m.today));
}

/// No key deletes anything but the row under the cursor: whenever a key
/// asks the store for a soft delete, the cursor is on a row of the list on
/// screen and the request names that row's task.
pub proof fn lemma_only_the_row_under_cursor_is_deleted(app: AppView, key: KeyEvent, m: Moment)
    ensures
        app.key_step(key, m).1 matches Some(RequestView::SoftDelete(id)) ==> app.selected < app.visible(
            m.today,
        ).len() && id == app.visible(m.today)[app.selected as int].id,
{
    let s = AppView { message: None, pending: crate::app::PendingView::Idle, ..app };
    assert(s.visible(m.today) == app.visible(m.today));
}

/// `e` opens the form on the task under the cursor and the form holds that
/// task: its id, title, notes, project, due date (as `YYYY-MM-DD`),
/// priority and status, focused on the title; with no task under the
/// cursor the screen stays. Opening asks nothing of the store.
pub proof fn lemma_edit_opens_on_row_under_cursor(app: AppView, m: Moment)
    requires
        app.screen == Screen::Today || app.screen == Screen::All,
    ensures
        ({
            let e = KeyEvent { code: KeyCode::Char('e'), modifiers: KeyModifiers::Plain };
            let r = app.key_step(e, m);
            &&& r.1 is None
            &&& r.0.tasks == app.tasks
            &&& app.selected_task(m.today) is None ==> r.0.screen == app.screen
            &&& app.selected_task(m.today) matches Some(t) ==> {
                &&& r.0.screen == Screen::Edit
                &&& r.0.edit.editing_id == Some(t.id)
                &&& r.0.edit.title == t.title
                &&& r.0.edit.priority == t.priority
                &&& r.0.edit.status == t.status
                &&& (t.notes matches Some(n) ==> r.0.edit.notes == n)
                &&& (t.notes is None ==> r.0.edit.notes.len() == 0)
                &&& (t.project matches Some(p) ==> r.0.edit.project == p)
                &&& (t.project is None ==> r.0.edit.project.len() == 0)
                &&& (t.due_date matches Some(d) ==> r.0.edit.due_date == crate::codec::ymd_text(d))
                &&& (t.due_date is None ==> r.0.edit.due_date.len() == 0)
                &&& r.0.edit.field == EditField::Title
                &&& r.0.edit.return_screen == app.screen
            }
        }),
{
    let s = AppView { message: None, pending: crate::app::PendingView::Idle, ..app };
    assert(s.visible(m.today) == app.visible(m.today));
}

/// Opening the form on a task with `e` and saving it at once with Enter
/// writes the task back unchanged but for the clock: the save reads the
/// task's stored copy by its id, and when that copy is the task itself the
/// write carries the same id, creation instant, priority and status, and
/// the title trimmed.
pub proof fn lemma_unchanged_edit_saves_task_back(app: AppView, m1: Moment, m2: Moment, m3: Moment)
    requires
        app.screen == Screen::Today || app.screen == Screen::All,
        app.selected_task(m1.today) is Some,
    ensures
        ({
            let t = app.selected_task(m1.today)->0;
            let e = KeyEvent { code: KeyCode::Char('e'), modifiers: KeyModifiers::Plain };
            let enter = KeyEvent { code: KeyCode::Enter, modifiers: KeyModifiers::Plain };
            let opened = app.key_step(e, m1).0;
            let saved = opened.key_step(enter, m2);
            &&& saved.1 matches Some(RequestView::Get(id)) ==> id == t.id
            &&& saved.1 matches Some(RequestView::Get(_)) ==> {
                let w = saved.0.reply_step(ReplyView::Fetched(Ok(Some(t))), m3);
                w.1 matches Some(RequestView::Upsert(u)) ==> {
                    &&& u.id == t.id
                    &&& u.created_at == t.created_at
                    &&& u.priority == t.priority
                    &&& u.status == t.status
                    &&& u.title == crate::text::trimmed(t.title)
                }
            }
            &&& (saved.1 is None ==> saved.0.message is Some && saved.0.screen == Screen::Edit)
        }),
{
    let s = AppView { message: None, pending: crate::app::PendingView::Idle, ..app };
    assert(s.visible(m1.today) == app.visible(m1.today));
}

} // verus!
