//! The task lists the screens show: the three Today sections, the filtered
//! All list and the overview, each in the shared order.

use vstd::prelude::*;
use crate::model::{Date, Status, Task, TaskView};
use crate::ordering::{views, sorted_tasks, sort_tasks};
use crate::app::StatusFilter;

verus! {

/// Which tasks a list takes.
#[derive(Clone, Copy)]
pub enum Pick {
    /// Non-deleted tasks in progress.
    InProgress,
    /// Non-deleted to-do tasks due on or before the given day.
    Overdue(Date),
    /// Non-deleted to-do tasks without a due date on or before the given day.
    NextUp(Date),
    /// Non-deleted tasks passing the status filter.
    Filtered(StatusFilter),
    /// Non-deleted tasks not done.
    Open,
    /// Non-deleted tasks done.
    Finished,
}

/// The to-do task is due on or before `today`.
pub open spec fn due_by(t: TaskView, today: Date) -> bool {
    t.due_date matches Some(d) && d.days() <= today.days()
}

/// `p` takes task `t`.
pub open spec fn picks(p: Pick, t: TaskView) -> bool {
    !t.deleted && match p {
        Pick::InProgress => t.status == Status::InProgress,
        Pick::Overdue(today) => t.status == Status::Todo && due_by(t, today),
        Pick::NextUp(today) => t.status == Status::Todo && !due_by(t, today),
        Pick::Filtered(f) => f.spec_matches(t.status),
        Pick::Open => t.status != Status::Done,
        Pick::Finished => t.status == Status::Done,
    }
}

/// The tasks `p` takes, in the shared order.
pub open spec fn picked(tasks: Seq<TaskView>, p: Pick) -> Seq<TaskView> {
    sorted_tasks(tasks.filter(|t: TaskView| picks(p, t)))
}

/// The Today view, section by section: in progress; to-do due today or
/// earlier; every other to-do.
pub open spec fn today_lists(tasks: Seq<TaskView>, today: Date) -> (Seq<TaskView>, Seq<TaskView>, Seq<TaskView>) {
    (picked(tasks, Pick::InProgress), picked(tasks, Pick::Overdue(today)), picked(tasks, Pick::NextUp(today)))
}

/// The flattened Today list the cursor indexes: the three sections in order.
pub open spec fn today_flat(tasks: Seq<TaskView>, today: Date) -> Seq<TaskView> {
    picked(tasks, Pick::InProgress) + picked(tasks, Pick::Overdue(today)) + picked(tasks, Pick::NextUp(today))
}

/// The All view: non-deleted tasks passing the filter.
pub open spec fn all_list(tasks: Seq<TaskView>, filter: StatusFilter) -> Seq<TaskView> {
    picked(tasks, Pick::Filtered(filter))
}

/// The overview: non-deleted open tasks, then the done ones, each in order.
pub open spec fn overview_list(tasks: Seq<TaskView>) -> Seq<TaskView> {
    picked(tasks, Pick::Open) + picked(tasks, Pick::Finished)
}

/// Whether `p` takes `t`.
pub fn picks_task(p: Pick, t: &Task) -> (r: bool)
    ensures
        r == picks(p, t@),
{
    if t.deleted {
        return false;
    }
    match p {
        Pick::InProgress => t.status == Status::InProgress,
        Pick::Overdue(today) => t.status == Status::Todo && is_due_by(t, today),
        Pick::NextUp(today) => t.status == Status::Todo && !is_due_by(t, today),
        Pick::Filtered(f) => f.matches(t.status),
        Pick::Open => t.status != Status::Done,
        Pick::Finished => t.status == Status::Done,
    }
}

fn is_due_by(t: &Task, today: Date) -> (r: bool)
    ensures
        r == due_by(t@, today),
{
    match t.due_date {
        Some(d) => d.days_from_ce() <= today.days_from_ce(),
        None => false,
    }
}

/// Copies of the tasks `p` takes, in their order in `tasks`.
pub fn filter_tasks(tasks: &Vec<Task>, p: Pick) -> (r: Vec<Task>)
    ensures
        views(r@) == views(tasks@).filter(|t: TaskView| picks(p, t)),
{
    let ghost pred = |t: TaskView| picks(p, t);
    let mut out: Vec<Task> = Vec::new();
    let n = tasks.len();
    let mut i: usize = 0;
    while i < n
        invariant
            n == tasks@.len(),
            i <= n,
            pred == (|t: TaskView| picks(p, t)),
            views(out@) == views(tasks@).take(i as int).filter(pred),
        decreases n - i,
    {
        proof {
            broadcast use vstd::seq_lib::group_seq_properties;
            assert(views(tasks@).take(i as int + 1) =~= views(tasks@).take(i as int).push(tasks@[i as int]@));
            views(tasks@).take(i as int).lemma_filter_push(tasks@[i as int]@, pred);
        }
        if picks_task(p, &tasks[i]) {
            let t = tasks[i].clone();
            out.push(t);
            proof {
                assert(pred(tasks@[i as int]@));
                assert(views(out@) =~= views(tasks@).take(i as int).filter(pred).push(tasks@[i as int]@));
            }
        } else {
            proof {
                assert(!pred(tasks@[i as int]@));
            }
        }
        i = i + 1;
    }
    proof {
        assert(views(tasks@).take(n as int) =~= views(tasks@));
    }
    out
}

/// The tasks `p` takes, in the shared order.
pub fn pick_sorted(tasks: &Vec<Task>, p: Pick) -> (r: Vec<Task>)
    ensures
        views(r@) == picked(views(tasks@), p),
{
    let mut out = filter_tasks(tasks, p);
    sort_tasks(&mut out);
    out
}

/// Concatenation of task vectors.
pub fn concat_tasks(a: Vec<Task>, b: Vec<Task>) -> (r: Vec<Task>)
    ensures
        views(r@) == views(a@) + views(b@),
{
    let ghost a0 = a@;
    let ghost b0 = b@;
    let mut a = a;
    let mut b = b;
    a.append(&mut b);
    proof {
        assert(views(a@) =~= views(a0) + views(b0));
    }
    a
}

} // verus!
