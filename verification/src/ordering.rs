//! The shared task order of the Today and All views: priority descending,
//! then due date ascending (no due date last), then creation instant
//! ascending; tasks that tie keep their relative order.

use vstd::prelude::*;
use vstd::seq_lib::*;
use vstd::multiset::*;
use crate::model::{Date, Task, TaskView, DATE_MAX_DAYS};

verus! {

/// The views of a sequence of tasks.
pub open spec fn views(v: Seq<Task>) -> Seq<TaskView> {
    v.map_values(|t: Task| t@)
}

/// The date a task sorts by: its due date, or the last representable date
/// when it has none.
pub open spec fn due_key(d: Option<Date>) -> int {
    match d {
        Some(x) => x.days(),
        None => DATE_MAX_DAYS as int,
    }
}

/// `a` sorts strictly before `b`.
pub open spec fn sorts_before(a: TaskView, b: TaskView) -> bool {
    ||| a.priority.spec_rank() > b.priority.spec_rank()
    ||| (a.priority.spec_rank() == b.priority.spec_rank() && due_key(a.due_date) < due_key(b.due_date))
    ||| (a.priority.spec_rank() == b.priority.spec_rank() && due_key(a.due_date) == due_key(b.due_date)
        && a.created_at.before(b.created_at))
}

/// `a` and `b` tie in the order: same priority, same due key, same creation instant.
pub open spec fn same_key(a: TaskView, b: TaskView) -> bool {
    &&& a.priority.spec_rank() == b.priority.spec_rank()
    &&& due_key(a.due_date) == due_key(b.due_date)
    &&& a.created_at == b.created_at
}

/// No task of `s` sorts strictly before an earlier one.
pub open spec fn is_sorted(s: Seq<TaskView>) -> bool {
    forall|i: int, j: int| 0 <= i < j < s.len() ==> !sorts_before(#[trigger] s[j], #[trigger] s[i])
}

/// Where `x` goes in `s`: after every task it does not sort before,
/// scanning from the back.
pub open spec fn insertion_point(s: Seq<TaskView>, x: TaskView) -> int
    decreases s.len(),
{
    if s.len() == 0 {
        0
    } else if sorts_before(x, s.last()) {
        insertion_point(s.drop_last(), x)
    } else {
        s.len() as int
    }
}

/// `s` with `x` inserted after every task that `x` does not sort before.
pub open spec fn insert_sorted(s: Seq<TaskView>, x: TaskView) -> Seq<TaskView> {
    s.insert(insertion_point(s, x), x)
}

/// The tasks of `s` in the shared order, ties in their order in `s`.
pub open spec fn sorted_tasks(s: Seq<TaskView>) -> Seq<TaskView>
    decreases s.len(),
{
    if s.len() == 0 {
        s
    } else {
        insert_sorted(sorted_tasks(s.drop_last()), s.last())
    }
}

/// The tasks of `s` that tie with `k`.
pub open spec fn key_class(s: Seq<TaskView>, k: TaskView) -> Seq<TaskView> {
    s.filter(|t: TaskView| same_key(t, k))
}

/// The order is a strict weak order on tasks.
pub proof fn lemma_sorts_before_order(a: TaskView, b: TaskView, c: TaskView)
    ensures
        !sorts_before(a, a),
        sorts_before(a, b) ==> !sorts_before(b, a),
        sorts_before(a, b) && sorts_before(b, c) ==> sorts_before(a, c),
        !sorts_before(a, b) && !sorts_before(b, c) ==> !sorts_before(a, c),
        same_key(a, b) ==> !sorts_before(a, b) && !sorts_before(b, a),
        same_key(a, b) ==> (sorts_before(a, c) == sorts_before(b, c)),
{
}

/// The insertion point is in range; every task after it sorts after `x`,
/// and `x` does not sort before the task just before it.
pub proof fn lemma_insertion_point(s: Seq<TaskView>, x: TaskView)
    ensures
        0 <= insertion_point(s, x) <= s.len(),
        forall|k: int| insertion_point(s, x) <= k < s.len() ==> sorts_before(x, #[trigger] s[k]),
        insertion_point(s, x) > 0 ==> !sorts_before(x, s[insertion_point(s, x) - 1]),
    decreases s.len(),
{
    if s.len() > 0 && sorts_before(x, s.last()) {
        lemma_insertion_point(s.drop_last(), x);
        let p = insertion_point(s.drop_last(), x);
        assert forall|k: int| p <= k < s.len() implies sorts_before(x, #[trigger] s[k]) by {
            if k < s.len() - 1 {
                assert(s[k] == s.drop_last()[k]);
            }
        }
    }
}

/// Any position with the properties of [`lemma_insertion_point`] is the insertion point.
pub proof fn lemma_insertion_point_unique(s: Seq<TaskView>, x: TaskView, p: int)
    requires
        0 <= p <= s.len(),
        forall|k: int| p <= k < s.len() ==> sorts_before(x, #[trigger] s[k]),
        p > 0 ==> !sorts_before(x, s[p - 1]),
    ensures
        insertion_point(s, x) == p,
    decreases s.len(),
{
    if s.len() > 0 && p < s.len() {
        assert(sorts_before(x, s[s.len() - 1]));
        assert forall|k: int| p <= k < s.drop_last().len() implies sorts_before(x, #[trigger] s.drop_last()[k]) by {
            assert(s.drop_last()[k] == s[k]);
        }
        if p > 0 {
            assert(s.drop_last()[p - 1] == s[p - 1]);
        }
        lemma_insertion_point_unique(s.drop_last(), x, p);
    }
}

/// Inserting into a sorted sequence keeps it sorted.
pub proof fn lemma_insert_sorted_sorted(s: Seq<TaskView>, x: TaskView)
    requires
        is_sorted(s),
    ensures
        is_sorted(insert_sorted(s, x)),
{
    lemma_insertion_point(s, x);
    let p = insertion_point(s, x);
    let r = insert_sorted(s, x);
    s.insert_ensures(p, x);
    assert forall|i: int, j: int| 0 <= i < j < r.len() implies !sorts_before(#[trigger] r[j], #[trigger] r[i]) by {
        if j < p {
            assert(r[i] == s[i] && r[j] == s[j]);
        } else if j == p {
            assert(r[i] == s[i]);
            assert(!sorts_before(x, s[p - 1]));
            if i < p - 1 {
                assert(!sorts_before(s[p - 1], s[i]));
                lemma_sorts_before_order(x, s[p - 1], s[i]);
            }
        } else if i == p {
            assert(r[j] == s[j - 1]);
            assert(sorts_before(x, s[j - 1]));
            lemma_sorts_before_order(x, s[j - 1], x);
        } else if i < p {
            assert(r[i] == s[i] && r[j] == s[j - 1]);
        } else {
            assert(r[i] == s[i - 1] && r[j] == s[j - 1]);
        }
    }
}

/// Inserting adds `x` to the multiset of tasks.
pub proof fn lemma_insert_sorted_multiset(s: Seq<TaskView>, x: TaskView)
    ensures
        insert_sorted(s, x).to_multiset() =~= s.to_multiset().insert(x),
{
    broadcast use group_to_multiset_ensures;
    lemma_insertion_point(s, x);
    let p = insertion_point(s, x);
    let a = s.subrange(0, p);
    let b = s.subrange(p, s.len() as int);
    assert(s =~= a + b);
    assert(insert_sorted(s, x) =~= a.push(x) + b);
    lemma_multiset_commutative(a.push(x), b);
    lemma_multiset_commutative(a, b);
}

/// Inserting keeps each class of tied tasks in order, with `x` last in its class.
pub proof fn lemma_insert_sorted_classes(s: Seq<TaskView>, x: TaskView, k: TaskView)
    ensures
        key_class(insert_sorted(s, x), k) == key_class(s.push(x), k),
{
    broadcast use Seq::filter_distributes_over_add, Seq::lemma_filter_push;
    lemma_insertion_point(s, x);
    let p = insertion_point(s, x);
    let pred = |t: TaskView| same_key(t, k);
    let a = s.subrange(0, p);
    let b = s.subrange(p, s.len() as int);
    assert(s =~= a + b);
    assert(insert_sorted(s, x) =~= a.push(x) + b);
    assert((a.push(x) + b).filter(pred) == a.push(x).filter(pred) + b.filter(pred));
    assert((a + b).filter(pred) == a.filter(pred) + b.filter(pred));
    if same_key(x, k) {
        assert forall|q: int| 0 <= q < b.len() implies !pred(#[trigger] b[q]) by {
            assert(b[q] == s[p + q]);
            assert(sorts_before(x, s[p + q]));
            lemma_sorts_before_order(x, k, s[p + q]);
            lemma_sorts_before_order(k, x, s[p + q]);
            lemma_sorts_before_order(s[p + q], k, x);
        }
        b.lemma_all_neg_filter_empty(pred);
        assert(b.filter(pred) =~= Seq::<TaskView>::empty());
        assert(a.push(x).filter(pred) == a.filter(pred).push(x));
        assert(s.push(x).filter(pred) == s.filter(pred).push(x));
        assert(a.filter(pred) + Seq::<TaskView>::empty() =~= a.filter(pred));
        assert(a.filter(pred).push(x) + Seq::<TaskView>::empty() =~= a.filter(pred).push(x));
    } else {
        assert(a.push(x).filter(pred) == a.filter(pred));
        assert(s.push(x).filter(pred) == s.filter(pred));
    }
}

/// The law of the shared order: the result is sorted, holds the same tasks,
/// and keeps tied tasks in their order in the input (a stable sort).
pub proof fn lemma_sorted_tasks(s: Seq<TaskView>)
    ensures
        is_sorted(sorted_tasks(s)),
        sorted_tasks(s).to_multiset() =~= s.to_multiset(),
        sorted_tasks(s).len() == s.len(),
        forall|k: TaskView| #[trigger] key_class(sorted_tasks(s), k) == key_class(s, k),
    decreases s.len(),
{
    broadcast use group_to_multiset_ensures, Seq::lemma_filter_push;
    if s.len() == 0 {
    } else {
        let d = s.drop_last();
        lemma_sorted_tasks(d);
        lemma_insert_sorted_sorted(sorted_tasks(d), s.last());
        lemma_insert_sorted_multiset(sorted_tasks(d), s.last());
        lemma_insertion_point(sorted_tasks(d), s.last());
        sorted_tasks(d).insert_ensures(insertion_point(sorted_tasks(d), s.last()), s.last());
        assert(d.push(s.last()) =~= s);
        assert forall|k: TaskView| #[trigger] key_class(sorted_tasks(s), k) == key_class(s, k) by {
            lemma_insert_sorted_classes(sorted_tasks(d), s.last(), k);
            let pred = |t: TaskView| same_key(t, k);
            assert(key_class(sorted_tasks(d), k) == key_class(d, k));
            assert(sorted_tasks(d).push(s.last()).filter(pred) == if pred(s.last()) {
                sorted_tasks(d).filter(pred).push(s.last())
            } else {
                sorted_tasks(d).filter(pred)
            });
            assert(d.push(s.last()).filter(pred) == if pred(s.last()) {
                d.filter(pred).push(s.last())
            } else {
                d.filter(pred)
            });
        }
    }
}

/// `a` sorts strictly before `b` (executable form of [`sorts_before`]).
pub fn task_sorts_before(a: &Task, b: &Task) -> (r: bool)
    ensures
        r == sorts_before(a@, b@),
{
    let ra = a.priority.rank();
    let rb = b.priority.rank();
    if ra != rb {
        return ra > rb;
    }
    let da = due_key_of(a.due_date);
    let db = due_key_of(b.due_date);
    if da != db {
        return da < db;
    }
    a.created_at.secs < b.created_at.secs || (a.created_at.secs == b.created_at.secs
        && a.created_at.nanos < b.created_at.nanos)
}

/// Map a due date to its sort key, sending `None` to the last representable
/// date so undated tasks sort last.
pub fn due_key_of(d: Option<Date>) -> (r: i32)
    ensures
        r == due_key(d),
{
    match d {
        Some(x) => x.days_from_ce(),
        None => DATE_MAX_DAYS,
    }
}

/// Sort tasks in the shared order: priority descending, then due date
/// ascending (none last), then creation ascending; ties keep their order.
pub fn sort_tasks(tasks: &mut Vec<Task>)
    ensures
        views(final(tasks)@) == sorted_tasks(views(old(tasks)@)),
{
    let ghost input = views(tasks@);
    let mut out: Vec<Task> = Vec::new();
    let n = tasks.len();
    let mut i: usize = 0;
    while i < n
        invariant
            n == tasks@.len(),
            i <= n,
            input == views(tasks@),
            views(out@) == sorted_tasks(input.subrange(0, i as int)),
        decreases n - i,
    {
        let x = tasks[i].clone();
        let ghost before = views(out@);
        let mut j: usize = out.len();
        while j > 0 && task_sorts_before(&x, &out[j - 1])
            invariant
                j <= out@.len(),
                before == views(out@),
                forall|k: int| j <= k < out@.len() ==> sorts_before(x@, #[trigger] before[k]),
            decreases j,
        {
            j = j - 1;
        }
        proof {
            assert(j > 0 ==> !sorts_before(x@, before[j - 1]));
            lemma_insertion_point_unique(before, x@, j as int);
        }
        out.insert(j, x);
        proof {
            let prefix = input.subrange(0, i as int + 1);
            assert(prefix.drop_last() =~= input.subrange(0, i as int));
            assert(prefix.last() == x@);
            assert(views(out@) =~= before.insert(j as int, x@));
        }
        i = i + 1;
    }
    proof {
        assert(input.subrange(0, n as int) =~= input);
    }
    *tasks = out;
}

} // verus!
