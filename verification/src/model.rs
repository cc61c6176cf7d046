//! The task model: status, priority, calendar dates, instants and tasks.

use vstd::prelude::*;
use crate::text::same_text;
use crate::clock;

verus! {

/// Lifecycle state of a [`Task`].
#[derive(Debug, Clone, Copy, PartialEq, Eq, Structural)]
pub enum Status {
    Todo,
    InProgress,
    Done,
}

impl Status {
    /// The snake_case spelling used for storage and the wire format.
    pub open spec fn spec_as_str(self) -> Seq<char> {
        match self {
            Status::Todo => "todo"@,
            Status::InProgress => "in_progress"@,
            Status::Done => "done"@,
        }
    }

    /// snake_case TEXT encoding used for SQLite columns and the sync wire format.
    pub fn as_str(&self) -> (r: &'static str)
        ensures
            r@ == self.spec_as_str(),
    {
        match self {
            Status::Todo => "todo",
            Status::InProgress => "in_progress",
            Status::Done => "done",
        }
    }

    /// The status whose spelling is `s`, if any.
    pub open spec fn spec_from_str(s: Seq<char>) -> Option<Status> {
        if s == "todo"@ {
            Some(Status::Todo)
        } else if s == "in_progress"@ {
            Some(Status::InProgress)
        } else if s == "done"@ {
            Some(Status::Done)
        } else {
            None
        }
    }

    /// Parse the snake_case TEXT encoding produced by [`Status::as_str`];
    /// `None` for any other text, so callers decide how to treat corrupt data.
    pub fn from_str(s: &str) -> (r: Option<Status>)
        ensures
            r == Status::spec_from_str(s@),
    {
        if same_text(s, "todo") {
            Some(Status::Todo)
        } else if same_text(s, "in_progress") {
            Some(Status::InProgress)
        } else if same_text(s, "done") {
            Some(Status::Done)
        } else {
            None
        }
    }

    /// The next status in the cycle Todo -> InProgress -> Done -> Todo.
    pub open spec fn spec_next(self) -> Status {
        match self {
            Status::Todo => Status::InProgress,
            Status::InProgress => Status::Done,
            Status::Done => Status::Todo,
        }
    }

    /// Cycle to the next status, wrapping around (the `s` key).
    pub fn next(self) -> (r: Status)
        ensures
            r == self.spec_next(),
    {
        match self {
            Status::Todo => Status::InProgress,
            Status::InProgress => Status::Done,
            Status::Done => Status::Todo,
        }
    }

}

impl Default for Status {
    /// A new task starts as `Todo`.
    fn default() -> (r: Status)
        ensures
            r == Status::Todo,
    {
        Status::Todo
    }
}

/// Task priority, in ascending importance.
#[derive(Debug, Clone, Copy, PartialEq, Eq, PartialOrd, Ord, Hash, Structural)]
pub enum Priority {
    Low,
    Medium,
    High,
    Urgent,
}

impl Priority {
    /// The snake_case spelling used for storage and the wire format.
    pub open spec fn spec_as_str(self) -> Seq<char> {
        match self {
            Priority::Low => "low"@,
            Priority::Medium => "medium"@,
            Priority::High => "high"@,
            Priority::Urgent => "urgent"@,
        }
    }

    /// snake_case TEXT encoding used for SQLite columns and the sync wire format.
    pub fn as_str(&self) -> (r: &'static str)
        ensures
            r@ == self.spec_as_str(),
    {
        match self {
            Priority::Low => "low",
            Priority::Medium => "medium",
            Priority::High => "high",
            Priority::Urgent => "urgent",
        }
    }

    /// The priority whose spelling is `s`, if any.
    pub open spec fn spec_from_str(s: Seq<char>) -> Option<Priority> {
        if s == "low"@ {
            Some(Priority::Low)
        } else if s == "medium"@ {
            Some(Priority::Medium)
        } else if s == "high"@ {
            Some(Priority::High)
        } else if s == "urgent"@ {
            Some(Priority::Urgent)
        } else {
            None
        }
    }

    /// Parse the snake_case TEXT encoding produced by [`Priority::as_str`].
    pub fn from_str(s: &str) -> (r: Option<Priority>)
        ensures
            r == Priority::spec_from_str(s@),
    {
        if same_text(s, "low") {
            Some(Priority::Low)
        } else if same_text(s, "medium") {
            Some(Priority::Medium)
        } else if same_text(s, "high") {
            Some(Priority::High)
        } else if same_text(s, "urgent") {
            Some(Priority::Urgent)
        } else {
            None
        }
    }

    /// Numeric rank, higher is more important.
    pub open spec fn spec_rank(self) -> int {
        match self {
            Priority::Low => 0,
            Priority::Medium => 1,
            Priority::High => 2,
            Priority::Urgent => 3,
        }
    }

    /// Numeric rank for sorting (higher = more important); it orders the
    /// priorities as their declaration does.
    pub fn rank(&self) -> (r: i32)
        ensures
            r == self.spec_rank(),
    {
        match self {
            Priority::Low => 0,
            Priority::Medium => 1,
            Priority::High => 2,
            Priority::Urgent => 3,
        }
    }

    /// The next priority in the cycle Low -> Medium -> High -> Urgent -> Low.
    pub open spec fn spec_next(self) -> Priority {
        match self {
            Priority::Low => Priority::Medium,
            Priority::Medium => Priority::High,
            Priority::High => Priority::Urgent,
            Priority::Urgent => Priority::Low,
        }
    }

    /// Cycle to the next priority, wrapping around (the `p` key).
    pub fn next(self) -> (r: Priority)
        ensures
            r == self.spec_next(),
    {
        match self {
            Priority::Low => Priority::Medium,
            Priority::Medium => Priority::High,
            Priority::High => Priority::Urgent,
            Priority::Urgent => Priority::Low,
        }
    }

}

impl Default for Priority {
    /// A new task starts at `Medium`.
    fn default() -> (r: Priority)
        ensures
            r == Priority::Medium,
    {
        Priority::Medium
    }
}

/// The snake_case spellings are told apart: each reads back, through
/// `from_str`, as the value that `as_str` wrote it for.
pub proof fn lemma_spellings_round_trip(s: Status, p: Priority)
    ensures
        Status::spec_from_str(s.spec_as_str()) == Some(s),
        Priority::spec_from_str(p.spec_as_str()) == Some(p),
{
    reveal_strlit("todo");
    reveal_strlit("in_progress");
    reveal_strlit("done");
    reveal_strlit("low");
    reveal_strlit("medium");
    reveal_strlit("high");
    reveal_strlit("urgent");
    assert("todo"@.len() == 4 && "todo"@[0] == 't');
    assert("in_progress"@.len() == 11);
    assert("done"@.len() == 4 && "done"@[0] == 'd');
    assert("low"@.len() == 3);
    assert("medium"@.len() == 6 && "medium"@[0] == 'm');
    assert("high"@.len() == 4);
    assert("urgent"@.len() == 6 && "urgent"@[0] == 'u');
}

/// The smallest day number (counted from 0001-01-01 as day 1) of a calendar date.
pub const DATE_MIN_DAYS: i32 = -95746129;

/// The largest day number (counted from 0001-01-01 as day 1) of a calendar date.
pub const DATE_MAX_DAYS: i32 = 95745399;

/// A calendar day of the proleptic Gregorian calendar, as its day number
/// counted from 0001-01-01 (day 1). Later days have larger numbers. Every
/// `Date` is a representable date.
#[derive(Debug, Clone, Copy, PartialEq, Eq, Structural)]
pub struct Date {
    days_from_ce: i32,
}

impl Date {
    /// The day number, counted from 0001-01-01 as day 1.
    pub closed spec fn days(self) -> int {
        self.days_from_ce as int
    }

    /// The day number names a representable calendar date.
    pub open spec fn valid(self) -> bool {
        DATE_MIN_DAYS <= self.days() <= DATE_MAX_DAYS
    }

    /// The date with day number `n`.
    pub closed spec fn spec_of_days(n: int) -> Date {
        Date { days_from_ce: n as i32 }
    }

    /// A date is the date of its own day number, and a representable day
    /// number is the number of its date.
    pub proof fn lemma_of_days(d: Date)
        ensures
            Date::spec_of_days(d.days()) == d,
            forall|n: int| DATE_MIN_DAYS <= n <= DATE_MAX_DAYS ==> #[trigger] Date::spec_of_days(n).days() == n,
    {
    }

    #[verifier::type_invariant]
    closed spec fn representable(self) -> bool {
        DATE_MIN_DAYS <= self.days_from_ce <= DATE_MAX_DAYS
    }

    /// The date with the given day number, if that names a representable date.
    pub fn from_days_from_ce(days: i32) -> (r: Option<Date>)
        ensures
            r matches Some(d) ==> d.days() == days,
            r is Some <==> DATE_MIN_DAYS <= days <= DATE_MAX_DAYS,
    {
        if DATE_MIN_DAYS <= days && days <= DATE_MAX_DAYS {
            Some(Date { days_from_ce: days })
        } else {
            None
        }
    }

    /// The date with a day number known to be representable.
    pub fn of_days(days: i32) -> (r: Date)
        requires
            DATE_MIN_DAYS <= days <= DATE_MAX_DAYS,
        ensures
            r.days() == days,
            r == Date::spec_of_days(days as int),
    {
        Date { days_from_ce: days }
    }

    /// The day number, counted from 0001-01-01 as day 1.
    pub fn days_from_ce(&self) -> (r: i32)
        ensures
            r == self.days(),
            self.valid(),
    {
        proof {
            use_type_invariant(self);
        }
        self.days_from_ce
    }
}

/// Unix day number of 1970-01-01 counted from 0001-01-01 as day 1.
pub const UNIX_EPOCH_DAYS_FROM_CE: i64 = 719163;

/// An instant in UTC: whole seconds since 1970-01-01T00:00:00Z and the
/// nanoseconds past that second (at or above one billion only inside a leap
/// second). Instants order by `(secs, nanos)`.
#[derive(Debug, Clone, Copy, PartialEq, Eq, PartialOrd, Ord, Hash, Structural)]
pub struct Timestamp {
    pub secs: i64,
    pub nanos: u32,
}

impl Timestamp {
    /// The pair names a representable instant: its day is a representable
    /// date, the nanoseconds stay below two billion, and only the last second
    /// of a minute carries a leap second.
    pub open spec fn valid(self) -> bool {
        &&& DATE_MIN_DAYS <= self.secs as int / 86400 + UNIX_EPOCH_DAYS_FROM_CE <= DATE_MAX_DAYS
        &&& self.nanos < 2_000_000_000
        &&& (self.nanos >= 1_000_000_000 ==> (self.secs as int % 86400) % 60 == 59)
    }

    /// Whether the pair names a representable instant (see [`Timestamp::valid`]).
    pub fn is_valid(&self) -> (r: bool)
        ensures
            r == self.valid(),
    {
        if self.secs < -8334601228800 || self.secs > 8210266876799 {
            proof {
                assert(self.secs < -8334601228800 ==> self.secs as int / 86400 + UNIX_EPOCH_DAYS_FROM_CE < DATE_MIN_DAYS) by (nonlinear_arith)
                    requires
                        DATE_MIN_DAYS == -95746129,
                        UNIX_EPOCH_DAYS_FROM_CE == 719163;
                assert(self.secs > 8210266876799 ==> self.secs as int / 86400 + UNIX_EPOCH_DAYS_FROM_CE > DATE_MAX_DAYS) by (nonlinear_arith)
                    requires
                        DATE_MAX_DAYS == 95745399,
                        UNIX_EPOCH_DAYS_FROM_CE == 719163;
            }
            return false;
        }
        proof {
            assert(-8334601228800 <= self.secs <= 8210266876799 ==> DATE_MIN_DAYS <= self.secs as int / 86400
                + UNIX_EPOCH_DAYS_FROM_CE <= DATE_MAX_DAYS) by (nonlinear_arith)
                requires
                    DATE_MIN_DAYS == -95746129,
                    DATE_MAX_DAYS == 95745399,
                    UNIX_EPOCH_DAYS_FROM_CE == 719163;
        }
        if self.nanos >= 2_000_000_000 {
            return false;
        }
        if self.nanos < 1_000_000_000 {
            return true;
        }
        let shifted: u64 = (self.secs + 8334601228800) as u64;
        proof {
            let x = self.secs as int;
            assert((x % 86400) % 60 == (x + 8334601228800) % 60) by (nonlinear_arith)
                requires
                    -8334601228800 <= x;
        }
        shifted % 60 == 59
    }

    /// `self` is strictly earlier than `other`.
    pub open spec fn before(self, other: Timestamp) -> bool {
        self.secs < other.secs || (self.secs == other.secs && self.nanos < other.nanos)
    }

    /// The current instant, read from the system clock: a valid instant
    /// at or after the Unix epoch, outside any leap second.
    pub fn now() -> (r: Timestamp)
        ensures
            r.valid(),
            r.secs >= 0,
            r.nanos < 1_000_000_000,
    {
        clock::utc_now()
    }
}

/// The text of an optional string.
pub open spec fn opt_text(o: Option<String>) -> Option<Seq<char>> {
    match o {
        Some(s) => Some(s@),
        None => None,
    }
}

/// A copy of an optional string.
pub fn copy_opt_text(o: &Option<String>) -> (r: Option<String>)
    ensures
        opt_text(r) == opt_text(*o),
{
    match o {
        Some(s) => Some(s.clone()),
        None => None,
    }
}

/// A single task. Identity is a time-ordered UUIDv7 held as its 128-bit value.
#[derive(Debug, PartialEq, Eq)]
pub struct Task {
    /// Client-generated, time-sortable UUIDv7.
    pub id: u128,
    /// Required short title.
    pub title: String,
    /// Optional longer description.
    pub notes: Option<String>,
    pub status: Status,
    pub priority: Priority,
    /// Optional due date (date only, no time).
    pub due_date: Option<Date>,
    /// Optional free-text project grouping.
    pub project: Option<String>,
    pub created_at: Timestamp,
    /// Last-write-wins clock.
    pub updated_at: Timestamp,
    /// Set when status becomes `Done`, cleared otherwise.
    pub completed_at: Option<Timestamp>,
    /// Tombstone / soft-delete flag.
    pub deleted: bool,
    /// Server cursor; `None` until synced.
    pub server_seq: Option<i64>,
}

/// The value of a [`Task`], with its strings as character sequences.
pub struct TaskView {
    pub id: u128,
    pub title: Seq<char>,
    pub notes: Option<Seq<char>>,
    pub status: Status,
    pub priority: Priority,
    pub due_date: Option<Date>,
    pub project: Option<Seq<char>>,
    pub created_at: Timestamp,
    pub updated_at: Timestamp,
    pub completed_at: Option<Timestamp>,
    pub deleted: bool,
    pub server_seq: Option<i64>,
}

impl View for Task {
    type V = TaskView;

    open spec fn view(&self) -> TaskView {
        TaskView {
            id: self.id,
            title: self.title@,
            notes: opt_text(self.notes),
            status: self.status,
            priority: self.priority,
            due_date: self.due_date,
            project: opt_text(self.project),
            created_at: self.created_at,
            updated_at: self.updated_at,
            completed_at: self.completed_at,
            deleted: self.deleted,
            server_seq: self.server_seq,
        }
    }
}

impl Clone for Task {
    fn clone(&self) -> (r: Task)
        ensures
            r@ == self@,
    {
        Task {
            id: self.id,
            title: self.title.clone(),
            notes: copy_opt_text(&self.notes),
            status: self.status,
            priority: self.priority,
            due_date: self.due_date,
            project: copy_opt_text(&self.project),
            created_at: self.created_at,
            updated_at: self.updated_at,
            completed_at: self.completed_at,
            deleted: self.deleted,
            server_seq: self.server_seq,
        }
    }
}

impl TaskView {
    /// A fresh task: the given title, id and creation instant, `Todo`,
    /// `Medium`, no optional fields, not deleted, never synced.
    pub open spec fn fresh(title: Seq<char>, id: u128, now: Timestamp) -> TaskView {
        TaskView {
            id: id,
            title: title,
            notes: None,
            status: Status::Todo,
            priority: Priority::Medium,
            due_date: None,
            project: None,
            created_at: now,
            updated_at: now,
            completed_at: None,
            deleted: false,
            server_seq: None,
        }
    }

    /// The task after setting its status at instant `now`: entering `Done`
    /// stamps `completed_at`, staying `Done` keeps it, any other status
    /// clears it; `updated_at` becomes `now`.
    pub open spec fn with_status(self, status: Status, now: Timestamp) -> TaskView {
        TaskView {
            status: status,
            completed_at: if status == Status::Done {
                if self.status != Status::Done {
                    Some(now)
                } else {
                    self.completed_at
                }
            } else {
                None
            },
            updated_at: now,
            ..self
        }
    }

    /// The task with its last-write-wins clock set to `now`.
    pub open spec fn touched(self, now: Timestamp) -> TaskView {
        TaskView { updated_at: now, ..self }
    }

    /// The status the `space` key moves to: `Done` becomes `Todo`, anything
    /// else becomes `Done`.
    pub open spec fn toggled_status(self) -> Status {
        if self.status == Status::Done {
            Status::Todo
        } else {
            Status::Done
        }
    }

    /// `completed_at` is set exactly when the task is done.
    pub open spec fn completion_consistent(self) -> bool {
        (self.status == Status::Done) == (self.completed_at is Some)
    }
}

impl Task {
    /// A fresh task with the given id and creation instant.
    pub fn new_at(title: String, id: u128, now: Timestamp) -> (r: Task)
        ensures
            r@ == TaskView::fresh(title@, id, now),
    {
        Task {
            id: id,
            title: title,
            notes: None,
            status: Status::Todo,
            priority: Priority::Medium,
            due_date: None,
            project: None,
            created_at: now,
            updated_at: now,
            completed_at: None,
            deleted: false,
            server_seq: None,
        }
    }

    /// Create a new task with a fresh UUIDv7 id, created and updated now.
    pub fn new(title: String) -> (r: Task)
        ensures
            exists|id: u128, now: Timestamp|
                r@ == TaskView::fresh(title@, id, now) && crate::clock::is_uuid_v7(id) && now.valid(),
    {
        let id = clock::new_uuid_v7();
        let now = clock::utc_now();
        Task::new_at(title, id, now)
    }

    /// Set the last-write-wins clock to `now`.
    pub fn touch_at(&mut self, now: Timestamp)
        ensures
            final(self)@ == old(self)@.touched(now),
    {
        self.updated_at = now;
    }

    /// Bump `updated_at` to the current instant.
    pub fn touch(&mut self)
        ensures
            exists|now: Timestamp| now.valid() && final(self)@ == old(self)@.touched(now),
    {
        let now = clock::utc_now();
        self.touch_at(now);
    }

    /// Set the status at instant `now`, keeping `completed_at` in step.
    pub fn set_status_at(&mut self, status: Status, now: Timestamp)
        ensures
            final(self)@ == old(self)@.with_status(status, now),
    {
        match status {
            Status::Done => {
                if self.status != Status::Done {
                    self.completed_at = Some(now);
                }
            },
            _ => {
                self.completed_at = None;
            },
        }
        self.status = status;
        self.updated_at = now;
    }

    /// Set the status while maintaining the `completed_at` invariant;
    /// always bumps `updated_at` to the current instant.
    pub fn set_status(&mut self, status: Status)
        ensures
            exists|now: Timestamp| now.valid() && final(self)@ == old(self)@.with_status(status, now),
    {
        let now = clock::utc_now();
        self.set_status_at(status, now);
    }

    /// Toggle between `Done` and `Todo` at instant `now`.
    pub fn toggle_done_at(&mut self, now: Timestamp)
        ensures
            final(self)@ == old(self)@.with_status(old(self)@.toggled_status(), now),
    {
        let next = match self.status {
            Status::Done => Status::Todo,
            _ => Status::Done,
        };
        self.set_status_at(next, now);
    }

    /// Toggle between `Done` and `Todo` (the `space` key): any non-done
    /// status becomes `Done`; `Done` becomes `Todo`.
    pub fn toggle_done(&mut self)
        ensures
            exists|now: Timestamp|
                now.valid() && final(self)@ == old(self)@.with_status(old(self)@.toggled_status(), now),
    {
        let now = clock::utc_now();
        self.toggle_done_at(now);
    }
}

} // verus!
