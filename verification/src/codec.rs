//! The text encodings of ids, dates and instants, and the row codec of the
//! local task table: what a task is stored as, and how a stored row is read
//! back into a task.

use vstd::prelude::*;
use vstd::string::*;
use crate::model::{Date, Priority, Status, Task, TaskView, Timestamp, opt_text, copy_opt_text, DATE_MIN_DAYS, DATE_MAX_DAYS};
use chrono::Datelike;

verus! {

/// The lowercase hexadecimal digit of `n` (0..16).
pub open spec fn hex_char(n: int) -> char {
    if n < 10 {
        (n + 48) as char
    } else {
        (n + 87) as char
    }
}

/// The `k`-th hexadecimal digit (0 = most significant) of a 128-bit id.
pub open spec fn id_nibble(id: u128, k: int) -> int {
    (id as int / vstd::arithmetic::power::pow(16, (31 - k) as nat)) % 16
}

/// The hyphenated lowercase form of a UUID: 32 hex digits, most significant
/// first, with hyphens after the 8th, 12th, 16th and 20th digit.
pub open spec fn uuid_hyphenated(id: u128) -> Seq<char> {
    Seq::new(
        36,
        |i: int|
            if i == 8 || i == 13 || i == 18 || i == 23 {
                '-'
            } else {
                hex_char(
                    id_nibble(
                        id,
                        if i < 8 {
                            i
                        } else if i < 13 {
                            i - 1
                        } else if i < 18 {
                            i - 2
                        } else if i < 23 {
                            i - 3
                        } else {
                            i - 4
                        },
                    ),
                )
            },
    )
}

/// What `uuid::Uuid::parse_str` makes of a text: the id's 128-bit value, or
/// `None` when it rejects the text.
pub uninterp spec fn uuid_parsed(s: Seq<char>) -> Option<u128>;

/// What `chrono::NaiveDate::parse_from_str(s, "%Y-%m-%d")` makes of a text,
/// as the date's day number from the common era.
pub uninterp spec fn ymd_days_parsed(s: Seq<char>) -> Option<int>;

/// The `"%Y-%m-%d"` text chrono formats the date with this day number as.
pub uninterp spec fn ymd_days_text(days: int) -> Seq<char>;

/// What `chrono::DateTime::parse_from_rfc3339` makes of a text, as seconds and
/// nanoseconds of the instant since the Unix epoch.
pub uninterp spec fn rfc3339_instant_parsed(s: Seq<char>) -> Option<(i64, u32)>;

/// The text `chrono::DateTime::<Utc>::to_rfc3339` writes for the instant with
/// these seconds and nanoseconds since the Unix epoch.
pub uninterp spec fn rfc3339_instant_text(secs: i64, nanos: u32) -> Seq<char>;

/// The date a text names in `YYYY-MM-DD` form, as chrono reads it.
pub open spec fn ymd_parsed(s: Seq<char>) -> Option<Date> {
    match ymd_days_parsed(s) {
        Some(n) => Some(Date::spec_of_days(n)),
        None => None,
    }
}

/// The `YYYY-MM-DD` text of a date.
pub open spec fn ymd_text(d: Date) -> Seq<char> {
    ymd_days_text(d.days())
}

/// The instant an RFC 3339 text names, as chrono reads it.
pub open spec fn rfc3339_parsed(s: Seq<char>) -> Option<Timestamp> {
    match rfc3339_instant_parsed(s) {
        Some(p) => Some(Timestamp { secs: p.0, nanos: p.1 }),
        None => None,
    }
}

/// The RFC 3339 text of an instant.
pub open spec fn rfc3339_text(t: Timestamp) -> Seq<char> {
    rfc3339_instant_text(t.secs, t.nanos)
}

/// Instants whose year lies in 0000..=9999, the years RFC 3339 spells with four digits.
pub open spec fn rfc3339_year_range(t: Timestamp) -> bool {
    -62167219200 <= t.secs < 253402300800
}

/// Formats an id with `uuid::Uuid`'s `Display` (hyphenated, lowercase). The
/// contract claims the exact text, and that `Uuid::parse_str` reads it back as
/// the same id, as the uuid documentation states of the formats it writes.
#[verifier::external_body]
pub(crate) fn uuid_to_text(id: u128) -> (r: String)
    ensures
        r@ == uuid_hyphenated(id),
        uuid_parsed(r@) == Some(id),
{
    uuid::Uuid::from_u128(id).to_string()
}

/// Parses an id with `uuid::Uuid::parse_str`. The contract names the result.
#[verifier::external_body]
pub(crate) fn uuid_from_text(s: &str) -> (r: Option<u128>)
    ensures
        r == uuid_parsed(s@),
{
    match uuid::Uuid::parse_str(s) {
        Ok(u) => Some(u.as_u128()),
        Err(_) => None,
    }
}

/// Formats the date with this day number with chrono's
/// `format("%Y-%m-%d")`. The contract names the text and claims that
/// `NaiveDate::parse_from_str` with the same format reads it back as the same
/// date (chrono writes a sign before years outside 0..=9999 and its `%Y`
/// parser accepts that sign).
#[verifier::external_body]
fn days_to_ymd(days: i32) -> (r: String)
    requires
        DATE_MIN_DAYS <= days <= DATE_MAX_DAYS,
    ensures
        r@ == ymd_days_text(days as int),
        ymd_days_parsed(r@) == Some(days as int),
{
    chrono::NaiveDate::from_num_days_from_ce_opt(days).expect("representable date").format(
        "%Y-%m-%d",
    ).to_string()
}

/// Parses a date with chrono's `NaiveDate::parse_from_str(s, "%Y-%m-%d")` and
/// returns its day number from the common era. The contract names the result
/// and claims that it is the day number of a representable date, as every
/// `NaiveDate` is.
#[verifier::external_body]
fn ymd_to_days(s: &str) -> (r: Option<i32>)
    ensures
        r matches Some(n) ==> ymd_days_parsed(s@) == Some(n as int) && DATE_MIN_DAYS <= n <= DATE_MAX_DAYS,
        r is None ==> ymd_days_parsed(s@) is None,
{
    match chrono::NaiveDate::parse_from_str(s, "%Y-%m-%d") {
        Ok(d) => Some(d.num_days_from_ce()),
        Err(_) => None,
    }
}

/// The `YYYY-MM-DD` text of a date, read back as the same date.
pub fn date_to_text(d: Date) -> (r: String)
    ensures
        r@ == ymd_text(d),
        ymd_parsed(r@) == Some(d),
{
    let days = d.days_from_ce();
    let r = days_to_ymd(days);
    proof {
        Date::lemma_of_days(d);
    }
    r
}

/// The date a `YYYY-MM-DD` text names, if chrono reads one.
pub fn date_from_text(s: &str) -> (r: Option<Date>)
    ensures
        r == ymd_parsed(s@),
        r matches Some(d) ==> d.valid(),
{
    match ymd_to_days(s) {
        Some(n) => {
            let d = Date::of_days(n);
            proof {
                Date::lemma_of_days(d);
            }
            Some(d)
        },
        None => None,
    }
}

/// Formats an instant with chrono's `DateTime::<Utc>::to_rfc3339`. The
/// contract names the text and claims that `DateTime::parse_from_rfc3339`
/// reads it back as the same instant when its year is in 0000..=9999 (chrono
/// writes such years with four digits, the offset as `+00:00`, a leap second
/// as second 60, and 0, 3, 6 or 9 fraction digits that hold the nanoseconds
/// exactly).
#[verifier::external_body]
pub(crate) fn timestamp_to_text(t: Timestamp) -> (r: String)
    requires
        t.valid(),
    ensures
        r@ == rfc3339_instant_text(t.secs, t.nanos),
        rfc3339_year_range(t) ==> rfc3339_instant_parsed(r@) == Some((t.secs, t.nanos)),
{
    chrono::DateTime::from_timestamp(t.secs, t.nanos).expect("representable instant").to_rfc3339()
}

/// Parses an instant with chrono's `DateTime::parse_from_rfc3339`, converted
/// to UTC, as seconds and nanoseconds since the Unix epoch. The contract names
/// the result and claims that the pair is one `DateTime::from_timestamp`
/// accepts, as chrono documents for every `DateTime<Utc>`.
#[verifier::external_body]
pub(crate) fn timestamp_from_text(s: &str) -> (r: Option<Timestamp>)
    ensures
        r == rfc3339_parsed(s@),
        r matches Some(t) ==> t.valid(),
{
    match chrono::DateTime::parse_from_rfc3339(s) {
        Ok(d) => {
            let u = d.with_timezone(&chrono::Utc);
            Some(Timestamp { secs: u.timestamp(), nanos: u.timestamp_subsec_nanos() })
        },
        Err(_) => None,
    }
}

/// The columns of a stored task row, in the table's column order, as the
/// database holds them.
pub struct StoredRow {
    pub id: String,
    pub title: String,
    pub notes: Option<String>,
    pub status: String,
    pub priority: String,
    pub due_date: Option<String>,
    pub project: Option<String>,
    pub created_at: String,
    pub updated_at: String,
    pub completed_at: Option<String>,
    pub deleted: i64,
    pub server_seq: Option<i64>,
}

/// The value of a [`StoredRow`], with its texts as character sequences.
pub struct StoredRowView {
    pub id: Seq<char>,
    pub title: Seq<char>,
    pub notes: Option<Seq<char>>,
    pub status: Seq<char>,
    pub priority: Seq<char>,
    pub due_date: Option<Seq<char>>,
    pub project: Option<Seq<char>>,
    pub created_at: Seq<char>,
    pub updated_at: Seq<char>,
    pub completed_at: Option<Seq<char>>,
    pub deleted: i64,
    pub server_seq: Option<i64>,
}

impl View for StoredRow {
    type V = StoredRowView;

    open spec fn view(&self) -> StoredRowView {
        StoredRowView {
            id: self.id@,
            title: self.title@,
            notes: opt_text(self.notes),
            status: self.status@,
            priority: self.priority@,
            due_date: opt_text(self.due_date),
            project: opt_text(self.project),
            created_at: self.created_at@,
            updated_at: self.updated_at@,
            completed_at: opt_text(self.completed_at),
            deleted: self.deleted,
            server_seq: self.server_seq,
        }
    }
}

/// Which column of a stored row could not be read, and why.
#[derive(Debug, Clone, Copy, PartialEq, Eq, Structural)]
pub enum DecodeError {
    /// Column 0 is not a UUID.
    BadId,
    /// Column 3 is not a status spelling.
    BadStatus,
    /// Column 4 is not a priority spelling.
    BadPriority,
    /// Column 5 is not a `YYYY-MM-DD` date.
    BadDueDate,
    /// Column 7 is not an RFC 3339 instant.
    BadCreatedAt,
    /// Column 8 is not an RFC 3339 instant.
    BadUpdatedAt,
    /// Column 9 is not an RFC 3339 instant.
    BadCompletedAt,
}

impl DecodeError {
    /// The index of the column the error is about.
    pub open spec fn spec_column(self) -> int {
        match self {
            DecodeError::BadId => 0,
            DecodeError::BadStatus => 3,
            DecodeError::BadPriority => 4,
            DecodeError::BadDueDate => 5,
            DecodeError::BadCreatedAt => 7,
            DecodeError::BadUpdatedAt => 8,
            DecodeError::BadCompletedAt => 9,
        }
    }

    /// The name of the column the error is about.
    pub fn field(&self) -> (r: &'static str)
        ensures
            r@ == match self {
                DecodeError::BadId => "id"@,
                DecodeError::BadStatus => "status"@,
                DecodeError::BadPriority => "priority"@,
                DecodeError::BadDueDate => "due_date"@,
                DecodeError::BadCreatedAt => "created_at"@,
                DecodeError::BadUpdatedAt => "updated_at"@,
                DecodeError::BadCompletedAt => "completed_at"@,
            },
    {
        match self {
            DecodeError::BadId => "id",
            DecodeError::BadStatus => "status",
            DecodeError::BadPriority => "priority",
            DecodeError::BadDueDate => "due_date",
            DecodeError::BadCreatedAt => "created_at",
            DecodeError::BadUpdatedAt => "updated_at",
            DecodeError::BadCompletedAt => "completed_at",
        }
    }

    /// The index of the column the error is about.
    pub fn column(&self) -> (r: usize)
        ensures
            r == self.spec_column(),
    {
        match self {
            DecodeError::BadId => 0,
            DecodeError::BadStatus => 3,
            DecodeError::BadPriority => 4,
            DecodeError::BadDueDate => 5,
            DecodeError::BadCreatedAt => 7,
            DecodeError::BadUpdatedAt => 8,
            DecodeError::BadCompletedAt => 9,
        }
    }
}

/// The date of an optional date text, or the failure to read one.
pub open spec fn opt_date(o: Option<Seq<char>>) -> Option<Option<Date>> {
    match o {
        None => Some(None),
        Some(s) => match ymd_parsed(s) {
            Some(d) => Some(Some(d)),
            None => None,
        },
    }
}

/// The instant of an optional instant text, or the failure to read one.
pub open spec fn opt_instant(o: Option<Seq<char>>) -> Option<Option<Timestamp>> {
    match o {
        None => Some(None),
        Some(s) => match rfc3339_parsed(s) {
            Some(t) => Some(Some(t)),
            None => None,
        },
    }
}

/// The task a stored row holds, or the first column, in column order, that
/// cannot be read.
pub open spec fn decoded(r: StoredRowView) -> Result<TaskView, DecodeError> {
    if uuid_parsed(r.id) is None {
        Err(DecodeError::BadId)
    } else if Status::spec_from_str(r.status) is None {
        Err(DecodeError::BadStatus)
    } else if Priority::spec_from_str(r.priority) is None {
        Err(DecodeError::BadPriority)
    } else if opt_date(r.due_date) is None {
        Err(DecodeError::BadDueDate)
    } else if rfc3339_parsed(r.created_at) is None {
        Err(DecodeError::BadCreatedAt)
    } else if rfc3339_parsed(r.updated_at) is None {
        Err(DecodeError::BadUpdatedAt)
    } else if opt_instant(r.completed_at) is None {
        Err(DecodeError::BadCompletedAt)
    } else {
        Ok(
            TaskView {
                id: uuid_parsed(r.id)->0,
                title: r.title,
                notes: r.notes,
                status: Status::spec_from_str(r.status)->0,
                priority: Priority::spec_from_str(r.priority)->0,
                due_date: opt_date(r.due_date)->0,
                project: r.project,
                created_at: rfc3339_parsed(r.created_at)->0,
                updated_at: rfc3339_parsed(r.updated_at)->0,
                completed_at: opt_instant(r.completed_at)->0,
                deleted: r.deleted != 0,
                server_seq: r.server_seq,
            },
        )
    }
}

/// The row a task is stored as: the id hyphenated, the enums by their
/// spellings, the due date as `YYYY-MM-DD`, instants as RFC 3339, the
/// tombstone as 0 or 1.
pub open spec fn encoded(t: TaskView) -> StoredRowView {
    StoredRowView {
        id: uuid_hyphenated(t.id),
        title: t.title,
        notes: t.notes,
        status: t.status.spec_as_str(),
        priority: t.priority.spec_as_str(),
        due_date: match t.due_date {
            Some(d) => Some(ymd_text(d)),
            None => None,
        },
        project: t.project,
        created_at: rfc3339_text(t.created_at),
        updated_at: rfc3339_text(t.updated_at),
        completed_at: match t.completed_at {
            Some(c) => Some(rfc3339_text(c)),
            None => None,
        },
        deleted: if t.deleted {
            1
        } else {
            0
        },
        server_seq: t.server_seq,
    }
}

/// The dates and instants of a task are representable, so it can be stored.
pub open spec fn storable(t: TaskView) -> bool {
    &&& (t.due_date matches Some(d) ==> d.valid())
    &&& t.created_at.valid()
    &&& t.updated_at.valid()
    &&& (t.completed_at matches Some(c) ==> c.valid())
}

/// Whether a task can be stored: its dates and instants are representable.
pub fn storable_task(t: &Task) -> (r: bool)
    ensures
        r == storable(t@),
{
    let due_ok = match t.due_date {
        Some(d) => {
            let _ = d.days_from_ce();
            true
        },
        None => true,
    };
    let completed_ok = match t.completed_at {
        Some(c) => c.is_valid(),
        None => true,
    };
    due_ok && t.created_at.is_valid() && t.updated_at.is_valid() && completed_ok
}

/// Every instant of a task has a year in 0000..=9999.
pub open spec fn instants_in_rfc3339_years(t: TaskView) -> bool {
    &&& rfc3339_year_range(t.created_at)
    &&& rfc3339_year_range(t.updated_at)
    &&& (t.completed_at matches Some(c) ==> rfc3339_year_range(c))
}

/// Encode a task as the row that stores it. When every instant of the task
/// has a year in 0000..=9999, reading the row back gives the task again.
pub fn encode_task(t: &Task) -> (r: StoredRow)
    requires
        storable(t@),
    ensures
        r@ == encoded(t@),
        instants_in_rfc3339_years(t@) ==> decoded(r@) == Ok::<TaskView, DecodeError>(t@),
{
    let id = uuid_to_text(t.id);
    let status = String::from_str(t.status.as_str());
    let priority = String::from_str(t.priority.as_str());
    let due_date = match t.due_date {
        Some(d) => Some(date_to_text(d)),
        None => None,
    };
    let created_at = timestamp_to_text(t.created_at);
    let updated_at = timestamp_to_text(t.updated_at);
    let completed_at = match t.completed_at {
        Some(c) => Some(timestamp_to_text(c)),
        None => None,
    };
    proof {
        crate::model::lemma_spellings_round_trip(t.status, t.priority);
    }
    let r = StoredRow {
        id: id,
        title: t.title.clone(),
        notes: copy_opt_text(&t.notes),
        status: status,
        priority: priority,
        due_date: due_date,
        project: copy_opt_text(&t.project),
        created_at: created_at,
        updated_at: updated_at,
        completed_at: completed_at,
        deleted: if t.deleted {
            1
        } else {
            0
        },
        server_seq: t.server_seq,
    };
    proof {
        if instants_in_rfc3339_years(t@) {
            assert(decoded(r@) == Ok::<TaskView, DecodeError>(t@));
        }
    }
    r
}

/// Read a stored row back into a task, or report the first column, in
/// column order, that holds a value the task cannot have. A task read back
/// is storable.
pub fn decode_row(row: StoredRow) -> (r: Result<Task, DecodeError>)
    ensures
        match (r, decoded(row@)) {
            (Ok(t), Ok(v)) => t@ == v && storable(t@),
            (Err(e), Err(f)) => e == f,
            _ => false,
        },
{
    let id = match uuid_from_text(row.id.as_str()) {
        Some(id) => id,
        None => return Err(DecodeError::BadId),
    };
    let status = match Status::from_str(row.status.as_str()) {
        Some(s) => s,
        None => return Err(DecodeError::BadStatus),
    };
    let priority = match Priority::from_str(row.priority.as_str()) {
        Some(p) => p,
        None => return Err(DecodeError::BadPriority),
    };
    let due_date = match &row.due_date {
        None => None,
        Some(s) => match date_from_text(s.as_str()) {
            Some(d) => Some(d),
            None => return Err(DecodeError::BadDueDate),
        },
    };
    let created_at = match timestamp_from_text(row.created_at.as_str()) {
        Some(t) => t,
        None => return Err(DecodeError::BadCreatedAt),
    };
    let updated_at = match timestamp_from_text(row.updated_at.as_str()) {
        Some(t) => t,
        None => return Err(DecodeError::BadUpdatedAt),
    };
    let completed_at = match &row.completed_at {
        None => None,
        Some(s) => match timestamp_from_text(s.as_str()) {
            Some(t) => Some(t),
            None => return Err(DecodeError::BadCompletedAt),
        },
    };
    Ok(
        Task {
            id: id,
            title: row.title,
            notes: row.notes,
            status: status,
            priority: priority,
            due_date: due_date,
            project: row.project,
            created_at: created_at,
            updated_at: updated_at,
            completed_at: completed_at,
            deleted: row.deleted != 0,
            server_seq: row.server_seq,
        },
    )
}

} // verus!
