//! Terminal-independent application state and key handling for enjo.
//!
//! [`App`] holds the tasks last loaded from the store plus the view state.
//! It never touches the store itself: a key press or a store reply moves it
//! to its next state and may hand back one [`StoreRequest`] for the caller
//! to perform, whose outcome comes back through [`App::on_reply`]. Every
//! mutation goes through the store and is followed by a reload of the task
//! list, exactly as a request chain: write, then list.

use vstd::prelude::*;
use vstd::string::*;
use crate::model::{Date, Priority, Status, Task, TaskView, Timestamp};
use crate::ordering::views;
use crate::clock;
use crate::codec::{date_from_text, date_to_text, ymd_parsed, ymd_text};
use crate::listing::{Pick, all_list, today_flat, overview_list, picked, pick_sorted, concat_tasks};
use crate::text::{push_char, trim, trimmed};
use crate::laws::{cursor_in_range, lemma_keys_keep_cursor_in_range, lemma_replies_keep_cursor_in_range};

verus! {

/// The top-level screen the user is looking at. `Today` and `All` are the two
/// list views; `Edit` and `Help` are overlays drawn on top of the last list view.
#[derive(Debug, Clone, Copy, PartialEq, Eq, Structural)]
pub enum Screen {
    Today,
    All,
    Edit,
    Help,
}

/// Status filter cycled by `/` on the All view: All -> Todo -> InProgress -> Done.
#[derive(Debug, Clone, Copy, PartialEq, Eq, Structural)]
pub enum StatusFilter {
    All,
    Todo,
    InProgress,
    Done,
}

impl StatusFilter {
    /// The label shown in the header and footer.
    pub open spec fn spec_label(self) -> Seq<char> {
        match self {
            StatusFilter::All => "All"@,
            StatusFilter::Todo => "Todo"@,
            StatusFilter::InProgress => "In progress"@,
            StatusFilter::Done => "Done"@,
        }
    }

    /// Human-readable label shown in the header/footer.
    pub fn label(self) -> (r: &'static str)
        ensures
            r@ == self.spec_label(),
    {
        match self {
            StatusFilter::All => "All",
            StatusFilter::Todo => "Todo",
            StatusFilter::InProgress => "In progress",
            StatusFilter::Done => "Done",
        }
    }

    /// The next filter in the cycle All -> Todo -> InProgress -> Done -> All.
    pub open spec fn spec_next(self) -> StatusFilter {
        match self {
            StatusFilter::All => StatusFilter::Todo,
            StatusFilter::Todo => StatusFilter::InProgress,
            StatusFilter::InProgress => StatusFilter::Done,
            StatusFilter::Done => StatusFilter::All,
        }
    }

    /// The next filter in the `/` cycle.
    pub fn next(self) -> (r: StatusFilter)
        ensures
            r == self.spec_next(),
    {
        match self {
            StatusFilter::All => StatusFilter::Todo,
            StatusFilter::Todo => StatusFilter::InProgress,
            StatusFilter::InProgress => StatusFilter::Done,
            StatusFilter::Done => StatusFilter::All,
        }
    }

    /// A task with this status passes the filter.
    pub open spec fn spec_matches(self, status: Status) -> bool {
        match self {
            StatusFilter::All => true,
            StatusFilter::Todo => status == Status::Todo,
            StatusFilter::InProgress => status == Status::InProgress,
            StatusFilter::Done => status == Status::Done,
        }
    }

    /// Whether a task with this status passes the filter.
    pub fn matches(self, status: Status) -> (r: bool)
        ensures
            r == self.spec_matches(status),
    {
        match self {
            StatusFilter::All => true,
            StatusFilter::Todo => status == Status::Todo,
            StatusFilter::InProgress => status == Status::InProgress,
            StatusFilter::Done => status == Status::Done,
        }
    }
}

/// Focusable field in the edit form, in `Tab` order.
#[derive(Debug, Clone, Copy, PartialEq, Eq, Structural)]
pub enum EditField {
    Title,
    Notes,
    Project,
    DueDate,
    Priority,
    Status,
}

impl EditField {
    /// The field after this one in `Tab` order, wrapping around.
    pub open spec fn spec_next(self) -> EditField {
        match self {
            EditField::Title => EditField::Notes,
            EditField::Notes => EditField::Project,
            EditField::Project => EditField::DueDate,
            EditField::DueDate => EditField::Priority,
            EditField::Priority => EditField::Status,
            EditField::Status => EditField::Title,
        }
    }

    /// The field before this one in `Tab` order, wrapping around.
    pub open spec fn spec_prev(self) -> EditField {
        match self {
            EditField::Title => EditField::Status,
            EditField::Notes => EditField::Title,
            EditField::Project => EditField::Notes,
            EditField::DueDate => EditField::Project,
            EditField::Priority => EditField::DueDate,
            EditField::Status => EditField::Priority,
        }
    }

    /// The field after this one (`Tab`).
    pub fn next(self) -> (r: EditField)
        ensures
            r == self.spec_next(),
    {
        match self {
            EditField::Title => EditField::Notes,
            EditField::Notes => EditField::Project,
            EditField::Project => EditField::DueDate,
            EditField::DueDate => EditField::Priority,
            EditField::Priority => EditField::Status,
            EditField::Status => EditField::Title,
        }
    }

    /// The field before this one (`Shift-Tab`).
    pub fn prev(self) -> (r: EditField)
        ensures
            r == self.spec_prev(),
    {
        match self {
            EditField::Title => EditField::Status,
            EditField::Notes => EditField::Title,
            EditField::Project => EditField::Notes,
            EditField::DueDate => EditField::Project,
            EditField::Priority => EditField::DueDate,
            EditField::Status => EditField::Priority,
        }
    }

    /// The field holds free text (title, notes, project or due date).
    pub open spec fn is_text(self) -> bool {
        !(self == EditField::Priority || self == EditField::Status)
    }
}

/// One step back in the status cycle (Shift-S): two forward steps of the
/// three-status cycle.
pub fn prev_status(s: Status) -> (r: Status)
    ensures
        r == s.spec_next().spec_next(),
{
    s.next().next()
}

/// One step back in the priority cycle (Shift-P): three forward steps of the
/// four-priority cycle.
pub fn prev_priority(p: Priority) -> (r: Priority)
    ensures
        r == p.spec_next().spec_next().spec_next(),
{
    p.next().next().next()
}

/// The trimmed text, or `None` when nothing but white space is left.
pub open spec fn spec_non_empty(s: Seq<char>) -> Option<Seq<char>> {
    if trimmed(s).len() == 0 {
        None
    } else {
        Some(trimmed(s))
    }
}

/// Trim and convert an empty string to `None`, else `Some(trimmed)`.
pub fn non_empty(s: &str) -> (r: Option<String>)
    ensures
        crate::model::opt_text(r) == spec_non_empty(s@),
{
    let t = trim(s);
    if t.as_str().unicode_len() == 0 {
        None
    } else {
        Some(t)
    }
}

/// The value of the edit form.
pub struct EditView {
    pub editing_id: Option<u128>,
    pub title: Seq<char>,
    pub notes: Seq<char>,
    pub project: Seq<char>,
    pub due_date: Seq<char>,
    pub priority: Priority,
    pub status: Status,
    pub field: EditField,
    pub return_screen: Screen,
}

impl EditView {
    /// A blank form for a new task, focused on the title.
    pub open spec fn blank(return_screen: Screen) -> EditView {
        EditView {
            editing_id: None,
            title: Seq::empty(),
            notes: Seq::empty(),
            project: Seq::empty(),
            due_date: Seq::empty(),
            priority: Priority::Medium,
            status: Status::Todo,
            field: EditField::Title,
            return_screen: return_screen,
        }
    }

    /// A form holding an existing task, focused on the title; absent
    /// optional fields show as empty text, the due date as `YYYY-MM-DD`.
    pub open spec fn of_task(t: TaskView, return_screen: Screen) -> EditView {
        EditView {
            editing_id: Some(t.id),
            title: t.title,
            notes: match t.notes {
                Some(n) => n,
                None => Seq::empty(),
            },
            project: match t.project {
                Some(p) => p,
                None => Seq::empty(),
            },
            due_date: match t.due_date {
                Some(d) => ymd_text(d),
                None => Seq::empty(),
            },
            priority: t.priority,
            status: t.status,
            field: EditField::Title,
            return_screen: return_screen,
        }
    }

    /// The text of the focused text field.
    pub open spec fn focused_text(self) -> Seq<char> {
        match self.field {
            EditField::Title => self.title,
            EditField::Notes => self.notes,
            EditField::Project => self.project,
            EditField::DueDate => self.due_date,
            _ => Seq::empty(),
        }
    }

    /// The form with the focused text field set to `text` (no change when
    /// the focus is on priority or status).
    pub open spec fn with_focused_text(self, text: Seq<char>) -> EditView {
        match self.field {
            EditField::Title => EditView { title: text, ..self },
            EditField::Notes => EditView { notes: text, ..self },
            EditField::Project => EditView { project: text, ..self },
            EditField::DueDate => EditView { due_date: text, ..self },
            _ => self,
        }
    }
}

/// Mutable backing state for the edit form. Text fields are kept as plain
/// strings and only parsed/validated on save.
pub struct EditState {
    editing_id: Option<u128>,
    title: String,
    notes: String,
    project: String,
    due_date: String,
    priority: Priority,
    status: Status,
    field: EditField,
    return_screen: Screen,
}

impl View for EditState {
    type V = EditView;

    closed spec fn view(&self) -> EditView {
        EditView {
            editing_id: self.editing_id,
            title: self.title@,
            notes: self.notes@,
            project: self.project@,
            due_date: self.due_date@,
            priority: self.priority,
            status: self.status,
            field: self.field,
            return_screen: self.return_screen,
        }
    }
}

/// The optional text, or the empty text.
fn text_or_empty(o: &Option<String>) -> (r: String)
    ensures
        r@ == match crate::model::opt_text(*o) {
            Some(s) => s,
            None => Seq::<char>::empty(),
        },
{
    match o {
        Some(s) => s.clone(),
        None => String::new(),
    }
}

impl EditState {
    /// A blank form for a new task.
    pub fn new(return_screen: Screen) -> (r: EditState)
        ensures
            r@ == EditView::blank(return_screen),
    {
        EditState {
            editing_id: None,
            title: String::new(),
            notes: String::new(),
            project: String::new(),
            due_date: String::new(),
            priority: Priority::Medium,
            status: Status::Todo,
            field: EditField::Title,
            return_screen: return_screen,
        }
    }

    /// A form filled from an existing task.
    pub fn from_task(task: &Task, return_screen: Screen) -> (r: EditState)
        ensures
            r@ == EditView::of_task(task@, return_screen),
    {
        let due_date = match task.due_date {
            Some(d) => date_to_text(d),
            None => String::new(),
        };
        EditState {
            editing_id: Some(task.id),
            title: task.title.clone(),
            notes: text_or_empty(&task.notes),
            project: text_or_empty(&task.project),
            due_date: due_date,
            priority: task.priority,
            status: task.status,
            field: EditField::Title,
            return_screen: return_screen,
        }
    }

    /// The form edits a new task rather than an existing one.
    pub fn is_new(&self) -> (r: bool)
        ensures
            r == (self@.editing_id is None),
    {
        self.editing_id.is_none()
    }

    /// The title text.
    pub fn title(&self) -> (r: &str)
        ensures
            r@ == self@.title,
    {
        self.title.as_str()
    }

    /// The notes text.
    pub fn notes(&self) -> (r: &str)
        ensures
            r@ == self@.notes,
    {
        self.notes.as_str()
    }

    /// The project text.
    pub fn project(&self) -> (r: &str)
        ensures
            r@ == self@.project,
    {
        self.project.as_str()
    }

    /// The due date text.
    pub fn due_date(&self) -> (r: &str)
        ensures
            r@ == self@.due_date,
    {
        self.due_date.as_str()
    }

    /// The chosen priority.
    pub fn priority(&self) -> (r: Priority)
        ensures
            r == self@.priority,
    {
        self.priority
    }

    /// The chosen status.
    pub fn status(&self) -> (r: Status)
        ensures
            r == self@.status,
    {
        self.status
    }

    /// The focused field.
    pub fn field(&self) -> (r: EditField)
        ensures
            r == self@.field,
    {
        self.field
    }

    /// Backspace on the form: the focused text field loses its last
    /// character.
    fn backspace(&mut self)
        ensures
            final(self)@ == old(self)@.backspaced(),
    {
        match self.field {
            EditField::Title => pop_char(&mut self.title),
            EditField::Notes => pop_char(&mut self.notes),
            EditField::Project => pop_char(&mut self.project),
            EditField::DueDate => pop_char(&mut self.due_date),
            _ => {},
        }
    }

    /// A typed character on the form: appended to the focused text field;
    /// on priority `p`/`P` and on status `s`/`S` step the value forward.
    fn type_char(&mut self, c: char)
        ensures
            final(self)@ == old(self)@.typed(c),
    {
        match self.field {
            EditField::Priority => {
                if c == 'p' || c == 'P' {
                    self.priority = self.priority.next();
                }
            },
            EditField::Status => {
                if c == 's' || c == 'S' {
                    self.status = self.status.next();
                }
            },
            EditField::Title => push_char(&mut self.title, c),
            EditField::Notes => push_char(&mut self.notes, c),
            EditField::Project => push_char(&mut self.project, c),
            EditField::DueDate => push_char(&mut self.due_date, c),
        }
    }
}


/// The inputs of one step that come from outside the key itself: today's
/// date, the current instant and an id for a task that may be created.
#[derive(Clone, Copy)]
pub struct Moment {
    pub today: Date,
    pub now: Timestamp,
    pub fresh_id: u128,
}

impl Moment {
    /// Read today's local date, the current instant and a fresh UUIDv7.
    pub fn read() -> (r: Moment)
        ensures
            r.today.valid(),
            r.now.valid(),
            clock::is_uuid_v7(r.fresh_id),
    {
        Moment { today: clock::local_today(), now: clock::utc_now(), fresh_id: clock::new_uuid_v7() }
    }
}

/// A key, as the terminal reports it.
#[derive(Debug, Clone, Copy, PartialEq, Eq, Structural)]
pub enum KeyCode {
    Char(char),
    Up,
    Down,
    Left,
    Right,
    Enter,
    Esc,
    Tab,
    BackTab,
    Backspace,
    /// Any key the application has no binding for.
    Other,
}

/// Whether Control was held with the key.
#[derive(Debug, Clone, Copy, PartialEq, Eq, Structural)]
pub enum KeyModifiers {
    Plain,
    Control,
}

/// One key press.
#[derive(Debug, Clone, Copy, PartialEq, Eq, Structural)]
pub struct KeyEvent {
    pub code: KeyCode,
    pub modifiers: KeyModifiers,
}

impl KeyEvent {
    /// A key press with the given modifiers.
    pub fn new(code: KeyCode, modifiers: KeyModifiers) -> (r: KeyEvent)
        ensures
            r.code == code,
            r.modifiers == modifiers,
    {
        KeyEvent { code: code, modifiers: modifiers }
    }

    /// Ctrl-S, which terminals send as `s` or `S`.
    pub open spec fn is_ctrl_s(self) -> bool {
        self.modifiers == KeyModifiers::Control && (self.code == KeyCode::Char('s') || self.code
            == KeyCode::Char('S'))
    }
}

/// Work for the task store: list the active tasks, read one task by id,
/// insert-or-replace a task by id, or mark a task deleted.
pub enum StoreRequest {
    ListActive,
    Get(u128),
    Upsert(Task),
    SoftDelete(u128),
}

/// The value of a [`StoreRequest`].
pub enum RequestView {
    ListActive,
    Get(u128),
    Upsert(TaskView),
    SoftDelete(u128),
}

impl View for StoreRequest {
    type V = RequestView;

    open spec fn view(&self) -> RequestView {
        match self {
            StoreRequest::ListActive => RequestView::ListActive,
            StoreRequest::Get(id) => RequestView::Get(*id),
            StoreRequest::Upsert(t) => RequestView::Upsert(t@),
            StoreRequest::SoftDelete(id) => RequestView::SoftDelete(*id),
        }
    }
}

/// The value of an optional request.
pub open spec fn request_view(r: Option<StoreRequest>) -> Option<RequestView> {
    match r {
        Some(q) => Some(q@),
        None => None,
    }
}

/// The outcome of a [`StoreRequest`], errors as their message text.
pub enum StoreReply {
    /// The active tasks, for `ListActive`.
    Listed(Result<Vec<Task>, String>),
    /// The task with the id, if any, for `Get`.
    Fetched(Result<Option<Task>, String>),
    /// Completion of `Upsert` or `SoftDelete`.
    Written(Result<(), String>),
}

/// The value of a [`StoreReply`].
pub enum ReplyView {
    Listed(Result<Seq<TaskView>, Seq<char>>),
    Fetched(Result<Option<TaskView>, Seq<char>>),
    Written(Result<(), Seq<char>>),
}

impl View for StoreReply {
    type V = ReplyView;

    open spec fn view(&self) -> ReplyView {
        match self {
            StoreReply::Listed(Ok(v)) => ReplyView::Listed(Ok(views(v@))),
            StoreReply::Listed(Err(e)) => ReplyView::Listed(Err(e@)),
            StoreReply::Fetched(Ok(Some(t))) => ReplyView::Fetched(Ok(Some(t@))),
            StoreReply::Fetched(Ok(None)) => ReplyView::Fetched(Ok(None)),
            StoreReply::Fetched(Err(e)) => ReplyView::Fetched(Err(e@)),
            StoreReply::Written(Ok(())) => ReplyView::Written(Ok(())),
            StoreReply::Written(Err(e)) => ReplyView::Written(Err(e@)),
        }
    }
}

/// What follows a successful write.
#[derive(Debug, Clone, Copy, PartialEq, Eq, Structural)]
pub enum AfterWrite {
    /// A list-screen change to the task with this id: reload, keep the cursor on it.
    Persist,
    /// A saved edit form: return to the list screen, reload, select the task.
    Save,
    /// A deletion: reload and clamp the cursor.
    Delete,
}

/// What follows a reload of the task list.
#[derive(Debug, Clone, Copy, PartialEq, Eq, Structural)]
pub enum AfterReload {
    /// Keep the cursor on the task with this id.
    Select(u128),
    /// Keep the cursor on the saved task and report the save.
    Saved(u128),
    /// Clamp the cursor and report the deletion.
    Deleted,
    /// The edited task was gone: clamp the cursor.
    Missing,
    /// A plain refresh: only the list changes.
    Refresh,
}

/// The store reply the application waits for, and what it does with it.
pub enum Pending {
    Idle,
    /// The stored copy of the edited task, to be saved with this title and due date.
    Fetch { title: String, due: Option<Date> },
    /// A write of the task with this id.
    Write { id: u128, after_write: AfterWrite },
    /// A reload of the task list.
    Reload { after_reload: AfterReload },
}

/// The value of a [`Pending`].
pub enum PendingView {
    Idle,
    Fetch { title: Seq<char>, due: Option<Date> },
    Write { id: u128, after_write: AfterWrite },
    Reload { after_reload: AfterReload },
}

impl View for Pending {
    type V = PendingView;

    open spec fn view(&self) -> PendingView {
        match self {
            Pending::Idle => PendingView::Idle,
            Pending::Fetch { title, due } => PendingView::Fetch { title: title@, due: *due },
            Pending::Write { id, after_write: then } => PendingView::Write { id: *id, after_write: *then },
            Pending::Reload { after_reload: then } => PendingView::Reload { after_reload: *then },
        }
    }
}

/// One rendered section of the Today view, in display order.
pub struct TodaySection {
    pub title: &'static str,
    pub tasks: Vec<Task>,
}

/// The first index of `s` whose task has id `id`.
pub open spec fn index_of_id(s: Seq<TaskView>, id: u128) -> Option<int>
    decreases s.len(),
{
    if s.len() == 0 {
        None
    } else if s[0].id == id {
        Some(0)
    } else {
        match index_of_id(s.drop_first(), id) {
            Some(i) => Some(i + 1),
            None => None,
        }
    }
}

/// The task is live, in progress, and not the one with id `except`.
pub open spec fn other_in_progress(t: TaskView, except: Option<u128>) -> bool {
    !t.deleted && t.status == Status::InProgress && except != Some(t.id)
}

/// The first task of `s` that is another live task in progress.
pub open spec fn first_other_in_progress(s: Seq<TaskView>, except: Option<u128>) -> Option<TaskView>
    decreases s.len(),
{
    if s.len() == 0 {
        None
    } else if other_in_progress(s[0], except) {
        Some(s[0])
    } else {
        first_other_in_progress(s.drop_first(), except)
    }
}

/// The message shown when a second task would enter `InProgress`.
pub open spec fn already_in_progress_msg(title: Seq<char>) -> Seq<char> {
    "Already in progress: '"@ + title + "'. Finish or pause it first."@
}

/// The message shown for a due date chrono cannot read.
pub open spec fn invalid_date_msg(text: Seq<char>) -> Seq<char> {
    "Invalid date '"@ + text + "' (expected YYYY-MM-DD)"@
}

impl EditView {
    /// The focused priority or status cycled forward (Right) or back (Left);
    /// other fields are unchanged.
    pub open spec fn cycled(self, forward: bool) -> EditView {
        match self.field {
            EditField::Priority => EditView {
                priority: if forward {
                    self.priority.spec_next()
                } else {
                    self.priority.spec_next().spec_next().spec_next()
                },
                ..self
            },
            EditField::Status => EditView {
                status: if forward {
                    self.status.spec_next()
                } else {
                    self.status.spec_next().spec_next()
                },
                ..self
            },
            _ => self,
        }
    }

    /// The form after Backspace: the focused text field loses its last character.
    pub open spec fn backspaced(self) -> EditView {
        if self.field.is_text() && self.focused_text().len() > 0 {
            self.with_focused_text(self.focused_text().drop_last())
        } else {
            self
        }
    }

    /// The form after typing `c`: on the priority field `p`/`P` cycles the
    /// priority, on the status field `s`/`S` cycles the status, other
    /// characters there do nothing; a text field gets `c` appended.
    pub open spec fn typed(self, c: char) -> EditView {
        if self.field == EditField::Priority {
            if c == 'p' || c == 'P' {
                EditView { priority: self.priority.spec_next(), ..self }
            } else {
                self
            }
        } else if self.field == EditField::Status {
            if c == 's' || c == 'S' {
                EditView { status: self.status.spec_next(), ..self }
            } else {
                self
            }
        } else {
            self.with_focused_text(self.focused_text().push(c))
        }
    }
}

/// The value of the whole application state.
pub struct AppView {
    pub tasks: Seq<TaskView>,
    pub screen: Screen,
    pub selected: usize,
    pub edit: EditView,
    pub filter: StatusFilter,
    pub message: Option<Seq<char>>,
    pub quit: bool,
    pub help_return: Screen,
    pub pending: PendingView,
}

impl AppView {
    /// The state right after start-up with the loaded tasks.
    pub open spec fn initial(tasks: Seq<TaskView>) -> AppView {
        AppView {
            tasks: tasks,
            screen: Screen::Today,
            selected: 0,
            edit: EditView::blank(Screen::Today),
            filter: StatusFilter::All,
            message: None,
            quit: false,
            help_return: Screen::Today,
            pending: PendingView::Idle,
        }
    }

    /// The list screen currently in effect: overlays defer to the screen
    /// they were opened from.
    pub open spec fn list_screen(self) -> Screen {
        match self.screen {
            Screen::Today => Screen::Today,
            Screen::All => Screen::All,
            Screen::Edit => self.edit.return_screen,
            Screen::Help => self.help_return,
        }
    }

    /// The shape every state of the application keeps: the edit form and
    /// the help overlay return to a list screen (Today or All), and a save
    /// in flight (a read of the edited task, or its write) is awaited on
    /// the edit form.
    pub open spec fn well_formed(self) -> bool {
        &&& (self.edit.return_screen == Screen::Today || self.edit.return_screen == Screen::All)
        &&& (self.help_return == Screen::Today || self.help_return == Screen::All)
        &&& (self.pending is Fetch ==> self.screen == Screen::Edit)
        &&& (self.pending matches PendingView::Write { after_write: AfterWrite::Save, .. } ==> self.screen
            == Screen::Edit)
    }

    /// The flat list the cursor indexes on the list screen in effect.
    pub open spec fn visible(self, today: Date) -> Seq<TaskView> {
        if self.list_screen() == Screen::All {
            all_list(self.tasks, self.filter)
        } else {
            today_flat(self.tasks, today)
        }
    }

    /// The task under the cursor, if any.
    pub open spec fn selected_task(self, today: Date) -> Option<TaskView> {
        if self.selected < self.visible(today).len() {
            Some(self.visible(today)[self.selected as int])
        } else {
            None
        }
    }

    pub open spec fn with_message(self, m: Seq<char>) -> AppView {
        AppView { message: Some(m), ..self }
    }

    pub open spec fn with_selected(self, i: int) -> AppView {
        AppView { selected: i as usize, ..self }
    }

    pub open spec fn with_edit(self, e: EditView) -> AppView {
        AppView { edit: e, ..self }
    }

    pub open spec fn with_pending(self, p: PendingView) -> AppView {
        AppView { pending: p, ..self }
    }

    /// Move the cursor down one row, stopping at the last row.
    pub open spec fn select_next(self, today: Date) -> AppView {
        let len = self.visible(today).len();
        if len == 0 {
            self.with_selected(0)
        } else if self.selected + 1 < len {
            self.with_selected(self.selected + 1)
        } else {
            self
        }
    }

    /// Move the cursor up one row, stopping at the first row.
    pub open spec fn select_prev(self) -> AppView {
        if self.selected > 0 {
            self.with_selected(self.selected - 1)
        } else {
            self.with_selected(0)
        }
    }

    /// Pull the cursor back onto the last row when it is past it.
    pub open spec fn clamped(self, today: Date) -> AppView {
        let len = self.visible(today).len();
        if len == 0 {
            self.with_selected(0)
        } else if self.selected >= len {
            self.with_selected(len - 1)
        } else {
            self
        }
    }

    /// Put the cursor on the task with id `id`, or clamp when it is not shown.
    pub open spec fn select_id(self, id: u128, today: Date) -> AppView {
        match index_of_id(self.visible(today), id) {
            Some(i) => self.with_selected(i),
            None => self.clamped(today),
        }
    }

    /// Open a blank form for a new task.
    pub open spec fn open_new(self) -> AppView {
        AppView { edit: EditView::blank(self.list_screen()), screen: Screen::Edit, ..self }
    }

    /// Open the form on the task under the cursor.
    pub open spec fn open_edit(self, today: Date) -> AppView {
        match self.selected_task(today) {
            Some(t) => AppView { edit: EditView::of_task(t, self.list_screen()), screen: Screen::Edit, ..self },
            None => self.with_message("No task selected"@),
        }
    }

    /// Write a changed task from a list screen.
    pub open spec fn persist(self, t: TaskView) -> (AppView, Option<RequestView>) {
        (
            self.with_pending(PendingView::Write { id: t.id, after_write: AfterWrite::Persist }),
            Some(RequestView::Upsert(t)),
        )
    }

    /// `space`: toggle the task under the cursor between done and to-do.
    pub open spec fn toggle_selected(self, m: Moment) -> (AppView, Option<RequestView>) {
        match self.selected_task(m.today) {
            Some(t) => self.persist(t.with_status(t.toggled_status(), m.now).touched(m.now)),
            None => (self, None),
        }
    }

    /// `s`/`S`: step the status of the task under the cursor forward or
    /// back; a step into `InProgress` is refused while another live task is
    /// in progress.
    pub open spec fn cycle_status(self, forward: bool, m: Moment) -> (AppView, Option<RequestView>) {
        match self.selected_task(m.today) {
            Some(t) => {
                let next = if forward {
                    t.status.spec_next()
                } else {
                    t.status.spec_next().spec_next()
                };
                match first_other_in_progress(self.tasks, Some(t.id)) {
                    Some(o) if next == Status::InProgress => (
                        self.with_message(already_in_progress_msg(o.title)),
                        None,
                    ),
                    _ => self.persist(t.with_status(next, m.now).touched(m.now)),
                }
            },
            None => (self, None),
        }
    }

    /// `p`/`P`: step the priority of the task under the cursor forward or back.
    pub open spec fn cycle_priority(self, forward: bool, m: Moment) -> (AppView, Option<RequestView>) {
        match self.selected_task(m.today) {
            Some(t) => {
                let p = if forward {
                    t.priority.spec_next()
                } else {
                    t.priority.spec_next().spec_next().spec_next()
                };
                self.persist(TaskView { priority: p, ..t }.touched(m.now))
            },
            None => (self, None),
        }
    }

    /// `d`: soft-delete the task under the cursor.
    pub open spec fn delete_selected(self, today: Date) -> (AppView, Option<RequestView>) {
        match self.selected_task(today) {
            Some(t) => (
                self.with_pending(PendingView::Write { id: t.id, after_write: AfterWrite::Delete }),
                Some(RequestView::SoftDelete(t.id)),
            ),
            None => (self, None),
        }
    }

    /// `/`: the next status filter, cursor clamped.
    pub open spec fn cycle_filter(self, today: Date) -> AppView {
        AppView { filter: self.filter.spec_next(), ..self }.clamped(today)
    }

    /// `Tab`: switch Today and All, cursor to the top.
    pub open spec fn toggle_view(self) -> AppView {
        AppView {
            screen: if self.screen == Screen::Today {
                Screen::All
            } else {
                Screen::Today
            },
            selected: 0,
            ..self
        }
    }

    /// A key on the Today or All screen.
    pub open spec fn list_key(self, key: KeyEvent, m: Moment) -> (AppView, Option<RequestView>) {
        let c = key.code;
        if key.is_ctrl_s() {
            (self.with_message("Sync arrives in Phase 3 (local-only build)"@), None)
        } else if c == KeyCode::Char('j') || c == KeyCode::Down {
            (self.select_next(m.today), None)
        } else if c == KeyCode::Char('k') || c == KeyCode::Up {
            (self.select_prev(), None)
        } else if c == KeyCode::Char('n') {
            (self.open_new(), None)
        } else if c == KeyCode::Char('e') || c == KeyCode::Enter {
            (self.open_edit(m.today), None)
        } else if c == KeyCode::Char(' ') {
            self.toggle_selected(m)
        } else if c == KeyCode::Char('s') {
            self.cycle_status(true, m)
        } else if c == KeyCode::Char('S') {
            self.cycle_status(false, m)
        } else if c == KeyCode::Char('p') {
            self.cycle_priority(true, m)
        } else if c == KeyCode::Char('P') {
            self.cycle_priority(false, m)
        } else if c == KeyCode::Char('d') {
            self.delete_selected(m.today)
        } else if c == KeyCode::Char('/') {
            (self.cycle_filter(m.today), None)
        } else if c == KeyCode::Tab {
            (self.toggle_view(), None)
        } else if c == KeyCode::Char('?') {
            (AppView { help_return: self.screen, screen: Screen::Help, ..self }, None)
        } else if c == KeyCode::Char('q') {
            (AppView { quit: true, ..self }, None)
        } else {
            (self, None)
        }
    }

    /// A key on the Help overlay: `?`, Esc or `q` dismiss it.
    pub open spec fn help_key(self, key: KeyEvent) -> AppView {
        if key.code == KeyCode::Char('?') || key.code == KeyCode::Esc || key.code == KeyCode::Char('q') {
            AppView { screen: self.help_return, ..self }
        } else {
            self
        }
    }

    /// The edit form's task once its stored copy (or a fresh task) is at
    /// hand: refused while another live task is in progress and the form
    /// says `InProgress`; else the form's fields are applied, the status set
    /// and the clock bumped at `now`, and the task written.
    pub open spec fn finish_save(self, t: TaskView, title: Seq<char>, due: Option<Date>, now: Timestamp) -> (
        AppView,
        Option<RequestView>,
    ) {
        match first_other_in_progress(self.tasks, self.edit.editing_id) {
            Some(o) if self.edit.status == Status::InProgress => (
                self.with_message(already_in_progress_msg(o.title)),
                None,
            ),
            _ => {
                let u = TaskView {
                    title: title,
                    notes: spec_non_empty(self.edit.notes),
                    project: spec_non_empty(self.edit.project),
                    due_date: due,
                    priority: self.edit.priority,
                    ..t
                }.with_status(self.edit.status, now).touched(now);
                (
                    self.with_pending(PendingView::Write { id: u.id, after_write: AfterWrite::Save }),
                    Some(RequestView::Upsert(u)),
                )
            },
        }
    }

    /// Save the edit form: the trimmed title must not be empty and a
    /// non-empty trimmed due date must read as `YYYY-MM-DD`; an existing
    /// task is first read back from the store, a new one is created with
    /// the fresh id at `now`.
    pub open spec fn save(self, m: Moment) -> (AppView, Option<RequestView>) {
        let title = trimmed(self.edit.title);
        let d = trimmed(self.edit.due_date);
        if title.len() == 0 {
            (self.with_message("Title cannot be empty"@), None)
        } else if d.len() != 0 && ymd_parsed(d) is None {
            (self.with_message(invalid_date_msg(d)), None)
        } else {
            let due = if d.len() == 0 {
                None
            } else {
                ymd_parsed(d)
            };
            match self.edit.editing_id {
                Some(id) => (
                    self.with_pending(PendingView::Fetch { title: title, due: due }),
                    Some(RequestView::Get(id)),
                ),
                None => self.finish_save(TaskView::fresh(title, m.fresh_id, m.now), title, due, m.now),
            }
        }
    }

    /// A key on the edit form.
    pub open spec fn edit_key(self, key: KeyEvent, m: Moment) -> (AppView, Option<RequestView>) {
        let c = key.code;
        if key.is_ctrl_s() {
            self.save(m)
        } else if c == KeyCode::Esc {
            (AppView { screen: self.edit.return_screen, ..self }, None)
        } else if c == KeyCode::Enter {
            self.save(m)
        } else if c == KeyCode::Tab || c == KeyCode::Down {
            (self.with_edit(EditView { field: self.edit.field.spec_next(), ..self.edit }), None)
        } else if c == KeyCode::BackTab || c == KeyCode::Up {
            (self.with_edit(EditView { field: self.edit.field.spec_prev(), ..self.edit }), None)
        } else if c == KeyCode::Left {
            (self.with_edit(self.edit.cycled(false)), None)
        } else if c == KeyCode::Right {
            (self.with_edit(self.edit.cycled(true)), None)
        } else if c == KeyCode::Backspace {
            (self.with_edit(self.edit.backspaced()), None)
        } else {
            match c {
                KeyCode::Char(ch) => (self.with_edit(self.edit.typed(ch)), None),
                _ => (self, None),
            }
        }
    }

    /// One key press: the transient message is cleared, then the key is
    /// handled by the screen it lands on.
    pub open spec fn key_step(self, key: KeyEvent, m: Moment) -> (AppView, Option<RequestView>) {
        let s = AppView { message: None, pending: PendingView::Idle, ..self };
        match s.screen {
            Screen::Edit => s.edit_key(key, m),
            Screen::Help => (s.help_key(key), None),
            _ => s.list_key(key, m),
        }
    }

    /// The task list arrived: replace it, then do what the reload was for.
    pub open spec fn reloaded(self, tasks: Seq<TaskView>, then: AfterReload, today: Date) -> AppView {
        let s = AppView { tasks: tasks, ..self };
        match then {
            AfterReload::Select(id) => s.select_id(id, today),
            AfterReload::Saved(id) => s.select_id(id, today).with_message("Saved"@),
            AfterReload::Deleted => s.clamped(today).with_message("Deleted"@),
            AfterReload::Missing => s.clamped(today),
            AfterReload::Refresh => s,
        }
    }

    /// The reload failed: keep the old list and report it; a change keeps
    /// the cursor on its task, a vanished edit clamps it.
    pub open spec fn reload_failed(self, e: Seq<char>, then: AfterReload, today: Date) -> AppView {
        let s = self.with_message("Failed to reload tasks: "@ + e);
        match then {
            AfterReload::Select(id) => s.select_id(id, today),
            AfterReload::Missing => s.clamped(today),
            _ => s,
        }
    }

    /// One store reply. A reply of another kind than the one awaited
    /// changes nothing.
    pub open spec fn reply_step(self, reply: ReplyView, m: Moment) -> (AppView, Option<RequestView>) {
        let s = self.with_pending(PendingView::Idle);
        match (self.pending, reply) {
            (PendingView::Fetch { title, due }, ReplyView::Fetched(Ok(Some(t)))) => s.finish_save(
                t,
                title,
                due,
                m.now,
            ),
            (PendingView::Fetch { .. }, ReplyView::Fetched(Ok(None))) => (
                AppView {
                    message: Some("Task no longer exists"@),
                    screen: self.edit.return_screen,
                    pending: PendingView::Reload { after_reload: AfterReload::Missing },
                    ..self
                },
                Some(RequestView::ListActive),
            ),
            (PendingView::Fetch { .. }, ReplyView::Fetched(Err(e))) => (
                s.with_message("Failed to load task: "@ + e),
                None,
            ),
            (PendingView::Write { id, after_write: then }, ReplyView::Written(Ok(()))) => match then {
                AfterWrite::Persist => (
                    self.with_pending(PendingView::Reload { after_reload: AfterReload::Select(id) }),
                    Some(RequestView::ListActive),
                ),
                AfterWrite::Save => (
                    AppView {
                        screen: self.edit.return_screen,
                        pending: PendingView::Reload { after_reload: AfterReload::Saved(id) },
                        ..self
                    },
                    Some(RequestView::ListActive),
                ),
                AfterWrite::Delete => (
                    self.with_pending(PendingView::Reload { after_reload: AfterReload::Deleted }),
                    Some(RequestView::ListActive),
                ),
            },
            (PendingView::Write { after_write: then, .. }, ReplyView::Written(Err(e))) => (
                s.with_message(
                    match then {
                        AfterWrite::Persist => "Update failed: "@,
                        AfterWrite::Save => "Save failed: "@,
                        AfterWrite::Delete => "Delete failed: "@,
                    } + e,
                ),
                None,
            ),
            (PendingView::Reload { after_reload: then }, ReplyView::Listed(Ok(tasks))) => (
                s.reloaded(tasks, then, m.today),
                None,
            ),
            (PendingView::Reload { after_reload: then }, ReplyView::Listed(Err(e))) => (
                s.reload_failed(e, then, m.today),
                None,
            ),
            _ => (self, None),
        }
    }
}

/// Removes the last character with `String::pop`; the contract states what
/// its documentation says: a non-empty string loses its last character, an
/// empty one stays empty.
#[verifier::external_body]
fn pop_char(s: &mut String)
    ensures
        old(s)@.len() > 0 ==> final(s)@ == old(s)@.drop_last(),
        old(s)@.len() == 0 ==> final(s)@ == old(s)@,
{
    s.pop();
}

/// The index of the first task with id `id`, scanning from the front.
proof fn lemma_index_of_id(s: Seq<TaskView>, id: u128, i: int)
    requires
        0 <= i <= s.len(),
        forall|k: int| 0 <= k < i ==> (#[trigger] s[k]).id != id,
        i == s.len() || s[i].id == id,
    ensures
        index_of_id(s, id) == if i == s.len() {
            None
        } else {
            Some(i)
        },
    decreases i,
{
    if i > 0 {
        let d = s.drop_first();
        assert forall|k: int| 0 <= k < i - 1 implies (#[trigger] d[k]).id != id by {
            assert(d[k] == s[k + 1]);
        }
        if i < s.len() {
            assert(d[i - 1] == s[i]);
        }
        assert(s[0].id != id);
        lemma_index_of_id(d, id, i - 1);
    }
}

/// The first other live in-progress task, scanning from the front.
proof fn lemma_first_other_in_progress(s: Seq<TaskView>, except: Option<u128>, i: int)
    requires
        0 <= i <= s.len(),
        forall|k: int| 0 <= k < i ==> !other_in_progress(#[trigger] s[k], except),
        i == s.len() || other_in_progress(s[i], except),
    ensures
        first_other_in_progress(s, except) == if i == s.len() {
            None
        } else {
            Some(s[i])
        },
    decreases i,
{
    if i > 0 {
        let d = s.drop_first();
        assert forall|k: int| 0 <= k < i - 1 implies !other_in_progress(#[trigger] d[k], except) by {
            assert(d[k] == s[k + 1]);
        }
        if i < s.len() {
            assert(d[i - 1] == s[i]);
        }
        assert(!other_in_progress(s[0], except));
        lemma_first_other_in_progress(d, except, i - 1);
    }
}

/// The index of the first task of `v` with id `id`.
fn position_of_id(v: &Vec<Task>, id: u128) -> (r: Option<usize>)
    ensures
        match r {
            Some(i) => index_of_id(views(v@), id) == Some(i as int),
            None => index_of_id(views(v@), id) is None,
        },
{
    let n = v.len();
    let mut i: usize = 0;
    while i < n
        invariant
            n == v@.len(),
            i <= n,
            forall|k: int| 0 <= k < i ==> (#[trigger] views(v@)[k]).id != id,
        decreases n - i,
    {
        if v[i].id == id {
            proof {
                lemma_index_of_id(views(v@), id, i as int);
            }
            return Some(i);
        }
        i = i + 1;
    }
    proof {
        lemma_index_of_id(views(v@), id, n as int);
    }
    None
}

/// The whole application: the tasks last loaded from the store plus
/// transient UI state.
pub struct App {
    tasks: Vec<Task>,
    screen: Screen,
    selected: usize,
    edit: EditState,
    filter: StatusFilter,
    status_message: Option<String>,
    should_quit: bool,
    help_return: Screen,
    pending: Pending,
}

impl View for App {
    type V = AppView;

    closed spec fn view(&self) -> AppView {
        AppView {
            tasks: views(self.tasks@),
            screen: self.screen,
            selected: self.selected,
            edit: self.edit@,
            filter: self.filter,
            message: crate::model::opt_text(self.status_message),
            quit: self.should_quit,
            help_return: self.help_return,
            pending: self.pending@,
        }
    }
}

impl App {
    /// Every `App` is well formed (see [`AppView::well_formed`]).
    #[verifier::type_invariant]
    spec fn keeps_shape(self) -> bool {
        self@.well_formed()
    }

    /// Build an `App` over the active task list loaded from the store.
    pub fn new(tasks: Vec<Task>) -> (r: App)
        ensures
            r@ == AppView::initial(views(tasks@)),
    {
        App {
            tasks: tasks,
            screen: Screen::Today,
            selected: 0,
            edit: EditState::new(Screen::Today),
            filter: StatusFilter::All,
            status_message: None,
            should_quit: false,
            help_return: Screen::Today,
            pending: Pending::Idle,
        }
    }

    // ----- Public accessors for the UI / main loop. -----

    pub fn should_quit(&self) -> (r: bool)
        ensures
            r == self@.quit,
    {
        self.should_quit
    }

    pub fn screen(&self) -> (r: Screen)
        ensures
            r == self@.screen,
    {
        self.screen
    }

    pub fn selected(&self) -> (r: usize)
        ensures
            r == self@.selected,
    {
        self.selected
    }

    pub fn status_message(&self) -> (r: Option<&str>)
        ensures
            match r {
                Some(s) => self@.message == Some(s@),
                None => self@.message is None,
            },
    {
        match &self.status_message {
            Some(s) => Some(s.as_str()),
            None => None,
        }
    }

    pub fn filter(&self) -> (r: StatusFilter)
        ensures
            r == self@.filter,
    {
        self.filter
    }

    pub fn edit_state(&self) -> (r: &EditState)
        ensures
            r@ == self@.edit,
    {
        &self.edit
    }

    /// The tasks last loaded from the store, in the store's order.
    pub fn tasks(&self) -> (r: &Vec<Task>)
        ensures
            views(r@) == self@.tasks,
    {
        &self.tasks
    }

    // ----- Derived views. -----

    /// The list screen currently in effect (Edit/Help overlays defer to the
    /// screen they were opened from).
    pub fn list_screen(&self) -> (r: Screen)
        ensures
            r == self@.list_screen(),
            r == Screen::Today || r == Screen::All,
            self@.well_formed(),
    {
        proof {
            use_type_invariant(self);
        }
        match self.screen {
            Screen::Today => Screen::Today,
            Screen::All => Screen::All,
            Screen::Edit => self.edit.return_screen,
            Screen::Help => self.help_return,
        }
    }

    /// The three Today sections for the given day, each in the shared order.
    pub fn today_sections_on(&self, today: Date) -> (r: Vec<TodaySection>)
        ensures
            r@.len() == 3,
            r@[0].title@ == "In progress"@,
            r@[1].title@ == "Overdue / due today"@,
            r@[2].title@ == "Next up"@,
            views(r@[0].tasks@) == picked(self@.tasks, Pick::InProgress),
            views(r@[1].tasks@) == picked(self@.tasks, Pick::Overdue(today)),
            views(r@[2].tasks@) == picked(self@.tasks, Pick::NextUp(today)),
    {
        let in_progress = pick_sorted(&self.tasks, Pick::InProgress);
        let overdue = pick_sorted(&self.tasks, Pick::Overdue(today));
        let next_up = pick_sorted(&self.tasks, Pick::NextUp(today));
        let mut r: Vec<TodaySection> = Vec::new();
        r.push(TodaySection { title: "In progress", tasks: in_progress });
        r.push(TodaySection { title: "Overdue / due today", tasks: overdue });
        r.push(TodaySection { title: "Next up", tasks: next_up });
        r
    }

    /// The three Today sections (in progress; overdue or due today; next up),
    /// each in the shared order, for today's local date.
    pub fn today_sections(&self) -> (r: Vec<TodaySection>)
        ensures
            r@.len() == 3,
            r@[0].title@ == "In progress"@,
            r@[1].title@ == "Overdue / due today"@,
            r@[2].title@ == "Next up"@,
            exists|today: Date|
                today.valid() && views(r@[0].tasks@) == picked(self@.tasks, Pick::InProgress)
                    && views(r@[1].tasks@) == picked(self@.tasks, Pick::Overdue(today))
                    && views(r@[2].tasks@) == picked(self@.tasks, Pick::NextUp(today)),
    {
        let today = clock::local_today();
        self.today_sections_on(today)
    }

    /// The in-progress tasks in Today order (priority desc, due asc, created
    /// asc): what the headless `enjo status` command surfaces.
    pub fn in_progress_tasks(&self) -> (r: Vec<Task>)
        ensures
            views(r@) == picked(self@.tasks, Pick::InProgress),
    {
        pick_sorted(&self.tasks, Pick::InProgress)
    }

    /// Every non-deleted task for the Today screen's overview pane: open
    /// tasks in sort order first, then completed ones, also sorted. Ignores
    /// the All-view status filter.
    pub fn overview_tasks(&self) -> (r: Vec<Task>)
        ensures
            views(r@) == overview_list(self@.tasks),
    {
        let open = pick_sorted(&self.tasks, Pick::Open);
        let finished = pick_sorted(&self.tasks, Pick::Finished);
        concat_tasks(open, finished)
    }

    /// All active tasks passing the current status filter, in sort order.
    pub fn all_tasks(&self) -> (r: Vec<Task>)
        ensures
            views(r@) == all_list(self@.tasks, self@.filter),
    {
        pick_sorted(&self.tasks, Pick::Filtered(self.filter))
    }

    /// The flat list the selection cursor indexes on the given day.
    pub fn visible_tasks_on(&self, today: Date) -> (r: Vec<Task>)
        ensures
            views(r@) == self@.visible(today),
            self@.list_screen() == Screen::Today || self@.list_screen() == Screen::All,
    {
        if self.list_screen() == Screen::All {
            pick_sorted(&self.tasks, Pick::Filtered(self.filter))
        } else {
            let a = pick_sorted(&self.tasks, Pick::InProgress);
            let b = pick_sorted(&self.tasks, Pick::Overdue(today));
            let c = pick_sorted(&self.tasks, Pick::NextUp(today));
            concat_tasks(concat_tasks(a, b), c)
        }
    }

    /// The flat list the selection cursor indexes for the active list screen.
    pub fn visible_tasks(&self) -> (r: Vec<Task>)
        ensures
            exists|today: Date| today.valid() && views(r@) == self@.visible(today),
            self@.list_screen() == Screen::Today || self@.list_screen() == Screen::All,
    {
        let today = clock::local_today();
        self.visible_tasks_on(today)
    }

    /// The task under the cursor on the given day, if any.
    pub fn selected_task_on(&self, today: Date) -> (r: Option<Task>)
        ensures
            match r {
                Some(t) => self@.selected_task(today) == Some(t@),
                None => self@.selected_task(today) is None,
            },
    {
        let v = self.visible_tasks_on(today);
        if self.selected < v.len() {
            Some(v[self.selected].clone())
        } else {
            None
        }
    }

    /// The task under the cursor, if any.
    pub fn selected_task(&self) -> (r: Option<Task>)
        ensures
            exists|today: Date|
                today.valid() && match r {
                    Some(t) => self@.selected_task(today) == Some(t@),
                    None => self@.selected_task(today) is None,
                },
    {
        let today = clock::local_today();
        self.selected_task_on(today)
    }

    /// The title of another (non-deleted) task already in progress, excluding
    /// `except`.
    fn other_in_progress_title(&self, except: Option<u128>) -> (r: Option<String>)
        ensures
            crate::model::opt_text(r) == match first_other_in_progress(self@.tasks, except) {
                Some(t) => Some(t.title),
                None => None,
            },
    {
        let n = self.tasks.len();
        let mut i: usize = 0;
        while i < n
            invariant
                n == self.tasks@.len(),
                i <= n,
                forall|k: int| 0 <= k < i ==> !other_in_progress(#[trigger] views(self.tasks@)[k], except),
            decreases n - i,
        {
            let t = &self.tasks[i];
            if !t.deleted && t.status == Status::InProgress && except != Some(t.id) {
                proof {
                    lemma_first_other_in_progress(views(self.tasks@), except, i as int);
                }
                return Some(t.title.clone());
            }
            i = i + 1;
        }
        proof {
            lemma_first_other_in_progress(views(self.tasks@), except, n as int);
        }
        None
    }

    fn set_message(&mut self, m: String)
        ensures
            final(self)@ == old(self)@.with_message(m@),
    {
        proof {
            use_type_invariant(&*self);
        }
        self.status_message = Some(m);
    }

    // ----- Selection helpers (clamp, never wrap). -----

    fn select_next(&mut self, today: Date)
        ensures
            final(self)@ == old(self)@.select_next(today),
    {
        proof {
            use_type_invariant(&*self);
        }
        let len = self.visible_tasks_on(today).len();
        if len == 0 {
            self.selected = 0;
        } else if self.selected < len - 1 {
            self.selected = self.selected + 1;
        }
    }

    fn select_prev(&mut self)
        ensures
            final(self)@ == old(self)@.select_prev(),
    {
        proof {
            use_type_invariant(&*self);
        }
        if self.selected > 0 {
            self.selected = self.selected - 1;
        } else {
            self.selected = 0;
        }
    }

    fn clamp_selection(&mut self, today: Date)
        ensures
            final(self)@ == old(self)@.clamped(today),
    {
        proof {
            use_type_invariant(&*self);
        }
        let len = self.visible_tasks_on(today).len();
        if len == 0 {
            self.selected = 0;
        } else if self.selected >= len {
            self.selected = len - 1;
        }
    }

    fn select_task_by_id(&mut self, id: u128, today: Date)
        ensures
            final(self)@ == old(self)@.select_id(id, today),
    {
        proof {
            use_type_invariant(&*self);
        }
        let v = self.visible_tasks_on(today);
        match position_of_id(&v, id) {
            Some(i) => {
                self.selected = i;
            },
            None => {
                self.clamp_selection(today);
            },
        }
    }
}

impl App {
    // ----- Mutations: each hands back the store request it needs. -----

    fn open_new(&mut self)
        ensures
            final(self)@ == old(self)@.open_new(),
    {
        proof {
            use_type_invariant(&*self);
        }
        self.edit = EditState::new(self.list_screen());
        self.screen = Screen::Edit;
    }

    fn open_edit_selected(&mut self, today: Date)
        ensures
            final(self)@ == old(self)@.open_edit(today),
    {
        proof {
            use_type_invariant(&*self);
        }
        match self.selected_task_on(today) {
            Some(task) => {
                self.edit = EditState::from_task(&task, self.list_screen());
                self.screen = Screen::Edit;
            },
            None => self.set_message(String::from_str("No task selected")),
        }
    }

    fn persist(&mut self, task: Task) -> (r: Option<StoreRequest>)
        ensures
            (final(self)@, request_view(r)) == old(self)@.persist(task@),
    {
        proof {
            use_type_invariant(&*self);
        }
        self.pending = Pending::Write { id: task.id, after_write: AfterWrite::Persist };
        Some(StoreRequest::Upsert(task))
    }

    fn already_in_progress(&mut self, title: String)
        ensures
            final(self)@ == old(self)@.with_message(already_in_progress_msg(title@)),
    {
        proof {
            use_type_invariant(&*self);
        }
        let mut msg = String::from_str("Already in progress: '");
        msg.append(title.as_str());
        msg.append("'. Finish or pause it first.");
        self.set_message(msg);
    }

    fn toggle_selected_done(&mut self, m: Moment) -> (r: Option<StoreRequest>)
        ensures
            (final(self)@, request_view(r)) == old(self)@.toggle_selected(m),
    {
        proof {
            use_type_invariant(&*self);
        }
        match self.selected_task_on(m.today) {
            Some(mut task) => {
                task.toggle_done_at(m.now);
                task.touch_at(m.now);
                self.persist(task)
            },
            None => None,
        }
    }

    fn cycle_selected_status(&mut self, forward: bool, m: Moment) -> (r: Option<StoreRequest>)
        ensures
            (final(self)@, request_view(r)) == old(self)@.cycle_status(forward, m),
    {
        proof {
            use_type_invariant(&*self);
        }
        match self.selected_task_on(m.today) {
            Some(mut task) => {
                let next = if forward {
                    task.status.next()
                } else {
                    prev_status(task.status)
                };
                if next == Status::InProgress {
                    match self.other_in_progress_title(Some(task.id)) {
                        Some(other) => {
                            self.already_in_progress(other);
                            return None;
                        },
                        None => {},
                    }
                }
                task.set_status_at(next, m.now);
                task.touch_at(m.now);
                self.persist(task)
            },
            None => None,
        }
    }

    fn cycle_selected_priority(&mut self, forward: bool, m: Moment) -> (r: Option<StoreRequest>)
        ensures
            (final(self)@, request_view(r)) == old(self)@.cycle_priority(forward, m),
    {
        proof {
            use_type_invariant(&*self);
        }
        match self.selected_task_on(m.today) {
            Some(mut task) => {
                task.priority = if forward {
                    task.priority.next()
                } else {
                    prev_priority(task.priority)
                };
                task.touch_at(m.now);
                self.persist(task)
            },
            None => None,
        }
    }

    fn delete_selected(&mut self, today: Date) -> (r: Option<StoreRequest>)
        ensures
            (final(self)@, request_view(r)) == old(self)@.delete_selected(today),
    {
        proof {
            use_type_invariant(&*self);
        }
        match self.selected_task_on(today) {
            Some(task) => {
                self.pending = Pending::Write { id: task.id, after_write: AfterWrite::Delete };
                Some(StoreRequest::SoftDelete(task.id))
            },
            None => None,
        }
    }

    fn cycle_filter(&mut self, today: Date)
        ensures
            final(self)@ == old(self)@.cycle_filter(today),
    {
        proof {
            use_type_invariant(&*self);
        }
        self.filter = self.filter.next();
        self.clamp_selection(today);
    }

    fn toggle_view(&mut self)
        requires
            old(self)@.pending is Idle,
        ensures
            final(self)@ == old(self)@.toggle_view(),
    {
        proof {
            use_type_invariant(&*self);
        }
        self.screen = match self.screen {
            Screen::Today => Screen::All,
            _ => Screen::Today,
        };
        self.selected = 0;
    }

    // ----- Key handling. -----

    fn on_key_help(&mut self, key: KeyEvent)
        requires
            old(self)@.pending is Idle,
        ensures
            final(self)@ == old(self)@.help_key(key),
    {
        proof {
            use_type_invariant(&*self);
        }
        match key.code {
            KeyCode::Char('?') | KeyCode::Esc | KeyCode::Char('q') => {
                self.screen = self.help_return;
            },
            _ => {},
        }
    }

    fn on_key_list(&mut self, key: KeyEvent, m: Moment) -> (r: Option<StoreRequest>)
        requires
            old(self)@.screen == Screen::Today || old(self)@.screen == Screen::All,
            old(self)@.pending is Idle,
        ensures
            (final(self)@, request_view(r)) == old(self)@.list_key(key, m),
    {
        proof {
            use_type_invariant(&*self);
        }
        if key.modifiers == KeyModifiers::Control && (key.code == KeyCode::Char('s') || key.code
            == KeyCode::Char('S')) {
            self.set_message(String::from_str("Sync arrives in Phase 3 (local-only build)"));
            return None;
        }
        match key.code {
            KeyCode::Char('j') | KeyCode::Down => {
                self.select_next(m.today);
                None
            },
            KeyCode::Char('k') | KeyCode::Up => {
                self.select_prev();
                None
            },
            KeyCode::Char('n') => {
                self.open_new();
                None
            },
            KeyCode::Char('e') | KeyCode::Enter => {
                self.open_edit_selected(m.today);
                None
            },
            KeyCode::Char(' ') => self.toggle_selected_done(m),
            KeyCode::Char('s') => self.cycle_selected_status(true, m),
            KeyCode::Char('S') => self.cycle_selected_status(false, m),
            KeyCode::Char('p') => self.cycle_selected_priority(true, m),
            KeyCode::Char('P') => self.cycle_selected_priority(false, m),
            KeyCode::Char('d') => self.delete_selected(m.today),
            KeyCode::Char('/') => {
                self.cycle_filter(m.today);
                None
            },
            KeyCode::Tab => {
                self.toggle_view();
                None
            },
            KeyCode::Char('?') => {
                self.help_return = self.screen;
                self.screen = Screen::Help;
                None
            },
            KeyCode::Char('q') => {
                self.should_quit = true;
                None
            },
            _ => None,
        }
    }

    fn edit_cycle_value(&mut self, forward: bool)
        ensures
            final(self)@ == old(self)@.with_edit(old(self)@.edit.cycled(forward)),
    {
        proof {
            use_type_invariant(&*self);
        }
        match self.edit.field {
            EditField::Priority => {
                self.edit.priority = if forward {
                    self.edit.priority.next()
                } else {
                    prev_priority(self.edit.priority)
                };
            },
            EditField::Status => {
                self.edit.status = if forward {
                    self.edit.status.next()
                } else {
                    prev_status(self.edit.status)
                };
            },
            _ => {},
        }
    }

    fn edit_backspace(&mut self)
        ensures
            final(self)@ == old(self)@.with_edit(old(self)@.edit.backspaced()),
    {
        proof {
            use_type_invariant(&*self);
        }
        let mut edit = EditState::new(Screen::Today);
        std::mem::swap(&mut edit, &mut self.edit);
        edit.backspace();
        self.edit = edit;
    }

    fn edit_type(&mut self, c: char)
        ensures
            final(self)@ == old(self)@.with_edit(old(self)@.edit.typed(c)),
    {
        proof {
            use_type_invariant(&*self);
        }
        let mut edit = EditState::new(Screen::Today);
        std::mem::swap(&mut edit, &mut self.edit);
        edit.type_char(c);
        self.edit = edit;
    }

    /// Write the edit form's task: refused while another task is in
    /// progress and the form asks for `InProgress`.
    fn finish_save(&mut self, task: Task, title: String, due: Option<Date>, now: Timestamp) -> (r: Option<StoreRequest>)
        requires
            old(self)@.screen == Screen::Edit,
        ensures
            (final(self)@, request_view(r)) == old(self)@.finish_save(task@, title@, due, now),
    {
        proof {
            use_type_invariant(&*self);
        }
        if self.edit.status == Status::InProgress {
            match self.other_in_progress_title(self.edit.editing_id) {
                Some(other) => {
                    self.already_in_progress(other);
                    return None;
                },
                None => {},
            }
        }
        let mut task = task;
        task.title = title;
        task.notes = non_empty(self.edit.notes.as_str());
        task.project = non_empty(self.edit.project.as_str());
        task.due_date = due;
        task.priority = self.edit.priority;
        task.set_status_at(self.edit.status, now);
        task.touch_at(now);
        self.pending = Pending::Write { id: task.id, after_write: AfterWrite::Save };
        Some(StoreRequest::Upsert(task))
    }

    /// Validate the edit form and start saving it. Validation failures leave
    /// the form open with a status message.
    fn save_edit(&mut self, m: Moment) -> (r: Option<StoreRequest>)
        requires
            old(self)@.screen == Screen::Edit,
        ensures
            (final(self)@, request_view(r)) == old(self)@.save(m),
    {
        proof {
            use_type_invariant(&*self);
        }
        let title = trim(self.edit.title.as_str());
        if title.as_str().unicode_len() == 0 {
            self.set_message(String::from_str("Title cannot be empty"));
            return None;
        }
        let d = trim(self.edit.due_date.as_str());
        let due = if d.as_str().unicode_len() == 0 {
            None
        } else {
            match date_from_text(d.as_str()) {
                Some(date) => Some(date),
                None => {
                    let mut msg = String::from_str("Invalid date '");
                    msg.append(d.as_str());
                    msg.append("' (expected YYYY-MM-DD)");
                    self.set_message(msg);
                    return None;
                },
            }
        };
        match self.edit.editing_id {
            Some(id) => {
                self.pending = Pending::Fetch { title: title, due: due };
                Some(StoreRequest::Get(id))
            },
            None => {
                let task = Task::new_at(title.clone(), m.fresh_id, m.now);
                self.finish_save(task, title, due, m.now)
            },
        }
    }

    fn on_key_edit(&mut self, key: KeyEvent, m: Moment) -> (r: Option<StoreRequest>)
        requires
            old(self)@.screen == Screen::Edit,
            old(self)@.pending is Idle,
        ensures
            (final(self)@, request_view(r)) == old(self)@.edit_key(key, m),
    {
        proof {
            use_type_invariant(&*self);
        }
        if key.modifiers == KeyModifiers::Control && (key.code == KeyCode::Char('s') || key.code
            == KeyCode::Char('S')) {
            return self.save_edit(m);
        }
        match key.code {
            KeyCode::Esc => {
                self.screen = self.edit.return_screen;
                None
            },
            KeyCode::Enter => self.save_edit(m),
            KeyCode::Tab | KeyCode::Down => {
                self.edit.field = self.edit.field.next();
                None
            },
            KeyCode::BackTab | KeyCode::Up => {
                self.edit.field = self.edit.field.prev();
                None
            },
            KeyCode::Left => {
                self.edit_cycle_value(false);
                None
            },
            KeyCode::Right => {
                self.edit_cycle_value(true);
                None
            },
            KeyCode::Backspace => {
                self.edit_backspace();
                None
            },
            KeyCode::Char(c) => {
                self.edit_type(c);
                None
            },
            _ => None,
        }
    }

    /// Handle one key press at the given moment and hand back the store
    /// request it needs, if any. The transient message is cleared first.
    pub fn on_key_at(&mut self, key: KeyEvent, m: Moment) -> (r: Option<StoreRequest>)
        ensures
            (final(self)@, request_view(r)) == old(self)@.key_step(key, m),
            old(self)@.well_formed(),
            final(self)@.well_formed(),
            cursor_in_range(old(self)@, m.today) ==> cursor_in_range(final(self)@, m.today),
    {
        proof {
            use_type_invariant(&*self);
            assert(self.tasks@.len() == self.tasks.len());
            lemma_keys_keep_cursor_in_range(self@, key, m);
        }
        self.status_message = None;
        self.pending = Pending::Idle;
        match self.screen {
            Screen::Edit => self.on_key_edit(key, m),
            Screen::Help => {
                self.on_key_help(key);
                None
            },
            Screen::Today | Screen::All => self.on_key_list(key, m),
        }
    }

    /// Handle one key press, reading the clock and a fresh id for it, and
    /// hand back the store request it needs, if any. Store errors surface
    /// later, through [`App::on_reply`], as status messages.
    pub fn on_key(&mut self, key: KeyEvent) -> (r: Option<StoreRequest>)
        ensures
            exists|m: Moment|
                m.today.valid() && m.now.valid() && clock::is_uuid_v7(m.fresh_id) && (final(self)@, request_view(r))
                    == old(self)@.key_step(key, m) && (cursor_in_range(old(self)@, m.today) ==> cursor_in_range(
                    final(self)@,
                    m.today,
                )),
            old(self)@.well_formed(),
            final(self)@.well_formed(),
    {
        proof {
            use_type_invariant(&*self);
        }
        let m = Moment::read();
        self.on_key_at(key, m)
    }

    fn written_failed(&mut self, then: AfterWrite, e: String)
        ensures
            final(self)@ == old(self)@.with_message(
                match then {
                    AfterWrite::Persist => "Update failed: "@,
                    AfterWrite::Save => "Save failed: "@,
                    AfterWrite::Delete => "Delete failed: "@,
                } + e@,
            ),
    {
        proof {
            use_type_invariant(&*self);
        }
        let mut msg = match then {
            AfterWrite::Persist => String::from_str("Update failed: "),
            AfterWrite::Save => String::from_str("Save failed: "),
            AfterWrite::Delete => String::from_str("Delete failed: "),
        };
        msg.append(e.as_str());
        self.set_message(msg);
    }

    fn after_reload(&mut self, tasks: Vec<Task>, then: AfterReload, today: Date)
        ensures
            final(self)@ == old(self)@.reloaded(views(tasks@), then, today),
    {
        proof {
            use_type_invariant(&*self);
        }
        self.tasks = tasks;
        match then {
            AfterReload::Select(id) => self.select_task_by_id(id, today),
            AfterReload::Saved(id) => {
                self.select_task_by_id(id, today);
                self.set_message(String::from_str("Saved"));
            },
            AfterReload::Deleted => {
                self.clamp_selection(today);
                self.set_message(String::from_str("Deleted"));
            },
            AfterReload::Missing => self.clamp_selection(today),
            AfterReload::Refresh => {},
        }
    }

    fn reload_failed(&mut self, e: String, then: AfterReload, today: Date)
        ensures
            final(self)@ == old(self)@.reload_failed(e@, then, today),
    {
        proof {
            use_type_invariant(&*self);
        }
        let mut msg = String::from_str("Failed to reload tasks: ");
        msg.append(e.as_str());
        self.set_message(msg);
        match then {
            AfterReload::Select(id) => self.select_task_by_id(id, today),
            AfterReload::Missing => self.clamp_selection(today),
            _ => {},
        }
    }

    /// Take in the outcome of the last store request at the given moment
    /// and hand back the next request, if any. A reply of another kind than
    /// the one awaited changes nothing.
    pub fn on_reply_at(&mut self, reply: StoreReply, m: Moment) -> (r: Option<StoreRequest>)
        ensures
            (final(self)@, request_view(r)) == old(self)@.reply_step(reply@, m),
            old(self)@.well_formed(),
            final(self)@.well_formed(),
            cursor_in_range(old(self)@, m.today) && !(old(self)@.pending == (PendingView::Reload {
                after_reload: AfterReload::Refresh,
            }) && reply@ matches ReplyView::Listed(Ok(_))) ==> cursor_in_range(final(self)@, m.today),
    {
        proof {
            use_type_invariant(&*self);
            assert(self.tasks@.len() == self.tasks.len());
            if let StoreReply::Listed(Ok(ts)) = &reply {
                assert(ts@.len() == ts.len());
            }
            lemma_replies_keep_cursor_in_range(self@, reply@, m);
        }
        let mut pending = Pending::Idle;
        std::mem::swap(&mut pending, &mut self.pending);
        match reply {
            StoreReply::Fetched(res) => match pending {
                Pending::Fetch { title, due } => match res {
                    Ok(Some(task)) => self.finish_save(task, title, due, m.now),
                    Ok(None) => {
                        self.set_message(String::from_str("Task no longer exists"));
                        self.screen = self.edit.return_screen;
                        self.pending = Pending::Reload { after_reload: AfterReload::Missing };
                        Some(StoreRequest::ListActive)
                    },
                    Err(e) => {
                        let mut msg = String::from_str("Failed to load task: ");
                        msg.append(e.as_str());
                        self.set_message(msg);
                        None
                    },
                },
                other => {
                    self.pending = other;
                    None
                },
            },
            StoreReply::Written(res) => match pending {
                Pending::Write { id, after_write: then } => match res {
                    Ok(()) => match then {
                        AfterWrite::Persist => {
                            self.pending = Pending::Reload { after_reload: AfterReload::Select(id) };
                            Some(StoreRequest::ListActive)
                        },
                        AfterWrite::Save => {
                            self.screen = self.edit.return_screen;
                            self.pending = Pending::Reload { after_reload: AfterReload::Saved(id) };
                            Some(StoreRequest::ListActive)
                        },
                        AfterWrite::Delete => {
                            self.pending = Pending::Reload { after_reload: AfterReload::Deleted };
                            Some(StoreRequest::ListActive)
                        },
                    },
                    Err(e) => {
                        self.written_failed(then, e);
                        None
                    },
                },
                other => {
                    self.pending = other;
                    None
                },
            },
            StoreReply::Listed(res) => match pending {
                Pending::Reload { after_reload: then } => match res {
                    Ok(tasks) => {
                        self.after_reload(tasks, then, m.today);
                        None
                    },
                    Err(e) => {
                        self.reload_failed(e, then, m.today);
                        None
                    },
                },
                other => {
                    self.pending = other;
                    None
                },
            },
        }
    }

    /// Start refreshing the in-memory task list from the store: hands back
    /// the list request. Its reply replaces the list; a failed read is
    /// reported in the status message and keeps the previous list.
    pub fn reload(&mut self) -> (r: StoreRequest)
        ensures
            final(self)@ == old(self)@.with_pending(PendingView::Reload { after_reload: AfterReload::Refresh }),
            r@ == RequestView::ListActive,
            final(self)@.well_formed(),
    {
        proof {
            use_type_invariant(&*self);
        }
        self.pending = Pending::Reload { after_reload: AfterReload::Refresh };
        StoreRequest::ListActive
    }

    /// Take in the outcome of the last store request, reading the clock for
    /// it, and hand back the next request, if any.
    pub fn on_reply(&mut self, reply: StoreReply) -> (r: Option<StoreRequest>)
        ensures
            exists|m: Moment|
                m.today.valid() && m.now.valid() && clock::is_uuid_v7(m.fresh_id) && (final(self)@, request_view(r))
                    == old(self)@.reply_step(reply@, m) && (cursor_in_range(old(self)@, m.today) && !(old(self)@.pending
                    == (PendingView::Reload { after_reload: AfterReload::Refresh })
                    && reply@ matches ReplyView::Listed(Ok(_))) ==> cursor_in_range(final(self)@, m.today)),
            old(self)@.well_formed(),
            final(self)@.well_formed(),
    {
        proof {
            use_type_invariant(&*self);
        }
        let m = Moment::read();
        self.on_reply_at(reply, m)
    }
}

} // verus!
