//! What the screens say: the texts of task rows, headers and footers, the
//! line layout of the Today view and the scrolling that keeps the cursor on
//! screen. Drawing these with styles is left to the terminal front end.

use vstd::prelude::*;
use vstd::string::*;
use crate::model::{Priority, Status, Task, TaskView};
use crate::ordering::views;
use crate::app::{Screen, StatusFilter, TodaySection};
use crate::codec::{date_to_text, ymd_text};
use crate::text::push_char;

verus! {

/// Compute a vertical scroll offset that keeps `selected_line` within the
/// visible window `[offset, offset + height)` of a `total_lines`-tall content
/// area.
pub open spec fn spec_scroll_offset(selected_line: int, total_lines: int, height: int) -> int {
    if height == 0 || total_lines <= height {
        0
    } else {
        let off = if selected_line < height {
            0
        } else {
            selected_line + 1 - height
        };
        if off < total_lines - height {
            off
        } else {
            total_lines - height
        }
    }
}

/// The scroll offset that keeps the selected line in the window: none when
/// everything fits, else just enough to show the selection at the bottom
/// edge, never past the end of the content. The offset is handed out as a
/// `u16`, cut to its low 16 bits as an `as` cast does.
pub fn scroll_offset(selected_line: usize, total_lines: usize, height: usize) -> (r: u16)
    ensures
        r == spec_scroll_offset(selected_line as int, total_lines as int, height as int) % 0x10000,
{
    if height == 0 || total_lines <= height {
        return 0;
    }
    let max_offset = total_lines - height;
    let offset = if selected_line < height {
        0
    } else {
        selected_line - height + 1
    };
    let r = if offset < max_offset {
        offset
    } else {
        max_offset
    };
    proof {
        assert(r as u16 == r % 0x10000) by (bit_vector);
    }
    #[verifier::truncate]
    (r as u16)
}

/// The scroll offset keeps a selected line that exists inside the window,
/// and the window inside the content.
pub proof fn lemma_scroll_keeps_selection_visible(selected_line: int, total_lines: int, height: int)
    requires
        0 <= selected_line < total_lines,
        height > 0,
    ensures
        0 <= spec_scroll_offset(selected_line, total_lines, height) <= selected_line,
        selected_line < spec_scroll_offset(selected_line, total_lines, height) + height,
        total_lines > height ==> spec_scroll_offset(selected_line, total_lines, height) + height <= total_lines,
{
}

/// The tag that marks a priority in a task row.
pub open spec fn spec_priority_tag(p: Priority) -> Seq<char> {
    match p {
        Priority::Low => "(L)"@,
        Priority::Medium => "(M)"@,
        Priority::High => "(H)"@,
        Priority::Urgent => "(U)"@,
    }
}

/// The tag that marks a priority in a task row.
pub fn priority_tag(p: Priority) -> (r: &'static str)
    ensures
        r@ == spec_priority_tag(p),
{
    match p {
        Priority::Low => "(L)",
        Priority::Medium => "(M)",
        Priority::High => "(H)",
        Priority::Urgent => "(U)",
    }
}

/// The box that marks a status in a task row.
pub open spec fn spec_status_mark(s: Status) -> Seq<char> {
    match s {
        Status::Done => "[x]"@,
        Status::InProgress => "[~]"@,
        Status::Todo => "[ ]"@,
    }
}

/// The box that marks a status in a task row.
pub fn status_mark(s: Status) -> (r: &'static str)
    ensures
        r@ == spec_status_mark(s),
{
    match s {
        Status::Done => "[x]",
        Status::InProgress => "[~]",
        Status::Todo => "[ ]",
    }
}

/// The decimal digits of `n`.
pub open spec fn decimal(n: nat) -> Seq<char>
    decreases n,
{
    if n < 10 {
        seq![(n + 48) as char]
    } else {
        decimal(n / 10).push(((n % 10) + 48) as char)
    }
}

/// The decimal text of `n`, as `usize`'s `Display` writes it.
pub fn decimal_text(n: usize) -> (r: String)
    ensures
        r@ == decimal(n as nat),
    decreases n,
{
    if n < 10 {
        let mut s = String::new();
        push_char(&mut s, digit_char(n));
        proof {
            assert(s@ =~= decimal(n as nat));
        }
        s
    } else {
        let mut s = decimal_text(n / 10);
        push_char(&mut s, digit_char(n % 10));
        s
    }
}

fn digit_char(d: usize) -> (r: char)
    requires
        d < 10,
    ensures
        r == (d + 48) as char,
{
    match d {
        0 => '0',
        1 => '1',
        2 => '2',
        3 => '3',
        4 => '4',
        5 => '5',
        6 => '6',
        7 => '7',
        8 => '8',
        _ => '9',
    }
}

/// The pieces of text of one task row.
pub struct RowTexts {
    /// The status box and a space.
    pub check: String,
    /// The priority tag and a space.
    pub priority: String,
    /// The title as it is.
    pub title: String,
    /// `  due:YYYY-MM-DD`, or empty without a due date.
    pub due: String,
    /// `  #project`, or empty without a project.
    pub project: String,
}

/// The texts of the row describing a task.
pub open spec fn row_texts(t: TaskView) -> (Seq<char>, Seq<char>, Seq<char>, Seq<char>, Seq<char>) {
    (
        spec_status_mark(t.status) + " "@,
        spec_priority_tag(t.priority) + " "@,
        t.title,
        match t.due_date {
            Some(d) => "  due:"@ + ymd_text(d),
            None => Seq::empty(),
        },
        match t.project {
            Some(p) => "  #"@ + p,
            None => Seq::empty(),
        },
    )
}

/// The texts describing a single task row (status, priority, title, due,
/// project), without any selection marker.
pub fn task_row_texts(task: &Task) -> (r: RowTexts)
    ensures
        (r.check@, r.priority@, r.title@, r.due@, r.project@) == row_texts(task@),
{
    let mut check = String::from_str(status_mark(task.status));
    check.append(" ");
    let mut priority = String::from_str(priority_tag(task.priority));
    priority.append(" ");
    let due = match task.due_date {
        Some(d) => {
            let mut s = String::from_str("  due:");
            let text = date_to_text(d);
            s.append(text.as_str());
            s
        },
        None => String::new(),
    };
    let project = match &task.project {
        Some(p) => {
            let mut s = String::from_str("  #");
            s.append(p.as_str());
            s
        },
        None => String::new(),
    };
    RowTexts { check, priority, title: task.title.clone(), due, project }
}

/// The heading of a Today section: `── title (count) ──`.
pub open spec fn section_heading(title: Seq<char>, count: nat) -> Seq<char> {
    "\u{2500}\u{2500} "@ + title + " ("@ + decimal(count) + ") \u{2500}\u{2500}"@
}

/// The heading of a Today section with its task count.
pub fn section_heading_text(title: &str, count: usize) -> (r: String)
    ensures
        r@ == section_heading(title@, count as nat),
{
    let mut s = String::from_str("\u{2500}\u{2500} ");
    s.append(title);
    s.append(" (");
    let n = decimal_text(count);
    s.append(n.as_str());
    s.append(") \u{2500}\u{2500}");
    s
}

/// The header label of a list screen.
pub open spec fn spec_header_label(screen: Screen, filter: StatusFilter) -> Seq<char> {
    if screen == Screen::All {
        "enjo \u{b7} All tasks \u{b7} filter: "@ + filter.spec_label()
    } else {
        "enjo \u{b7} Today / Next"@
    }
}

/// The header label of a list screen.
pub fn header_label(screen: Screen, filter: StatusFilter) -> (r: String)
    ensures
        r@ == spec_header_label(screen, filter),
{
    if screen == Screen::All {
        let mut s = String::from_str("enjo \u{b7} All tasks \u{b7} filter: ");
        s.append(filter.label());
        s
    } else {
        String::from_str("enjo \u{b7} Today / Next")
    }
}

/// The footer status line: the view, the row count, the local-only note and
/// the transient message, if any.
pub open spec fn spec_footer_status(screen: Screen, filter: StatusFilter, count: nat, message: Option<Seq<char>>) -> Seq<char> {
    let view = if screen == Screen::All {
        "All ["@ + filter.spec_label() + "]"@
    } else {
        "Today"@
    };
    let base = " "@ + view + " \u{b7} "@ + decimal(count) + " tasks \u{b7} local-only"@;
    match message {
        Some(m) => base + " \u{b7} "@ + m,
        None => base,
    }
}

/// The footer status line of a list screen.
pub fn footer_status(screen: Screen, filter: StatusFilter, count: usize, message: Option<&str>) -> (r: String)
    ensures
        r@ == spec_footer_status(
            screen,
            filter,
            count as nat,
            match message {
                Some(m) => Some(m@),
                None => None,
            },
        ),
{
    let mut s = String::from_str(" ");
    if screen == Screen::All {
        s.append("All [");
        s.append(filter.label());
        s.append("]");
    } else {
        s.append("Today");
    }
    s.append(" \u{b7} ");
    let n = decimal_text(count);
    s.append(n.as_str());
    s.append(" tasks \u{b7} local-only");
    match message {
        Some(m) => {
            s.append(" \u{b7} ");
            s.append(m);
        },
        None => {},
    }
    s
}

/// The spaces that right-align a text of length `len` in a column of `width`.
pub open spec fn left_pad(len: nat, width: nat) -> Seq<char> {
    Seq::new(if len < width { (width - len) as nat } else { 0 }, |i: int| ' ')
}

/// One labelled line of the edit form: a `> ` marker when focused, the
/// label right-aligned to nine columns, the value, and a `_` cursor on a
/// focused text field.
pub open spec fn spec_form_line(label: Seq<char>, value: Seq<char>, focused: bool, text_field: bool) -> Seq<char> {
    (if focused {
        "> "@
    } else {
        "  "@
    }) + left_pad(label.len(), 9) + label + ": "@ + value + if focused && text_field {
        "_"@
    } else {
        Seq::empty()
    }
}

/// One labelled line of the edit form.
pub fn form_line(label: &str, value: &str, focused: bool, text_field: bool) -> (r: String)
    ensures
        r@ == spec_form_line(label@, value@, focused, text_field),
{
    let mut s = if focused {
        String::from_str("> ")
    } else {
        String::from_str("  ")
    };
    let ghost start = s@;
    let len = label.unicode_len();
    let mut k: usize = len;
    while k < 9
        invariant
            len == label@.len(),
            len <= 9 ==> len <= k <= 9,
            len > 9 ==> k == len,
            s@ == start + Seq::new((k - len) as nat, |i: int| ' '),
        decreases 9 - k,
    {
        push_char(&mut s, ' ');
        proof {
            assert(s@ =~= start + Seq::new((k + 1 - len) as nat, |i: int| ' '));
        }
        k = k + 1;
    }
    proof {
        assert(Seq::new((k - len) as nat, |i: int| ' ') =~= left_pad(label@.len(), 9));
    }
    s.append(label);
    s.append(": ");
    s.append(value);
    if focused && text_field {
        s.append("_");
    }
    proof {
        if !(focused && text_field) {
            assert(s@ =~= spec_form_line(label@, value@, focused, text_field));
        }
    }
    s
}

/// The keys column of a help line: two spaces, then the keys padded with
/// spaces to eighteen characters.
pub open spec fn spec_help_keys(keys: Seq<char>) -> Seq<char> {
    "  "@ + keys + Seq::new(if keys.len() < 18 { (18 - keys.len()) as nat } else { 0 }, |i: int| ' ')
}

/// The keys column of a help line.
pub fn help_keys_text(keys: &str) -> (r: String)
    ensures
        r@ == spec_help_keys(keys@),
{
    let mut s = String::from_str("  ");
    s.append(keys);
    let ghost start = s@;
    let len = keys.unicode_len();
    let mut k: usize = len;
    while k < 18
        invariant
            len == keys@.len(),
            len <= 18 ==> len <= k <= 18,
            len > 18 ==> k == len,
            s@ == start + Seq::new((k - len) as nat, |i: int| ' '),
        decreases 18 - k,
    {
        push_char(&mut s, ' ');
        proof {
            assert(s@ =~= start + Seq::new((k + 1 - len) as nat, |i: int| ' '));
        }
        k = k + 1;
    }
    proof {
        assert(Seq::new((k - len) as nat, |i: int| ' ') =~= Seq::new(
            if keys@.len() < 18 { (18 - keys@.len()) as nat } else { 0 },
            |i: int| ' ',
        ));
    }
    s
}

/// One line of the key-binding table on the help screen.
pub enum HelpLine {
    /// A spacer between groups of bindings.
    Blank,
    /// The keys column (see [`help_keys_text`]) and what the keys do.
    Binding { keys: String, desc: String },
}

/// The value of a [`HelpLine`].
pub enum HelpLineView {
    Blank,
    Binding { keys: Seq<char>, desc: Seq<char> },
}

impl View for HelpLine {
    type V = HelpLineView;

    open spec fn view(&self) -> HelpLineView {
        match self {
            HelpLine::Blank => HelpLineView::Blank,
            HelpLine::Binding { keys, desc } => HelpLineView::Binding { keys: keys@, desc: desc@ },
        }
    }
}

/// A binding line: the keys padded into their column, and the description.
pub open spec fn help_binding(keys: Seq<char>, desc: Seq<char>) -> HelpLineView {
    HelpLineView::Binding { keys: spec_help_keys(keys), desc: desc }
}

/// The key-binding table of the help screen: the list screens' keys, a
/// spacer, then the edit form's keys.
pub open spec fn spec_help_lines() -> Seq<HelpLineView> {
    seq![
        help_binding("j / k, ↓ / ↑"@, "move selection"@),
        help_binding("n"@, "new task"@),
        help_binding("e / Enter"@, "edit selected task"@),
        help_binding("Space"@, "toggle done"@),
        help_binding("s / S"@, "cycle status forward / backward"@),
        help_binding("p / P"@, "cycle priority forward / backward"@),
        help_binding("d"@, "soft-delete selected"@),
        help_binding("/"@, "cycle All-view status filter"@),
        help_binding("Tab"@, "switch Today ↔ All"@),
        help_binding("Ctrl-S"@, "force sync (local-only build; sync in Phase 3)"@),
        help_binding("?"@, "toggle this help"@),
        help_binding("q"@, "quit"@),
        HelpLineView::Blank,
        help_binding("In the edit form:"@, ""@),
        help_binding("Tab / Shift-Tab"@, "move between fields"@),
        help_binding("← / →"@, "cycle priority / status"@),
        help_binding("Enter / Ctrl-S"@, "save"@),
        help_binding("Esc"@, "cancel"@),
    ]
}

/// A binding line of the help screen.
fn help_line(keys: &str, desc: &str) -> (r: HelpLine)
    ensures
        r@ == help_binding(keys@, desc@),
{
    HelpLine::Binding { keys: help_keys_text(keys), desc: String::from_str(desc) }
}

/// The key-binding table of the help screen, line by line.
pub fn help_lines() -> (r: Vec<HelpLine>)
    ensures
        r@.len() == spec_help_lines().len(),
        forall|i: int| 0 <= i < r@.len() ==> (#[trigger] r@[i])@ == spec_help_lines()[i],
{
    let mut r: Vec<HelpLine> = Vec::new();
    r.push(help_line("j / k, ↓ / ↑", "move selection"));
    r.push(help_line("n", "new task"));
    r.push(help_line("e / Enter", "edit selected task"));
    r.push(help_line("Space", "toggle done"));
    r.push(help_line("s / S", "cycle status forward / backward"));
    r.push(help_line("p / P", "cycle priority forward / backward"));
    r.push(help_line("d", "soft-delete selected"));
    r.push(help_line("/", "cycle All-view status filter"));
    r.push(help_line("Tab", "switch Today ↔ All"));
    r.push(help_line("Ctrl-S", "force sync (local-only build; sync in Phase 3)"));
    r.push(help_line("?", "toggle this help"));
    r.push(help_line("q", "quit"));
    r.push(HelpLine::Blank);
    r.push(help_line("In the edit form:", ""));
    r.push(help_line("Tab / Shift-Tab", "move between fields"));
    r.push(help_line("← / →", "cycle priority / status"));
    r.push(help_line("Enter / Ctrl-S", "save"));
    r.push(help_line("Esc", "cancel"));
    r
}

/// The title of the All view's list: `All tasks [label]`.
pub fn all_list_title(filter: StatusFilter) -> (r: String)
    ensures
        r@ == "All tasks ["@ + filter.spec_label() + "]"@,
{
    let mut s = String::from_str("All tasks [");
    s.append(filter.label());
    s.append("]");
    s
}

/// One line of the Today view.
pub enum TodayLine {
    /// The placeholder shown when no section has a task.
    NoTasks,
    /// A section heading with the section's task count.
    Heading(String),
    /// The placeholder of an empty section.
    NoneYet,
    /// A task row, and whether the cursor is on it.
    Row(Task, bool),
    /// The spacer after a section.
    Blank,
}

/// The value of a [`TodayLine`].
pub enum TodayLineView {
    NoTasks,
    Heading(Seq<char>),
    NoneYet,
    Row(TaskView, bool),
    Blank,
}

impl View for TodayLine {
    type V = TodayLineView;

    open spec fn view(&self) -> TodayLineView {
        match self {
            TodayLine::NoTasks => TodayLineView::NoTasks,
            TodayLine::Heading(s) => TodayLineView::Heading(s@),
            TodayLine::NoneYet => TodayLineView::NoneYet,
            TodayLine::Row(t, b) => TodayLineView::Row(t@, *b),
            TodayLine::Blank => TodayLineView::Blank,
        }
    }
}

/// The lines of one section whose first task has flat index `start`: its
/// heading, a placeholder when empty, a row per task (marked when its flat
/// index is `selected`), and a spacer.
pub open spec fn section_lines(title: Seq<char>, tasks: Seq<TaskView>, start: int, selected: int) -> Seq<TodayLineView> {
    seq![TodayLineView::Heading(section_heading(title, tasks.len()))] + (if tasks.len() == 0 {
        seq![TodayLineView::NoneYet]
    } else {
        Seq::empty()
    }) + Seq::new(tasks.len(), |k: int| TodayLineView::Row(tasks[k], start + k == selected)) + seq![
        TodayLineView::Blank,
    ]
}

/// The lines of the Today view for its three sections.
pub open spec fn today_lines(
    titles: (Seq<char>, Seq<char>, Seq<char>),
    secs: (Seq<TaskView>, Seq<TaskView>, Seq<TaskView>),
    selected: int,
) -> Seq<TodayLineView> {
    if secs.0.len() + secs.1.len() + secs.2.len() == 0 {
        seq![TodayLineView::NoTasks]
    } else {
        section_lines(titles.0, secs.0, 0, selected) + section_lines(titles.1, secs.1, secs.0.len() as int, selected)
            + section_lines(titles.2, secs.2, (secs.0.len() + secs.1.len()) as int, selected)
    }
}

/// The laid-out Today view: its lines and the index of the line under the
/// cursor (0 when the cursor is on no task).
pub struct TodayLayout {
    pub lines: Vec<TodayLine>,
    pub selected_line: usize,
}

/// The views of a vector of lines.
pub open spec fn line_views(v: Seq<TodayLine>) -> Seq<TodayLineView> {
    v.map_values(|l: TodayLine| l@)
}

fn push_section(
    lines: &mut Vec<TodayLine>,
    selected_line: &mut usize,
    section: &TodaySection,
    start: usize,
    selected: usize,
)
    requires
        start + section.tasks@.len() <= usize::MAX,
        old(lines)@.len() + section.tasks@.len() + 3 <= usize::MAX,
    ensures
        line_views(final(lines)@) == line_views(old(lines)@) + section_lines(
            section.title@,
            views(section.tasks@),
            start as int,
            selected as int,
        ),
        final(lines)@.len() <= old(lines)@.len() + section.tasks@.len() + 3,
        (start <= selected < start + section.tasks@.len()) ==> (*final(selected_line) < final(lines)@.len()
            && line_views(final(lines)@)[*final(selected_line) as int] matches TodayLineView::Row(_, true)),
        !(start <= selected < start + section.tasks@.len()) ==> *final(selected_line) == *old(selected_line),
{
    let ghost base = line_views(lines@);
    let ghost tv = views(section.tasks@);
    let n = section.tasks.len();
    let heading = section_heading_text(section.title, n);
    let ghost hv = heading@;
    lines.push(TodayLine::Heading(heading));
    if n == 0 {
        lines.push(TodayLine::NoneYet);
    }
    let ghost head = line_views(lines@);
    proof {
        let extra = if n == 0 {
            seq![TodayLineView::NoneYet]
        } else {
            Seq::<TodayLineView>::empty()
        };
        assert(head =~= base + seq![TodayLineView::Heading(hv)] + extra);
    }
    let mut i: usize = 0;
    while i < n
        invariant
            n == section.tasks@.len(),
            tv == views(section.tasks@),
            i <= n,
            start + n <= usize::MAX,
            head.len() == lines@.len() - i,
            head.len() + n + 1 <= usize::MAX,
            line_views(lines@) == head + Seq::new(i as nat, |k: int| TodayLineView::Row(tv[k], start + k == selected)),
            (start <= selected < start + i) ==> (*selected_line < lines@.len()
                && line_views(lines@)[*selected_line as int] matches TodayLineView::Row(_, true)),
            !(start <= selected < start + i) ==> *selected_line == *old(selected_line),
        decreases n - i,
    {
        let is_selected = start + i == selected;
        if is_selected {
            *selected_line = lines.len();
        }
        let t = section.tasks[i].clone();
        let ghost prev = lines@;
        lines.push(TodayLine::Row(t, is_selected));
        proof {
            assert(lines@ == prev.push(TodayLine::Row(t, is_selected)));
            assert(line_views(lines@) =~= line_views(prev).push(TodayLineView::Row(tv[i as int], start + i == selected)));
            assert(line_views(lines@) =~= head + Seq::new((i + 1) as nat, |k: int| TodayLineView::Row(tv[k], start + k == selected)));
        }
        i = i + 1;
    }
    let ghost before_blank = lines@;
    lines.push(TodayLine::Blank);
    proof {
        assert(line_views(lines@) =~= line_views(before_blank).push(TodayLineView::Blank));
        assert(line_views(lines@) =~= base + section_lines(section.title@, tv, start as int, selected as int));
    }
}

/// Lay out the Today view: when no section has a task, a single
/// placeholder; else each section's heading, a placeholder for an empty
/// section, its rows with the cursor's row marked, and a spacer. The
/// selected line is the marked row, or 0 when the cursor is on no task.
pub fn today_layout(sections: &Vec<TodaySection>, selected: usize) -> (r: TodayLayout)
    requires
        sections@.len() == 3,
        sections@[0].tasks@.len() + sections@[1].tasks@.len() + sections@[2].tasks@.len() + 12 <= usize::MAX,
    ensures
        line_views(r.lines@) == today_lines(
            (sections@[0].title@, sections@[1].title@, sections@[2].title@),
            (views(sections@[0].tasks@), views(sections@[1].tasks@), views(sections@[2].tasks@)),
            selected as int,
        ),
        (selected < sections@[0].tasks@.len() + sections@[1].tasks@.len() + sections@[2].tasks@.len()) ==> (
        r.selected_line < r.lines@.len() && line_views(r.lines@)[r.selected_line as int] matches TodayLineView::Row(
            _,
            true,
        )),
        !(selected < sections@[0].tasks@.len() + sections@[1].tasks@.len() + sections@[2].tasks@.len())
            ==> r.selected_line == 0,
{
    let n0 = sections[0].tasks.len();
    let n1 = sections[1].tasks.len();
    let n2 = sections[2].tasks.len();
    let mut lines: Vec<TodayLine> = Vec::new();
    let mut selected_line: usize = 0;
    if n0 + n1 + n2 == 0 {
        lines.push(TodayLine::NoTasks);
        proof {
            assert(line_views(lines@) =~= seq![TodayLineView::NoTasks]);
        }
        return TodayLayout { lines, selected_line };
    }
    push_section(&mut lines, &mut selected_line, &sections[0], 0, selected);
    let ghost l0 = line_views(lines@);
    proof {
        if selected < n0 {
            assert(selected_line < l0.len() && l0[selected_line as int] matches TodayLineView::Row(_, true));
        }
    }
    push_section(&mut lines, &mut selected_line, &sections[1], n0, selected);
    let ghost l1 = line_views(lines@);
    proof {
        if selected < n0 {
            assert(l1[selected_line as int] == l0[selected_line as int]);
        }
        if selected < n0 + n1 {
            assert(selected_line < l1.len() && l1[selected_line as int] matches TodayLineView::Row(_, true));
        }
    }
    push_section(&mut lines, &mut selected_line, &sections[2], n0 + n1, selected);
    proof {
        if selected < n0 + n1 {
            assert(line_views(lines@)[selected_line as int] == l1[selected_line as int]);
        }
    }
    TodayLayout { lines, selected_line }
}

} // verus!
