//! What a command does, from the rows of the table to the lines it prints.
//!
//! A command either finishes at once, or asks for writes to the table one at
//! a time: `begin_command` gives the first step, and `resume`, told how the
//! write went, gives the next. The caller carries out each write and prints the
//! report at the end.
use vstd::prelude::*;
use crate::cli::{Commands, CommandsView};
use crate::dates::{
    date_text_ok, day_of, format_date, shift_days, shifted_date, unix_now, utc_day, valid_date,
    CalendarDate,
};
use crate::db::{
    apply, apply_change, change_sql, change_statement, check_for_redundancy,
    check_task_exists_by_id, create_task, date_format_message, due_choice_message,
    duplicate_message, get_all_tasks, get_deleted_tasks, get_due_tasks, get_stats,
    get_tasks_by_priority, get_tasks_by_status, has_id, listing_view, purge_result, purge_task,
    query_result, repeats, restore_task, search_by_string, search_pattern, show_task_by_id,
    soft_delete_task, stats_of, status_update, task_with_id, update_result, update_status,
    update_task_by_id, validate_date_format, Change, ChangeView, NewRowView, QueryView, Statement,
    changes_view,
};
use crate::models::{
    display_text, opt_view, rows_view, tasks_view, DbError, DbErrorView, PriorityOrder, RawRow,
    RowView, Task, TaskError, TaskErrorView, TaskStatus, TaskView,
};
use crate::seed::{
    day_text, offsets_ok, sample_dates_at, sample_days_exist, sample_offsets, seed_changes, seed_database,
    seed_dates, SeedDates, SeedDatesView,
};
use crate::text::{blank, decimal, decimal_string, is_blank, join, join_words, views};

verus! {

/// The days a command may need, written `dd/mm/yyyy`: today and tomorrow in
/// UTC, and the days of the sample tasks in local time. A day that leaves the
/// calendar's range is missing.
pub struct Clock {
    pub today: String,
    pub tomorrow: Option<String>,
    pub seed: Option<SeedDates>,
}

pub struct ClockView {
    pub today: Seq<char>,
    pub tomorrow: Option<Seq<char>>,
    pub seed: Option<SeedDatesView>,
}

impl View for Clock {
    type V = ClockView;

    open spec fn view(&self) -> ClockView {
        ClockView {
            today: self.today@,
            tomorrow: opt_view(self.tomorrow),
            seed: match self.seed {
                Some(d) => Some(d@),
                None => None,
            },
        }
    }
}

/// The days of a clock read at the instant `now` (seconds since the start of
/// 1970), where local time is `offs` ahead of UTC at the instants of the
/// sample dates: today in UTC, tomorrow where it exists, and the sample dates
/// as local days, each written `dd/mm/yyyy` (for the years 0 to 9999).
pub open spec fn clock_of(c: ClockView, now: int, offs: Seq<i32>) -> bool {
    &&& utc_day(now) is Some
    &&& day_text(c.today, utc_day(now)->Some_0)
    &&& (c.tomorrow is Some <==> shifted_date(utc_day(now)->Some_0, 1) is Some)
    &&& (c.tomorrow matches Some(t) ==> day_text(t, shifted_date(utc_day(now)->Some_0, 1)->Some_0))
    &&& offsets_ok(offs)
    &&& (c.seed is Some <==> sample_days_exist(now, offs))
    &&& (c.seed matches Some(sd) ==> sample_dates_at(sd, now, offs))
}

/// Reads the system clock for the days a command may need.
pub fn read_clock() -> (c: Clock)
    ensures
        exists|now: int, offs: Seq<i32>| #[trigger] clock_of(c@, now, offs),
{
    let now = unix_now();
    let today = match day_of(now) {
        Some(d) => d,
        None => CalendarDate { year: 1970, month: 1, day: 1 },
    };
    proof {
        crate::dates::lemma_shift_valid(today, 1);
    }
    let tomorrow = match shift_days(today, 1) {
        Some(d) => Some(format_date(d)),
        None => None,
    };
    let offs = sample_offsets(now);
    let c = Clock { today: format_date(today), tomorrow, seed: seed_dates(now, &offs) };
    proof {
        assert(clock_of(c@, now as int, offs@));
    }
    c
}

/// What the caller does besides printing.
#[derive(Clone, Copy, Debug, PartialEq, Eq, Structural)]
pub enum Effect {
    Nothing,
    ShowHelp,
    ClearScreen,
    Quit,
}

/// The outcome of a command: the lines to print, the result, and what
/// else to do.
#[derive(Debug)]
pub struct Report {
    pub lines: Vec<String>,
    pub result: Result<(), TaskError>,
    pub effect: Effect,
}

pub struct ReportView {
    pub lines: Seq<Seq<char>>,
    pub result: Result<(), TaskErrorView>,
    pub effect: Effect,
}

impl View for Report {
    type V = ReportView;

    open spec fn view(&self) -> ReportView {
        ReportView {
            lines: views(self.lines@),
            result: match self.result {
                Ok(()) => Ok(()),
                Err(e) => Err(e@),
            },
            effect: self.effect,
        }
    }
}

/// What a command prints once its writes are done.
pub enum Followup {
    /// The task just inserted, after a prefix.
    ShowInserted(String),
    /// The task with an id, after a prefix.
    ShowTask { id: u64, prefix: String },
    /// Fixed lines.
    Say(Vec<String>),
}

pub enum FollowupView {
    ShowInserted(Seq<char>),
    ShowTask { id: u64, prefix: Seq<char> },
    Say(Seq<Seq<char>>),
}

impl View for Followup {
    type V = FollowupView;

    open spec fn view(&self) -> FollowupView {
        match self {
            Followup::ShowInserted(p) => FollowupView::ShowInserted(p@),
            Followup::ShowTask { id, prefix } => FollowupView::ShowTask { id: *id, prefix: prefix@ },
            Followup::Say(lines) => FollowupView::Say(views(lines@)),
        }
    }
}

/// What a command does: finish at once, or write and follow up.
pub enum PlanView {
    Done(ReportView),
    Writes(Seq<ChangeView>, FollowupView),
}

/// What a command does: finish at once, or write and follow up.
pub enum Plan {
    Done(Report),
    Writes(Vec<Change>, Followup),
}

impl View for Plan {
    type V = PlanView;

    open spec fn view(&self) -> PlanView {
        match self {
            Plan::Done(r) => PlanView::Done(r@),
            Plan::Writes(cs, f) => PlanView::Writes(changes_view(cs@), f@),
        }
    }
}

/// A command between two writes.
pub struct Session {
    rows: Vec<RawRow>,
    changes: Vec<Change>,
    at: usize,
    after: Followup,
}

pub struct SessionView {
    /// The rows as they stand after the writes done so far.
    pub rows: Seq<RowView>,
    /// The writes still to do; the first is under way.
    pub remaining: Seq<ChangeView>,
    pub after: FollowupView,
}

impl Session {
    #[verifier::type_invariant]
    spec fn wf(self) -> bool {
        self.at <= self.changes@.len()
    }

    pub closed spec fn view(self) -> SessionView {
        SessionView {
            rows: rows_view(self.rows@),
            remaining: changes_view(self.changes@).skip(self.at as int),
            after: self.after@,
        }
    }
}

/// A step of a command.
pub enum Step {
    /// Carry out the statement and `resume` the session with the reply.
    Write(Session, Statement),
    /// The command is over.
    Finished(Report),
}

/// How a write went.
pub enum Reply {
    /// It was carried out; the id is that of the row last inserted.
    Written(u64),
    /// It failed.
    Failed(DbError),
}

pub open spec fn fail(e: TaskErrorView) -> ReportView {
    ReportView { lines: Seq::empty(), result: Err(e), effect: Effect::Nothing }
}

pub open spec fn say(lines: Seq<Seq<char>>) -> ReportView {
    ReportView { lines, result: Ok(()), effect: Effect::Nothing }
}

/// A task shown on one line after a prefix.
pub open spec fn show_report(r: Result<TaskView, TaskErrorView>, prefix: Seq<char>) -> ReportView {
    match r {
        Ok(t) => say(seq![prefix + display_text(t)]),
        Err(e) => fail(e),
    }
}

/// Tasks shown one per line, numbered from 1.
pub open spec fn numbered(ts: Seq<TaskView>) -> Seq<Seq<char>> {
    Seq::new(ts.len(), |i: int| decimal((i + 1) as nat) + ". "@ + display_text(ts[i]))
}

/// A listing printed; an empty one fails with a message.
pub open spec fn listing_report(r: Result<Seq<TaskView>, TaskErrorView>, none: Seq<char>) -> ReportView {
    match r {
        Ok(ts) => if ts.len() == 0 {
            fail(TaskErrorView::NoTaskFound(none))
        } else {
            say(numbered(ts))
        },
        Err(e) => fail(e),
    }
}

/// What `list` selects: completed or ongoing tasks, else tasks of the first
/// priority asked, else deleted tasks (every task with `all`), else all tasks
/// not deleted, and without flags the ongoing tasks not deleted.
pub open spec fn list_result(
    rows: Seq<RowView>,
    all: bool,
    completed: bool,
    ongoing: bool,
    low: bool,
    medium: bool,
    high: bool,
    deleted: bool,
) -> Result<Seq<TaskView>, TaskErrorView> {
    if completed {
        query_result(rows, QueryView::Status { status: TaskStatus::Completed, include_deleted: all })
    } else if ongoing {
        query_result(rows, QueryView::Status { status: TaskStatus::Ongoing, include_deleted: all })
    } else if low {
        query_result(rows, QueryView::Priority { priority: PriorityOrder::Low, include_deleted: all })
    } else if medium {
        query_result(rows, QueryView::Priority { priority: PriorityOrder::Medium, include_deleted: all })
    } else if high {
        query_result(rows, QueryView::Priority { priority: PriorityOrder::High, include_deleted: all })
    } else if deleted {
        query_result(
            rows,
            if all {
                QueryView::Everything
            } else {
                QueryView::Deleted
            },
        )
    } else if all {
        query_result(rows, QueryView::NotDeleted)
    } else {
        query_result(rows, QueryView::Status { status: TaskStatus::Ongoing, include_deleted: false })
    }
}

pub open spec fn title_message() -> Seq<char> {
    "Task title cannot be empty"@
}

pub open spec fn search_message() -> Seq<char> {
    "Search query cannot be empty"@
}

pub open spec fn seed_dates_message() -> Seq<char> {
    "Sample dates are out of range"@
}

pub open spec fn words_opt(o: Option<Seq<Seq<char>>>) -> Option<Seq<char>> {
    match o {
        Some(w) => Some(join(w, " "@)),
        None => None,
    }
}

/// `add`: a title that is not blank, a due date in `dd/mm/yyyy` if any, and
/// neither the title nor the notes of a task already in the table; if so the
/// insert of an ongoing task created today, shown once inserted.
pub open spec fn add_plan(
    rows: Seq<RowView>,
    title: Seq<Seq<char>>,
    priority: Option<PriorityOrder>,
    due: Option<Seq<char>>,
    notes: Option<Seq<Seq<char>>>,
    today: Seq<char>,
) -> PlanView {
    let name = join(title, " "@);
    let extras = words_opt(notes);
    if blank(name) {
        PlanView::Done(fail(TaskErrorView::InvalidInput(title_message())))
    } else if due matches Some(d) && !date_text_ok(d) {
        PlanView::Done(fail(TaskErrorView::InvalidDateFormat(date_format_message())))
    } else if exists|j: int|
        0 <= j < rows.len() && #[trigger] repeats(
            rows[j],
            TaskView {
                id: 0,
                title: name,
                status: TaskStatus::Ongoing,
                created_at: Seq::empty(),
                updated_at: None,
                completed_at: None,
                deleted_at: None,
                due_at: due,
                priority,
                notes: extras,
            },
        ) {
        PlanView::Done(fail(TaskErrorView::DuplicateTask(duplicate_message())))
    } else {
        PlanView::Writes(
            seq![
                ChangeView::Insert(
                    NewRowView {
                        title: name,
                        status: TaskStatus::Ongoing,
                        created_at: today,
                        completed_at: None,
                        deleted_at: None,
                        due_at: due,
                        priority,
                        notes: extras,
                    },
                ),
            ],
            FollowupView::ShowInserted("Task added successfully: "@),
        )
    }
}

/// `update`: a task that exists, a title that is not blank if given, a due
/// date in `dd/mm/yyyy` if given, and at least one field; if so the update,
/// and the task shown.
pub open spec fn update_plan(
    rows: Seq<RowView>,
    id: u64,
    title: Option<Seq<Seq<char>>>,
    due: Option<Seq<char>>,
    priority: Option<PriorityOrder>,
    notes: Option<Seq<Seq<char>>>,
    today: Seq<char>,
) -> PlanView {
    let new_title = words_opt(title);
    let new_notes = words_opt(notes);
    if !has_id(rows, id) {
        PlanView::Done(fail(TaskErrorView::DatabaseError(DbErrorView::QueryReturnedNoRows)))
    } else if new_title matches Some(t) && blank(t) {
        PlanView::Done(fail(TaskErrorView::InvalidInput(title_message())))
    } else if due matches Some(d) && !date_text_ok(d) {
        PlanView::Done(fail(TaskErrorView::InvalidDateFormat(date_format_message())))
    } else {
        match update_result(id, new_title, due, priority, new_notes, today) {
            Ok(c) => PlanView::Writes(
                seq![c],
                FollowupView::ShowTask { id, prefix: "Update Successful! Task: "@ },
            ),
            Err(e) => PlanView::Done(fail(e)),
        }
    }
}

/// A write to a task that must exist, followed up as given.
pub open spec fn write_existing(rows: Seq<RowView>, id: u64, c: ChangeView, after: FollowupView) -> PlanView {
    if has_id(rows, id) {
        PlanView::Writes(seq![c], after)
    } else {
        PlanView::Done(fail(TaskErrorView::DatabaseError(DbErrorView::QueryReturnedNoRows)))
    }
}

/// The six lines of the statistics.
pub open spec fn stats_lines(v: Seq<nat>) -> Seq<Seq<char>> {
    seq![
        "Total: "@ + decimal(v[0]),
        "Ongoing: "@ + decimal(v[1]),
        "Completed: "@ + decimal(v[2]),
        "High priority: "@ + decimal(v[3]),
        "Medium priority: "@ + decimal(v[4]),
        "Low priority: "@ + decimal(v[5]),
    ]
}

/// What each command does with the rows of the table and the days of the
/// clock.
pub open spec fn plan(rows: Seq<RowView>, cmd: CommandsView, clock: ClockView) -> PlanView {
    match cmd {
        CommandsView::Add { title, priority, due, notes } => add_plan(
            rows,
            title,
            priority,
            due,
            notes,
            clock.today,
        ),
        CommandsView::Show { id } => PlanView::Done(show_report(task_with_id(rows, id), Seq::empty())),
        CommandsView::List { all, completed, ongoing, low, medium, high, deleted } => PlanView::Done(
            listing_report(
                list_result(rows, all, completed, ongoing, low, medium, high, deleted),
                "No task found"@,
            ),
        ),
        CommandsView::Done { id } => write_existing(
            rows,
            id,
            ChangeView::Update { id, assignments: status_update(TaskStatus::Completed, clock.today) },
            FollowupView::ShowTask { id, prefix: "Updated Task: "@ },
        ),
        CommandsView::Reopen { id } => write_existing(
            rows,
            id,
            ChangeView::Update { id, assignments: status_update(TaskStatus::Ongoing, clock.today) },
            FollowupView::ShowTask { id, prefix: "Updated Task: "@ },
        ),
        CommandsView::Delete { id } => write_existing(
            rows,
            id,
            crate::db::soft_delete_view(id, clock.today),
            FollowupView::Say(seq!["Task deleted successfully"@]),
        ),
        CommandsView::Restore { id } => write_existing(
            rows,
            id,
            crate::db::restore_view(id, clock.today),
            FollowupView::ShowTask { id, prefix: "Restored Task: "@ },
        ),
        CommandsView::Purge { id, all } => match purge_result(rows, id, all) {
            Ok(c) => PlanView::Writes(seq![c], FollowupView::Say(seq!["Task(s) permanently deleted"@])),
            Err(e) => PlanView::Done(fail(e)),
        },
        CommandsView::Due { today, tomorrow } => PlanView::Done(
            listing_report(
                if today || tomorrow {
                    query_result(
                        rows,
                        QueryView::Due {
                            today: if today {
                                Some(clock.today)
                            } else {
                                None
                            },
                            tomorrow: if tomorrow {
                                clock.tomorrow
                            } else {
                                None
                            },
                        },
                    )
                } else {
                    Err(TaskErrorView::InvalidInput(due_choice_message()))
                },
                "No tasks found with the given due date"@,
            ),
        ),
        CommandsView::Update { id, title, due, priority, notes } => update_plan(
            rows,
            id,
            title,
            due,
            priority,
            notes,
            clock.today,
        ),
        CommandsView::Search { search_string } => {
            let key = join(search_string, " "@);
            if blank(key) {
                PlanView::Done(fail(TaskErrorView::InvalidInput(search_message())))
            } else {
                PlanView::Done(
                    listing_report(
                        query_result(rows, QueryView::Like { pattern: search_pattern(key) }),
                        "No tasks found"@,
                    ),
                )
            }
        },
        CommandsView::Seed { reset } => match clock.seed {
            Some(d) => PlanView::Writes(
                seed_changes(reset, d),
                FollowupView::Say(
                    seq!["Successfully seeded database with 18 mock tasks!"@, "Seed complete."@],
                ),
            ),
            None => PlanView::Done(fail(TaskErrorView::InvalidInput(seed_dates_message()))),
        },
        CommandsView::Stats => PlanView::Done(say(stats_lines(stats_of(rows)))),
        CommandsView::Help => PlanView::Done(
            ReportView { lines: Seq::empty(), result: Ok(()), effect: Effect::ShowHelp },
        ),
        CommandsView::Clear => PlanView::Done(
            ReportView { lines: Seq::empty(), result: Ok(()), effect: Effect::ClearScreen },
        ),
        CommandsView::Exit => PlanView::Done(
            ReportView { lines: seq!["Bye Bye...👋"@], result: Ok(()), effect: Effect::Quit },
        ),
    }
}

/// What a command prints once its writes are done; `last_id` is the id of
/// the row last inserted.
pub open spec fn finish(rows: Seq<RowView>, after: FollowupView, last_id: u64) -> ReportView {
    match after {
        FollowupView::ShowInserted(p) => show_report(task_with_id(rows, last_id), p),
        FollowupView::ShowTask { id, prefix } => show_report(task_with_id(rows, id), prefix),
        FollowupView::Say(lines) => say(lines),
    }
}

fn text(s: &str) -> (r: String)
    ensures
        r@ == s@,
{
    String::from_str(s)
}

fn fail_report(e: TaskError) -> (r: Report)
    ensures
        r@ == fail(e@),
{
    let r = Report { lines: Vec::new(), result: Err(e), effect: Effect::Nothing };
    proof {
        assert(r@.lines =~= Seq::<Seq<char>>::empty());
    }
    r
}

fn say_report(lines: Vec<String>) -> (r: Report)
    ensures
        r@ == say(views(lines@)),
{
    Report { lines, result: Ok(()), effect: Effect::Nothing }
}

fn one_line(s: String) -> (v: Vec<String>)
    ensures
        views(v@) == seq![s@],
{
    let mut v: Vec<String> = Vec::new();
    v.push(s);
    proof {
        assert(views(v@) =~= seq![s@]);
    }
    v
}

fn two_lines(a: String, b: String) -> (v: Vec<String>)
    ensures
        views(v@) == seq![a@, b@],
{
    let mut v: Vec<String> = Vec::new();
    v.push(a);
    v.push(b);
    proof {
        assert(views(v@) =~= seq![a@, b@]);
    }
    v
}

fn show_task_report(r: Result<Task, TaskError>, prefix: &str) -> (rep: Report)
    ensures
        rep@ == show_report(crate::db::task_result_view(r), prefix@),
{
    match r {
        Ok(t) => {
            let mut line = text(prefix);
            let shown = t.display();
            line.append(shown.as_str());
            say_report(one_line(line))
        },
        Err(e) => fail_report(e),
    }
}

/// The lines of a listing: `1. ` and the first task, `2. ` and the second...
pub fn numbered_lines(tasks: &Vec<Task>) -> (v: Vec<String>)
    ensures
        views(v@) == numbered(tasks_view(tasks@)),
{
    let n = tasks.len();
    let mut v: Vec<String> = Vec::new();
    let mut i: usize = 0;
    while i < n
        invariant
            n == tasks@.len(),
            i <= n,
            views(v@) == numbered(tasks_view(tasks@)).take(i as int),
        decreases n - i,
    {
        let mut line = decimal_string(i as u64 + 1);
        line.append(". ");
        let shown = tasks[i].display();
        line.append(shown.as_str());
        let ghost before = v@;
        v.push(line);
        proof {
            assert(views(v@) =~= views(before).push(line@));
            assert(numbered(tasks_view(tasks@)).take(i + 1) =~= numbered(tasks_view(tasks@)).take(
                i as int,
            ).push(line@));
        }
        i = i + 1;
    }
    proof {
        assert(numbered(tasks_view(tasks@)).take(n as int) =~= numbered(tasks_view(tasks@)));
    }
    v
}

fn listing(r: Result<Vec<Task>, TaskError>, none: &str) -> (rep: Report)
    ensures
        rep@ == listing_report(listing_view(r), none@),
{
    match r {
        Ok(tasks) => {
            if tasks.len() == 0 {
                fail_report(TaskError::NoTaskFound(text(none)))
            } else {
                say_report(numbered_lines(&tasks))
            }
        },
        Err(e) => fail_report(e),
    }
}

fn joined(words: Option<Vec<String>>) -> (r: Option<String>)
    ensures
        opt_view(r) == words_opt(crate::cli::opt_words(words)),
{
    match words {
        Some(w) => Some(join_words(&w, " ")),
        None => None,
    }
}

fn single(c: Change) -> (v: Vec<Change>)
    ensures
        changes_view(v@) == seq![c@],
{
    let mut v: Vec<Change> = Vec::new();
    v.push(c);
    proof {
        assert(changes_view(v@) =~= seq![c@]);
    }
    v
}

fn plan_add(
    rows: &Vec<RawRow>,
    title: Vec<String>,
    priority: Option<PriorityOrder>,
    due: Option<String>,
    notes: Option<Vec<String>>,
    today: &String,
) -> (p: Plan)
    ensures
        p@ == add_plan(
            rows_view(rows@),
            views(title@),
            priority,
            opt_view(due),
            crate::cli::opt_words(notes),
            today@,
        ),
{
    let name = join_words(&title, " ");
    if is_blank(name.as_str()) {
        return Plan::Done(fail_report(TaskError::InvalidInput(text("Task title cannot be empty"))));
    }
    let extras = joined(notes);
    match &due {
        Some(d) => match validate_date_format(d.as_str()) {
            Ok(()) => {},
            Err(e) => {
                return Plan::Done(fail_report(e));
            },
        },
        None => {},
    }
    let task = Task {
        id: 0,
        title: name,
        status: TaskStatus::Ongoing,
        created_at: String::new(),
        updated_at: None,
        completed_at: None,
        deleted_at: None,
        due_at: due,
        priority,
        notes: extras,
    };
    match check_for_redundancy(rows, &task) {
        Ok(()) => {},
        Err(e) => {
            return Plan::Done(fail_report(e));
        },
    }
    let change = create_task(&task, today.as_str());
    Plan::Writes(single(change), Followup::ShowInserted(text("Task added successfully: ")))
}

fn plan_update(
    rows: &Vec<RawRow>,
    id: u64,
    title: Option<Vec<String>>,
    due: Option<String>,
    priority: Option<PriorityOrder>,
    notes: Option<Vec<String>>,
    today: &String,
) -> (p: Plan)
    ensures
        p@ == update_plan(
            rows_view(rows@),
            id,
            crate::cli::opt_words(title),
            opt_view(due),
            priority,
            crate::cli::opt_words(notes),
            today@,
        ),
{
    match check_task_exists_by_id(rows, id) {
        Ok(()) => {},
        Err(e) => {
            return Plan::Done(fail_report(e));
        },
    }
    let new_title = joined(title);
    match &new_title {
        Some(t) => {
            if is_blank(t.as_str()) {
                return Plan::Done(
                    fail_report(TaskError::InvalidInput(text("Task title cannot be empty"))),
                );
            }
        },
        None => {},
    }
    let new_notes = joined(notes);
    match &due {
        Some(d) => match validate_date_format(d.as_str()) {
            Ok(()) => {},
            Err(e) => {
                return Plan::Done(fail_report(e));
            },
        },
        None => {},
    }
    match update_task_by_id(id, new_title, due, priority, new_notes, today.as_str()) {
        Ok(c) => Plan::Writes(
            single(c),
            Followup::ShowTask { id, prefix: text("Update Successful! Task: ") },
        ),
        Err(e) => Plan::Done(fail_report(e)),
    }
}

fn plan_list(
    rows: &Vec<RawRow>,
    all: bool,
    completed: bool,
    ongoing: bool,
    low: bool,
    medium: bool,
    high: bool,
    deleted: bool,
) -> (rep: Report)
    ensures
        rep@ == listing_report(
            list_result(rows_view(rows@), all, completed, ongoing, low, medium, high, deleted),
            "No task found"@,
        ),
{
    let found = if completed || ongoing {
        get_tasks_by_status(rows, all, completed, ongoing)
    } else if low || medium || high {
        get_tasks_by_priority(rows, low, medium, high, all)
    } else if deleted {
        get_deleted_tasks(rows, all)
    } else if all {
        get_all_tasks(rows)
    } else {
        get_tasks_by_status(rows, false, false, true)
    };
    listing(found, "No task found")
}

fn write_if_exists(rows: &Vec<RawRow>, id: u64, c: Change, after: Followup) -> (p: Plan)
    ensures
        p@ == write_existing(rows_view(rows@), id, c@, after@),
{
    match check_task_exists_by_id(rows, id) {
        Ok(()) => Plan::Writes(single(c), after),
        Err(e) => Plan::Done(fail_report(e)),
    }
}

fn stats_report(rows: &Vec<RawRow>) -> (rep: Report)
    ensures
        rep@ == say(stats_lines(stats_of(rows_view(rows@)))),
{
    match get_stats(rows) {
        Ok(v) => {
            let mut lines: Vec<String> = Vec::new();
            let mut total = text("Total: ");
            total.append(decimal_string(v[0]).as_str());
            lines.push(total);
            let mut ongoing = text("Ongoing: ");
            ongoing.append(decimal_string(v[1]).as_str());
            lines.push(ongoing);
            let mut completed = text("Completed: ");
            completed.append(decimal_string(v[2]).as_str());
            lines.push(completed);
            let mut high = text("High priority: ");
            high.append(decimal_string(v[3]).as_str());
            lines.push(high);
            let mut medium = text("Medium priority: ");
            medium.append(decimal_string(v[4]).as_str());
            lines.push(medium);
            let mut low = text("Low priority: ");
            low.append(decimal_string(v[5]).as_str());
            lines.push(low);
            proof {
                let st = stats_of(rows_view(rows@));
                assert(views(lines@) =~= stats_lines(st));
            }
            say_report(lines)
        },
        Err(e) => fail_report(e),
    }
}

/// The plan of a command.
pub fn plan_command(rows: &Vec<RawRow>, command: Commands, clock: &Clock) -> (p: Plan)
    ensures
        p@ == plan(rows_view(rows@), command@, clock@),
{
    match command {
        Commands::Add { title, priority, due, notes } => plan_add(
            rows,
            title,
            priority,
            due,
            notes,
            &clock.today,
        ),
        Commands::Show { id } => {
            proof {
                reveal_strlit("");
            }
            Plan::Done(show_task_report(show_task_by_id(rows, id), ""))
        },
        Commands::List { all, completed, ongoing, low, medium, high, deleted } => Plan::Done(
            plan_list(rows, all, completed, ongoing, low, medium, high, deleted),
        ),
        Commands::Done { id } => write_if_exists(
            rows,
            id,
            update_status(id, TaskStatus::Completed, clock.today.as_str()),
            Followup::ShowTask { id, prefix: text("Updated Task: ") },
        ),
        Commands::Reopen { id } => write_if_exists(
            rows,
            id,
            update_status(id, TaskStatus::Ongoing, clock.today.as_str()),
            Followup::ShowTask { id, prefix: text("Updated Task: ") },
        ),
        Commands::Delete { id } => write_if_exists(
            rows,
            id,
            soft_delete_task(id, clock.today.as_str()),
            Followup::Say(one_line(text("Task deleted successfully"))),
        ),
        Commands::Restore { id } => write_if_exists(
            rows,
            id,
            restore_task(id, clock.today.as_str()),
            Followup::ShowTask { id, prefix: text("Restored Task: ") },
        ),
        Commands::Purge { id, all } => match purge_task(rows, id, all) {
            Ok(c) => Plan::Writes(
                single(c),
                Followup::Say(one_line(text("Task(s) permanently deleted"))),
            ),
            Err(e) => Plan::Done(fail_report(e)),
        },
        Commands::Due { today, tomorrow } => {
            let today_date = Some(clock.today.clone());
            let found = get_due_tasks(rows, today, tomorrow, &today_date, &clock.tomorrow);
            Plan::Done(listing(found, "No tasks found with the given due date"))
        },
        Commands::Update { id, title, due, priority, notes } => plan_update(
            rows,
            id,
            title,
            due,
            priority,
            notes,
            &clock.today,
        ),
        Commands::Search { search_string } => {
            let key = join_words(&search_string, " ");
            if is_blank(key.as_str()) {
                Plan::Done(fail_report(TaskError::InvalidInput(text("Search query cannot be empty"))))
            } else {
                Plan::Done(listing(search_by_string(rows, key.as_str()), "No tasks found"))
            }
        },
        Commands::Seed { reset } => match &clock.seed {
            Some(d) => Plan::Writes(
                seed_database(reset, d),
                Followup::Say(
                    two_lines(
                        text("Successfully seeded database with 18 mock tasks!"),
                        text("Seed complete."),
                    ),
                ),
            ),
            None => Plan::Done(fail_report(TaskError::InvalidInput(text("Sample dates are out of range")))),
        },
        Commands::Stats {  } => Plan::Done(stats_report(rows)),
        Commands::Help {  } => {
            let r = Report { lines: Vec::new(), result: Ok(()), effect: Effect::ShowHelp };
            proof {
                assert(r@.lines =~= Seq::<Seq<char>>::empty());
            }
            Plan::Done(r)
        },
        Commands::Clear {  } => {
            let r = Report { lines: Vec::new(), result: Ok(()), effect: Effect::ClearScreen };
            proof {
                assert(r@.lines =~= Seq::<Seq<char>>::empty());
            }
            Plan::Done(r)
        },
        Commands::Exit {  } => Plan::Done(
            Report { lines: one_line(text("Bye Bye...👋")), result: Ok(()), effect: Effect::Quit },
        ),
    }
}

proof fn lemma_planned_writes_exist(rows: Seq<RowView>, cmd: CommandsView, clock: ClockView)
    ensures
        plan(rows, cmd, clock) matches PlanView::Writes(cs, _) ==> cs.len() > 0,
{
    match cmd {
        CommandsView::Seed { reset } => {
            if let Some(d) = clock.seed {
                let rs = crate::seed::seed_rows(d).map_values(|r: NewRowView| ChangeView::Insert(r));
                assert(rs.len() == 18);
                let head = if reset {
                    seq![ChangeView::DeleteAll]
                } else {
                    Seq::<ChangeView>::empty()
                };
                assert((head + rs).len() == head.len() + 18);
            }
        },
        _ => {},
    }
}

/// What a command prints once its writes are done; `last_id` is the id of
/// the row last inserted.
fn finish_report(rows: &Vec<RawRow>, after: Followup, last_id: u64) -> (rep: Report)
    ensures
        rep@ == finish(rows_view(rows@), after@, last_id),
{
    match after {
        Followup::ShowInserted(prefix) => show_task_report(
            show_task_by_id(rows, last_id),
            prefix.as_str(),
        ),
        Followup::ShowTask { id, prefix } => show_task_report(
            show_task_by_id(rows, id),
            prefix.as_str(),
        ),
        Followup::Say(lines) => say_report(lines),
    }
}

/// Starts a command on the rows of the table: its first write, or its report
/// where it writes nothing.
pub fn begin_command(rows: Vec<RawRow>, command: Commands, clock: &Clock) -> (step: Step)
    ensures
        match plan(rows_view(rows@), command@, clock@) {
            PlanView::Done(rep) => step matches Step::Finished(r) && r@ == rep,
            PlanView::Writes(cs, after) => cs.len() > 0 && (step matches Step::Write(s, st) && st@
                == change_sql(cs[0]) && s@ == (SessionView {
                rows: rows_view(rows@),
                remaining: cs,
                after,
            })),
        },
{
    proof {
        lemma_planned_writes_exist(rows_view(rows@), command@, clock@);
    }
    match plan_command(&rows, command, clock) {
        Plan::Done(r) => Step::Finished(r),
        Plan::Writes(changes, after) => {
            let st = change_statement(&changes[0]);
            let s = Session { rows, changes, at: 0, after };
            proof {
                assert(s@.remaining =~= changes_view(changes@));
            }
            Step::Write(s, st)
        },
    }
}

/// Continues a command after a write: on failure the command fails with the
/// database's error; on success the write is carried out on the rows, and the
/// next write follows, or the report.
pub fn resume(session: Session, reply: Reply) -> (step: Step)
    ensures
        match reply {
            Reply::Failed(e) => step matches Step::Finished(r) && r@ == fail(
                TaskErrorView::DatabaseError(e@),
            ),
            Reply::Written(id) => if session@.remaining.len() == 0 {
                step matches Step::Finished(r) && r@ == finish(session@.rows, session@.after, id)
            } else {
                let rows = apply(session@.rows, session@.remaining[0], id);
                if session@.remaining.len() > 1 {
                    step matches Step::Write(s, st) && st@ == change_sql(session@.remaining[1]) && s@
                        == (SessionView {
                        rows,
                        remaining: session@.remaining.drop_first(),
                        after: session@.after,
                    })
                } else {
                    step matches Step::Finished(r) && r@ == finish(rows, session@.after, id)
                }
            },
        },
{
    proof {
        use_type_invariant(&session);
    }
    match reply {
        Reply::Failed(e) => Step::Finished(fail_report(TaskError::DatabaseError(e))),
        Reply::Written(id) => {
            let Session { rows, changes, at, after } = session;
            if at >= changes.len() {
                return Step::Finished(finish_report(&rows, after, id));
            }
            let new_rows = apply_change(&rows, &changes[at], id);
            let next = at + 1;
            proof {
                let cs = changes_view(changes@);
                assert(cs.skip(at as int)[0] == changes@[at as int]@);
            }
            if next < changes.len() {
                let st = change_statement(&changes[next]);
                let s = Session { rows: new_rows, changes, at: next, after };
                proof {
                    let cs = changes_view(changes@);
                    assert(cs.skip(at as int).drop_first() =~= cs.skip(next as int));
                    assert(cs.skip(at as int)[1] == changes@[next as int]@);
                }
                Step::Write(s, st)
            } else {
                Step::Finished(finish_report(&new_rows, after, id))
            }
        },
    }
}

} // verus!
