//! What each operation on the `tasks` table reads and writes.
//!
//! The rows of the table are handed in as plain values, in the order in which
//! the table holds them. Reading operations select rows and read them as
//! tasks; writing operations describe their write as a `Change`, which
//! `apply_change` carries out on the rows and `change_statement` turns into the
//! SQL statement that carries it out on the database file.
use vstd::prelude::*;
use crate::like::{like, like_match};
use crate::models::{
    clone_opt, DbError,
    opt_view, parse_all_columns, row_task, rows_view, same_text, tasks_view, DbErrorView, PriorityOrder,
    RawRow, RowView, Task, TaskError, TaskErrorView, TaskStatus, TaskView,
};
use crate::text::push_char;

verus! {

/// Which rows a listing selects, as the contracts see it.
pub enum QueryView {
    Status { status: TaskStatus, include_deleted: bool },
    Priority { priority: PriorityOrder, include_deleted: bool },
    NotDeleted,
    Deleted,
    Everything,
    Due { today: Option<Seq<char>>, tomorrow: Option<Seq<char>> },
    Like { pattern: Seq<char> },
}

/// Which rows a listing selects.
pub enum RowQuery {
    /// Rows with a status, and unless deleted ones are included, not deleted.
    Status { status: TaskStatus, include_deleted: bool },
    /// Rows with a priority, and unless deleted ones are included, not deleted.
    Priority { priority: PriorityOrder, include_deleted: bool },
    /// Rows not deleted.
    NotDeleted,
    /// Rows deleted.
    Deleted,
    /// Every row.
    Everything,
    /// Rows due on either of two days, each given as `dd/mm/yyyy`.
    Due { today: Option<String>, tomorrow: Option<String> },
    /// Rows whose title or notes match a `LIKE` pattern.
    Like { pattern: String },
}

impl View for RowQuery {
    type V = QueryView;

    open spec fn view(&self) -> QueryView {
        match self {
            RowQuery::Status { status, include_deleted } => QueryView::Status {
                status: *status,
                include_deleted: *include_deleted,
            },
            RowQuery::Priority { priority, include_deleted } => QueryView::Priority {
                priority: *priority,
                include_deleted: *include_deleted,
            },
            RowQuery::NotDeleted => QueryView::NotDeleted,
            RowQuery::Deleted => QueryView::Deleted,
            RowQuery::Everything => QueryView::Everything,
            RowQuery::Due { today, tomorrow } => QueryView::Due {
                today: opt_view(*today),
                tomorrow: opt_view(*tomorrow),
            },
            RowQuery::Like { pattern } => QueryView::Like { pattern: pattern@ },
        }
    }
}

/// Whether a listing selects a row.
pub open spec fn selects(q: QueryView, r: RowView) -> bool {
    match q {
        QueryView::Status { status, include_deleted } => r.status == status.name() && (
        include_deleted || r.deleted_at is None),
        QueryView::Priority { priority, include_deleted } => r.priority == Some(priority.name())
            && (include_deleted || r.deleted_at is None),
        QueryView::NotDeleted => r.deleted_at is None,
        QueryView::Deleted => r.deleted_at is Some,
        QueryView::Everything => true,
        QueryView::Due { today, tomorrow } => (today is Some && r.due_at == today) || (
        tomorrow is Some && r.due_at == tomorrow),
        QueryView::Like { pattern } => like(pattern, r.title) || (r.notes matches Some(n) && like(
            pattern,
            n,
        )),
    }
}

/// The tasks of the selected rows, in table order, or the failure of reading
/// the first selected row that holds no known status.
pub open spec fn query_result(rows: Seq<RowView>, q: QueryView) -> Result<Seq<TaskView>, TaskErrorView>
    decreases rows.len(),
{
    if rows.len() == 0 {
        Ok(Seq::empty())
    } else {
        match query_result(rows.drop_last(), q) {
            Err(e) => Err(e),
            Ok(ts) => if selects(q, rows.last()) {
                match row_task(rows.last()) {
                    Some(t) => Ok(ts.push(t)),
                    None => Err(TaskErrorView::DatabaseError(DbErrorView::InvalidQuery)),
                }
            } else {
                Ok(ts)
            },
        }
    }
}

/// The view of a listing.
pub open spec fn listing_view(r: Result<Vec<Task>, TaskError>) -> Result<Seq<TaskView>, TaskErrorView> {
    match r {
        Ok(v) => Ok(tasks_view(v@)),
        Err(e) => Err(e@),
    }
}

fn same_opt_text(o: &Option<String>, s: &String) -> (b: bool)
    ensures
        b == (opt_view(*o) == Some(s@)),
{
    match o {
        Some(x) => same_text(x.as_str(), s.as_str()),
        None => false,
    }
}

fn row_selected(q: &RowQuery, r: &RawRow) -> (b: bool)
    ensures
        b == selects(q@, r@),
{
    match q {
        RowQuery::Status { status, include_deleted } => same_text(
            r.status.as_str(),
            status.as_str(),
        ) && (*include_deleted || r.deleted_at.is_none()),
        RowQuery::Priority { priority, include_deleted } => {
            let named = match &r.priority {
                Some(p) => same_text(p.as_str(), priority.as_str()),
                None => false,
            };
            named && (*include_deleted || r.deleted_at.is_none())
        },
        RowQuery::NotDeleted => r.deleted_at.is_none(),
        RowQuery::Deleted => r.deleted_at.is_some(),
        RowQuery::Everything => true,
        RowQuery::Due { today, tomorrow } => {
            let on_today = match today {
                Some(d) => same_opt_text(&r.due_at, d),
                None => false,
            };
            let on_tomorrow = match tomorrow {
                Some(d) => same_opt_text(&r.due_at, d),
                None => false,
            };
            on_today || on_tomorrow
        },
        RowQuery::Like { pattern } => {
            if like_match(pattern.as_str(), r.title.as_str()) {
                true
            } else {
                match &r.notes {
                    Some(n) => like_match(pattern.as_str(), n.as_str()),
                    None => false,
                }
            }
        },
    }
}

/// The tasks of the rows that a listing selects.
pub fn select_tasks(rows: &Vec<RawRow>, q: &RowQuery) -> (r: Result<Vec<Task>, TaskError>)
    ensures
        listing_view(r) == query_result(rows_view(rows@), q@),
{
    let mut tasks: Vec<Task> = Vec::new();
    let n = rows.len();
    let mut i: usize = 0;
    proof {
        assert(rows_view(rows@).take(0).len() == 0);
        assert(tasks_view(tasks@) =~= Seq::<TaskView>::empty());
    }
    while i < n
        invariant
            n == rows@.len(),
            i <= n,
            query_result(rows_view(rows@).take(i as int), q@) == Ok::<Seq<TaskView>, TaskErrorView>(
                tasks_view(tasks@),
            ),
        decreases n - i,
    {
        let ghost before = tasks@;
        proof {
            assert(rows_view(rows@).take(i + 1).drop_last() =~= rows_view(rows@).take(i as int));
            assert(rows_view(rows@).take(i + 1).last() == rows@[i as int]@);
        }
        if row_selected(q, &rows[i]) {
            match parse_all_columns(&rows[i]) {
                Ok(t) => {
                    tasks.push(t);
                    proof {
                        assert(tasks_view(tasks@) =~= tasks_view(before).push(tasks@.last()@));
                    }
                },
                Err(e) => {
                    proof {
                        lemma_query_error_stays(rows_view(rows@), q@, i as int + 1);
                        assert(rows_view(rows@).take(n as int) =~= rows_view(rows@));
                    }
                    return Err(TaskError::DatabaseError(e));
                },
            }
        }
        i = i + 1;
    }
    proof {
        assert(rows_view(rows@).take(n as int) =~= rows_view(rows@));
    }
    Ok(tasks)
}

proof fn lemma_query_error_stays(rows: Seq<RowView>, q: QueryView, k: int)
    requires
        0 <= k <= rows.len(),
        query_result(rows.take(k), q) is Err,
    ensures
        query_result(rows, q) == query_result(rows.take(k), q),
    decreases rows.len() - k,
{
    if k < rows.len() {
        assert(rows.take(k + 1).drop_last() =~= rows.take(k));
        lemma_query_error_stays(rows, q, k + 1);
    } else {
        assert(rows.take(k) =~= rows);
    }
}

/// The first row with an id.
pub open spec fn row_with_id(rows: Seq<RowView>, id: u64) -> Option<RowView>
    decreases rows.len(),
{
    if rows.len() == 0 {
        None
    } else if rows[0].id == id {
        Some(rows[0])
    } else {
        row_with_id(rows.drop_first(), id)
    }
}

/// The task with an id, as `SELECT * FROM tasks WHERE id = ?` reads it.
pub open spec fn task_with_id(rows: Seq<RowView>, id: u64) -> Result<TaskView, TaskErrorView> {
    match row_with_id(rows, id) {
        None => Err(TaskErrorView::DatabaseError(DbErrorView::QueryReturnedNoRows)),
        Some(r) => match row_task(r) {
            Some(t) => Ok(t),
            None => Err(TaskErrorView::DatabaseError(DbErrorView::InvalidQuery)),
        },
    }
}

pub open spec fn task_result_view(r: Result<Task, TaskError>) -> Result<TaskView, TaskErrorView> {
    match r {
        Ok(t) => Ok(t@),
        Err(e) => Err(e@),
    }
}

pub open spec fn unit_result_view(r: Result<(), TaskError>) -> Result<(), TaskErrorView> {
    match r {
        Ok(()) => Ok(()),
        Err(e) => Err(e@),
    }
}

proof fn lemma_row_with_id_step(rows: Seq<RowView>, id: u64, i: int)
    requires
        0 <= i < rows.len(),
        forall|j: int| 0 <= j < i ==> rows[j].id != id,
    ensures
        row_with_id(rows, id) == row_with_id(rows.subrange(i, rows.len() as int), id),
    decreases i,
{
    if i > 0 {
        lemma_row_with_id_step(rows.drop_first(), id, i - 1);
        assert(rows.drop_first().subrange(i - 1, rows.drop_first().len() as int) =~= rows.subrange(
            i,
            rows.len() as int,
        ));
    } else {
        assert(rows.subrange(0, rows.len() as int) =~= rows);
    }
}

proof fn lemma_row_with_id_none(rows: Seq<RowView>, id: u64)
    requires
        forall|j: int| 0 <= j < rows.len() ==> rows[j].id != id,
    ensures
        row_with_id(rows, id) is None,
    decreases rows.len(),
{
    if rows.len() > 0 {
        lemma_row_with_id_none(rows.drop_first(), id);
    }
}

/// The position of the first row with an id.
fn position_of(rows: &Vec<RawRow>, id: u64) -> (r: Option<usize>)
    ensures
        match r {
            Some(i) => i < rows@.len() && rows@[i as int].id == id && row_with_id(rows_view(rows@), id) == Some(rows@[i as int]@),
            None => row_with_id(rows_view(rows@), id) is None,
        },
        r is None <==> forall|j: int| 0 <= j < rows@.len() ==> rows@[j].id != id,
{
    let n = rows.len();
    let mut i: usize = 0;
    while i < n
        invariant
            n == rows@.len(),
            i <= n,
            forall|j: int| 0 <= j < i ==> rows@[j].id != id,
        decreases n - i,
    {
        if rows[i].id == id {
            proof {
                let v = rows_view(rows@);
                assert forall|j: int| 0 <= j < i implies v[j].id != id by {
                    assert(v[j] == rows@[j]@);
                }
                lemma_row_with_id_step(v, id, i as int);
                assert(v.subrange(i as int, v.len() as int)[0] == rows@[i as int]@);
            }
            return Some(i);
        }
        i = i + 1;
    }
    proof {
        let v = rows_view(rows@);
        assert forall|j: int| 0 <= j < v.len() implies v[j].id != id by {
            assert(v[j] == rows@[j]@);
        }
        lemma_row_with_id_none(v, id);
    }
    None
}

/// The task with an id.
pub fn show_task_by_id(rows: &Vec<RawRow>, task_id: u64) -> (r: Result<Task, TaskError>)
    ensures
        task_result_view(r) == task_with_id(rows_view(rows@), task_id),
{
    match position_of(rows, task_id) {
        Some(i) => match parse_all_columns(&rows[i]) {
            Ok(t) => Ok(t),
            Err(e) => Err(TaskError::DatabaseError(e)),
        },
        None => Err(TaskError::DatabaseError(DbError::QueryReturnedNoRows)),
    }
}

/// Whether some row has an id.
pub open spec fn has_id(rows: Seq<RowView>, id: u64) -> bool {
    exists|j: int| 0 <= j < rows.len() && rows[j].id == id
}

/// Succeeds where a row has the id; fails as a lookup that found no row
/// otherwise.
pub fn check_task_exists_by_id(rows: &Vec<RawRow>, id: u64) -> (r: Result<(), TaskError>)
    ensures
        unit_result_view(r) == if has_id(rows_view(rows@), id) {
            Ok::<(), TaskErrorView>(())
        } else {
            Err(TaskErrorView::DatabaseError(DbErrorView::QueryReturnedNoRows))
        },
{
    match position_of(rows, id) {
        Some(i) => {
            proof {
                assert(rows_view(rows@)[i as int].id == id);
            }
            Ok(())
        },
        None => {
            proof {
                if has_id(rows_view(rows@), id) {
                    let j = choose|j: int| 0 <= j < rows@.len() && rows_view(rows@)[j].id == id;
                    assert(rows_view(rows@)[j] == rows@[j]@);
                }
            }
            Err(TaskError::DatabaseError(DbError::QueryReturnedNoRows))
        },
    }
}

/// A row that a new task would repeat: the same title, or the same notes
/// where the task has notes.
pub open spec fn repeats(r: RowView, t: TaskView) -> bool {
    r.title == t.title || (t.notes is Some && r.notes == t.notes)
}

pub open spec fn duplicate_message() -> Seq<char> {
    "Task can't have duplicate title and/or notes"@
}

/// Refuses a task whose title, or whose notes, a row already has.
pub fn check_for_redundancy(rows: &Vec<RawRow>, new_task: &Task) -> (r: Result<(), TaskError>)
    ensures
        unit_result_view(r) == if exists|j: int|
            0 <= j < rows@.len() && #[trigger] repeats(rows_view(rows@)[j], new_task@) {
            Err(TaskErrorView::DuplicateTask(duplicate_message()))
        } else {
            Ok::<(), TaskErrorView>(())
        },
{
    let n = rows.len();
    let mut i: usize = 0;
    while i < n
        invariant
            n == rows@.len(),
            i <= n,
            forall|j: int| 0 <= j < i ==> !#[trigger] repeats(rows_view(rows@)[j], new_task@),
        decreases n - i,
    {
        let r = &rows[i];
        let same_title = same_text(r.title.as_str(), new_task.title.as_str());
        let same_notes = match (&new_task.notes, &r.notes) {
            (Some(a), Some(b)) => same_text(a.as_str(), b.as_str()),
            _ => false,
        };
        proof {
            assert(rows_view(rows@)[i as int] == rows@[i as int]@);
        }
        if same_title || same_notes {
            proof {
                assert(repeats(rows_view(rows@)[i as int], new_task@));
            }
            return Err(TaskError::DuplicateTask(String::from_str("Task can't have duplicate title and/or notes")));
        }
        i = i + 1;
    }
    Ok(())
}

pub open spec fn status_choice_message() -> Seq<char> {
    "Must specify either completed or ongoing"@
}

/// The tasks with a status: completed ones where `completed` is set, else
/// ongoing ones where `ongoing` is set; deleted ones only where `all` is set.
pub fn get_tasks_by_status(rows: &Vec<RawRow>, all: bool, completed: bool, ongoing: bool) -> (r: Result<
    Vec<Task>,
    TaskError,
>)
    ensures
        listing_view(r) == if completed {
            query_result(
                rows_view(rows@),
                QueryView::Status { status: TaskStatus::Completed, include_deleted: all },
            )
        } else if ongoing {
            query_result(
                rows_view(rows@),
                QueryView::Status { status: TaskStatus::Ongoing, include_deleted: all },
            )
        } else {
            Err(TaskErrorView::InvalidInput(status_choice_message()))
        },
{
    let status = if completed {
        TaskStatus::Completed
    } else if ongoing {
        TaskStatus::Ongoing
    } else {
        return Err(TaskError::InvalidInput(String::from_str("Must specify either completed or ongoing")));
    };
    select_tasks(rows, &RowQuery::Status { status, include_deleted: all })
}

pub open spec fn priority_choice_message() -> Seq<char> {
    "Must specify either low, medium or high"@
}

/// The tasks with a priority: the first of low, medium and high that is set;
/// deleted ones only where `all` is set.
pub fn get_tasks_by_priority(
    rows: &Vec<RawRow>,
    low: bool,
    medium: bool,
    high: bool,
    all: bool,
) -> (r: Result<Vec<Task>, TaskError>)
    ensures
        listing_view(r) == if low {
            query_result(
                rows_view(rows@),
                QueryView::Priority { priority: PriorityOrder::Low, include_deleted: all },
            )
        } else if medium {
            query_result(
                rows_view(rows@),
                QueryView::Priority { priority: PriorityOrder::Medium, include_deleted: all },
            )
        } else if high {
            query_result(
                rows_view(rows@),
                QueryView::Priority { priority: PriorityOrder::High, include_deleted: all },
            )
        } else {
            Err(TaskErrorView::InvalidInput(priority_choice_message()))
        },
{
    let priority = if low {
        PriorityOrder::Low
    } else if medium {
        PriorityOrder::Medium
    } else if high {
        PriorityOrder::High
    } else {
        return Err(TaskError::InvalidInput(String::from_str("Must specify either low, medium or high")));
    };
    select_tasks(rows, &RowQuery::Priority { priority, include_deleted: all })
}

/// The tasks not deleted.
pub fn get_all_tasks(rows: &Vec<RawRow>) -> (r: Result<Vec<Task>, TaskError>)
    ensures
        listing_view(r) == query_result(rows_view(rows@), QueryView::NotDeleted),
{
    select_tasks(rows, &RowQuery::NotDeleted)
}

/// The deleted tasks, or with `all` every task, deleted or not.
pub fn get_deleted_tasks(rows: &Vec<RawRow>, all: bool) -> (r: Result<Vec<Task>, TaskError>)
    ensures
        listing_view(r) == query_result(
            rows_view(rows@),
            if all {
                QueryView::Everything
            } else {
                QueryView::Deleted
            },
        ),
{
    if all {
        select_tasks(rows, &RowQuery::Everything)
    } else {
        select_tasks(rows, &RowQuery::Deleted)
    }
}

pub open spec fn due_choice_message() -> Seq<char> {
    "Must specify either --today or --tomorrow"@
}

/// The tasks due today, tomorrow, or on either day, as the flags ask, deleted
/// ones included. The days are given in `dd/mm/yyyy`; a day that is not
/// given matches no task.
pub fn get_due_tasks(
    rows: &Vec<RawRow>,
    today: bool,
    tomorrow: bool,
    today_date: &Option<String>,
    tomorrow_date: &Option<String>,
) -> (r: Result<Vec<Task>, TaskError>)
    ensures
        listing_view(r) == if today || tomorrow {
            query_result(
                rows_view(rows@),
                QueryView::Due {
                    today: if today {
                        opt_view(*today_date)
                    } else {
                        None
                    },
                    tomorrow: if tomorrow {
                        opt_view(*tomorrow_date)
                    } else {
                        None
                    },
                },
            )
        } else {
            Err(TaskErrorView::InvalidInput(due_choice_message()))
        },
{
    if !today && !tomorrow {
        return Err(TaskError::InvalidInput(String::from_str("Must specify either --today or --tomorrow")));
    }
    let first = if today {
        clone_opt(today_date)
    } else {
        None
    };
    let second = if tomorrow {
        clone_opt(tomorrow_date)
    } else {
        None
    };
    select_tasks(rows, &RowQuery::Due { today: first, tomorrow: second })
}

/// The `LIKE` pattern that finds a key anywhere in a text.
pub open spec fn search_pattern(key: Seq<char>) -> Seq<char> {
    seq!['%'] + key + seq!['%']
}

/// The tasks, deleted ones included, whose title or notes hold the key, where
/// `%` and `_` in the key are wildcards and ASCII letters match either case.
pub fn search_by_string(rows: &Vec<RawRow>, search_key: &str) -> (r: Result<Vec<Task>, TaskError>)
    ensures
        listing_view(r) == query_result(
            rows_view(rows@),
            QueryView::Like { pattern: search_pattern(search_key@) },
        ),
{
    let mut pattern = String::new();
    push_char(&mut pattern, '%');
    pattern.append(search_key);
    push_char(&mut pattern, '%');
    proof {
        assert(pattern@ =~= search_pattern(search_key@));
    }
    select_tasks(rows, &RowQuery::Like { pattern })
}

/// How many rows satisfy a condition.
pub open spec fn tally(rows: Seq<RowView>, pred: spec_fn(RowView) -> bool) -> nat
    decreases rows.len(),
{
    if rows.len() == 0 {
        0
    } else {
        tally(rows.drop_last(), pred) + if pred(rows.last()) {
            1nat
        } else {
            0nat
        }
    }
}

pub open spec fn live(r: RowView) -> bool {
    r.deleted_at is None
}

pub open spec fn live_with_status(r: RowView, s: TaskStatus) -> bool {
    r.status == s.name() && r.deleted_at is None
}

pub open spec fn live_with_priority(r: RowView, p: PriorityOrder) -> bool {
    r.priority == Some(p.name()) && r.deleted_at is None
}

/// The six counts of the statistics: tasks not deleted; of those, ongoing,
/// completed, of high, of medium and of low priority.
pub open spec fn stats_of(rows: Seq<RowView>) -> Seq<nat> {
    seq![
        tally(rows, |r: RowView| live(r)),
        tally(rows, |r: RowView| live_with_status(r, TaskStatus::Ongoing)),
        tally(rows, |r: RowView| live_with_status(r, TaskStatus::Completed)),
        tally(rows, |r: RowView| live_with_priority(r, PriorityOrder::High)),
        tally(rows, |r: RowView| live_with_priority(r, PriorityOrder::Medium)),
        tally(rows, |r: RowView| live_with_priority(r, PriorityOrder::Low)),
    ]
}

/// The statistics of the table, six counts; a table without rows has six
/// zeros.
pub fn get_stats(rows: &Vec<RawRow>) -> (r: Result<Vec<u64>, TaskError>)
    ensures
        r matches Ok(v) && v@.len() == 6 && forall|k: int|
            0 <= k < 6 ==> v@[k] == stats_of(rows_view(rows@))[k],
{
    let n = rows.len();
    let mut total: u64 = 0;
    let mut ongoing: u64 = 0;
    let mut completed: u64 = 0;
    let mut high: u64 = 0;
    let mut medium: u64 = 0;
    let mut low: u64 = 0;
    let mut i: usize = 0;
    while i < n
        invariant
            n == rows@.len(),
            i <= n,
            total == tally(rows_view(rows@).take(i as int), |r: RowView| live(r)),
            ongoing == tally(
                rows_view(rows@).take(i as int),
                |r: RowView| live_with_status(r, TaskStatus::Ongoing),
            ),
            completed == tally(
                rows_view(rows@).take(i as int),
                |r: RowView| live_with_status(r, TaskStatus::Completed),
            ),
            high == tally(
                rows_view(rows@).take(i as int),
                |r: RowView| live_with_priority(r, PriorityOrder::High),
            ),
            medium == tally(
                rows_view(rows@).take(i as int),
                |r: RowView| live_with_priority(r, PriorityOrder::Medium),
            ),
            low == tally(
                rows_view(rows@).take(i as int),
                |r: RowView| live_with_priority(r, PriorityOrder::Low),
            ),
            total <= i,
            ongoing <= i,
            completed <= i,
            high <= i,
            medium <= i,
            low <= i,
        decreases n - i,
    {
        let r = &rows[i];
        proof {
            let v = rows_view(rows@);
            assert(v.take(i + 1).drop_last() =~= v.take(i as int));
            assert(v.take(i + 1).last() == r@);
        }
        let alive = r.deleted_at.is_none();
        let is_ongoing = same_text(r.status.as_str(), TaskStatus::Ongoing.as_str());
        let is_completed = same_text(r.status.as_str(), TaskStatus::Completed.as_str());
        let (is_high, is_medium, is_low) = match &r.priority {
            Some(p) => (
                same_text(p.as_str(), PriorityOrder::High.as_str()),
                same_text(p.as_str(), PriorityOrder::Medium.as_str()),
                same_text(p.as_str(), PriorityOrder::Low.as_str()),
            ),
            None => (false, false, false),
        };
        if alive {
            total = total + 1;
            if is_ongoing {
                ongoing = ongoing + 1;
            }
            if is_completed {
                completed = completed + 1;
            }
            if is_high {
                high = high + 1;
            }
            if is_medium {
                medium = medium + 1;
            }
            if is_low {
                low = low + 1;
            }
        }
        i = i + 1;
    }
    proof {
        assert(rows_view(rows@).take(n as int) =~= rows_view(rows@));
    }
    let mut v: Vec<u64> = Vec::new();
    v.push(total);
    v.push(ongoing);
    v.push(completed);
    v.push(high);
    v.push(medium);
    v.push(low);
    Ok(v)
}

/// One column that an update sets, with its new value.
pub enum Assignment {
    Title(String),
    Status(TaskStatus),
    UpdatedAt(String),
    CompletedAt(Option<String>),
    DeletedAt(Option<String>),
    DueAt(String),
    Priority(PriorityOrder),
    Notes(String),
}

pub enum AssignmentView {
    Title(Seq<char>),
    Status(TaskStatus),
    UpdatedAt(Seq<char>),
    CompletedAt(Option<Seq<char>>),
    DeletedAt(Option<Seq<char>>),
    DueAt(Seq<char>),
    Priority(PriorityOrder),
    Notes(Seq<char>),
}

impl View for Assignment {
    type V = AssignmentView;

    open spec fn view(&self) -> AssignmentView {
        match self {
            Assignment::Title(t) => AssignmentView::Title(t@),
            Assignment::Status(s) => AssignmentView::Status(*s),
            Assignment::UpdatedAt(d) => AssignmentView::UpdatedAt(d@),
            Assignment::CompletedAt(d) => AssignmentView::CompletedAt(opt_view(*d)),
            Assignment::DeletedAt(d) => AssignmentView::DeletedAt(opt_view(*d)),
            Assignment::DueAt(d) => AssignmentView::DueAt(d@),
            Assignment::Priority(p) => AssignmentView::Priority(*p),
            Assignment::Notes(n) => AssignmentView::Notes(n@),
        }
    }
}

/// The views of a list of assignments.
pub open spec fn assignments_view(a: Seq<Assignment>) -> Seq<AssignmentView> {
    a.map_values(|x: Assignment| x@)
}

/// A row to insert; the table gives it its id, and it has not been updated.
pub struct NewRow {
    pub title: String,
    pub status: TaskStatus,
    pub created_at: String,
    pub completed_at: Option<String>,
    pub deleted_at: Option<String>,
    pub due_at: Option<String>,
    pub priority: Option<PriorityOrder>,
    pub notes: Option<String>,
}

pub struct NewRowView {
    pub title: Seq<char>,
    pub status: TaskStatus,
    pub created_at: Seq<char>,
    pub completed_at: Option<Seq<char>>,
    pub deleted_at: Option<Seq<char>>,
    pub due_at: Option<Seq<char>>,
    pub priority: Option<PriorityOrder>,
    pub notes: Option<Seq<char>>,
}

impl View for NewRow {
    type V = NewRowView;

    open spec fn view(&self) -> NewRowView {
        NewRowView {
            title: self.title@,
            status: self.status,
            created_at: self.created_at@,
            completed_at: opt_view(self.completed_at),
            deleted_at: opt_view(self.deleted_at),
            due_at: opt_view(self.due_at),
            priority: self.priority,
            notes: opt_view(self.notes),
        }
    }
}

/// A write to the `tasks` table.
pub enum Change {
    /// Adds a row.
    Insert(NewRow),
    /// Sets columns, in the order given, of the row with an id.
    Update { id: u64, assignments: Vec<Assignment> },
    /// Removes the row with an id.
    DeleteById(u64),
    /// Removes every deleted row.
    DeleteSoftDeleted,
    /// Removes every row.
    DeleteAll,
}

pub enum ChangeView {
    Insert(NewRowView),
    Update { id: u64, assignments: Seq<AssignmentView> },
    DeleteById(u64),
    DeleteSoftDeleted,
    DeleteAll,
}

impl View for Change {
    type V = ChangeView;

    open spec fn view(&self) -> ChangeView {
        match self {
            Change::Insert(r) => ChangeView::Insert(r@),
            Change::Update { id, assignments } => ChangeView::Update {
                id: *id,
                assignments: assignments_view(assignments@),
            },
            Change::DeleteById(id) => ChangeView::DeleteById(*id),
            Change::DeleteSoftDeleted => ChangeView::DeleteSoftDeleted,
            Change::DeleteAll => ChangeView::DeleteAll,
        }
    }
}

/// The views of a list of changes.
pub open spec fn changes_view(c: Seq<Change>) -> Seq<ChangeView> {
    c.map_values(|x: Change| x@)
}

pub open spec fn opt_name(p: Option<PriorityOrder>) -> Option<Seq<char>> {
    match p {
        Some(p) => Some(p.name()),
        None => None,
    }
}

/// The row that an insert adds, with the id that the table gave it.
pub open spec fn inserted_row(n: NewRowView, id: u64) -> RowView {
    RowView {
        id,
        title: n.title,
        status: n.status.name(),
        created_at: n.created_at,
        updated_at: None,
        completed_at: n.completed_at,
        deleted_at: n.deleted_at,
        due_at: n.due_at,
        priority: opt_name(n.priority),
        notes: n.notes,
    }
}

/// A row with one column set.
pub open spec fn assign(r: RowView, a: AssignmentView) -> RowView {
    match a {
        AssignmentView::Title(t) => RowView { title: t, ..r },
        AssignmentView::Status(s) => RowView { status: s.name(), ..r },
        AssignmentView::UpdatedAt(d) => RowView { updated_at: Some(d), ..r },
        AssignmentView::CompletedAt(d) => RowView { completed_at: d, ..r },
        AssignmentView::DeletedAt(d) => RowView { deleted_at: d, ..r },
        AssignmentView::DueAt(d) => RowView { due_at: Some(d), ..r },
        AssignmentView::Priority(p) => RowView { priority: Some(p.name()), ..r },
        AssignmentView::Notes(n) => RowView { notes: Some(n), ..r },
    }
}

/// A row with columns set one after the other.
pub open spec fn assign_all(r: RowView, a: Seq<AssignmentView>) -> RowView
    decreases a.len(),
{
    if a.len() == 0 {
        r
    } else {
        assign(assign_all(r, a.drop_last()), a.last())
    }
}

/// The rows that satisfy a condition, in their order.
pub open spec fn keep_rows(rows: Seq<RowView>, pred: spec_fn(RowView) -> bool) -> Seq<RowView>
    decreases rows.len(),
{
    if rows.len() == 0 {
        Seq::empty()
    } else if pred(rows.last()) {
        keep_rows(rows.drop_last(), pred).push(rows.last())
    } else {
        keep_rows(rows.drop_last(), pred)
    }
}

/// The rows after a write; an insert's row gets the id `new_id`.
pub open spec fn apply(rows: Seq<RowView>, c: ChangeView, new_id: u64) -> Seq<RowView> {
    match c {
        ChangeView::Insert(n) => rows.push(inserted_row(n, new_id)),
        ChangeView::Update { id, assignments } => rows.map_values(
            |r: RowView|
                if r.id == id {
                    assign_all(r, assignments)
                } else {
                    r
                },
        ),
        ChangeView::DeleteById(id) => keep_rows(rows, |r: RowView| r.id != id),
        ChangeView::DeleteSoftDeleted => keep_rows(rows, |r: RowView| r.deleted_at is None),
        ChangeView::DeleteAll => Seq::empty(),
    }
}

fn set_column(r: &mut RawRow, a: &Assignment)
    ensures
        final(r)@ == assign(old(r)@, a@),
{
    match a {
        Assignment::Title(t) => {
            r.title = t.clone();
        },
        Assignment::Status(s) => {
            r.status = String::from_str(s.as_str());
        },
        Assignment::UpdatedAt(d) => {
            r.updated_at = Some(d.clone());
        },
        Assignment::CompletedAt(d) => {
            r.completed_at = clone_opt(d);
        },
        Assignment::DeletedAt(d) => {
            r.deleted_at = clone_opt(d);
        },
        Assignment::DueAt(d) => {
            r.due_at = Some(d.clone());
        },
        Assignment::Priority(p) => {
            r.priority = Some(String::from_str(p.as_str()));
        },
        Assignment::Notes(n) => {
            r.notes = Some(n.clone());
        },
    }
}

fn priority_text(p: &Option<PriorityOrder>) -> (r: Option<String>)
    ensures
        opt_view(r) == opt_name(*p),
{
    match p {
        Some(p) => Some(String::from_str(p.as_str())),
        None => None,
    }
}

fn clone_row(r: &RawRow) -> (c: RawRow)
    ensures
        c@ == r@,
{
    RawRow {
        id: r.id,
        title: r.title.clone(),
        status: r.status.clone(),
        created_at: r.created_at.clone(),
        updated_at: clone_opt(&r.updated_at),
        completed_at: clone_opt(&r.completed_at),
        deleted_at: clone_opt(&r.deleted_at),
        due_at: clone_opt(&r.due_at),
        priority: clone_opt(&r.priority),
        notes: clone_opt(&r.notes),
    }
}

proof fn lemma_rows_view_push(s: Seq<RawRow>, x: RawRow)
    ensures
        rows_view(s.push(x)) == rows_view(s).push(x@),
{
    assert(rows_view(s.push(x)) =~= rows_view(s).push(x@));
}

/// Carries out a write on the rows; an inserted row gets the id `new_id`.
pub fn apply_change(rows: &Vec<RawRow>, change: &Change, new_id: u64) -> (res: Vec<RawRow>)
    ensures
        rows_view(res@) == apply(rows_view(rows@), change@, new_id),
{
    let n = rows.len();
    let mut out: Vec<RawRow> = Vec::new();
    match change {
        Change::Insert(nr) => {
            let mut i: usize = 0;
            while i < n
                invariant
                    n == rows@.len(),
                    i <= n,
                    rows_view(out@) == rows_view(rows@).take(i as int),
                decreases n - i,
            {
                let c = clone_row(&rows[i]);
                let ghost before = out@;
                out.push(c);
                proof {
                    lemma_rows_view_push(before, c);
                    assert(rows_view(rows@).take(i + 1) =~= rows_view(rows@).take(i as int).push(
                        rows@[i as int]@,
                    ));
                }
                i = i + 1;
            }
            out.push(
                RawRow {
                    id: new_id,
                    title: nr.title.clone(),
                    status: String::from_str(nr.status.as_str()),
                    created_at: nr.created_at.clone(),
                    updated_at: None,
                    completed_at: clone_opt(&nr.completed_at),
                    deleted_at: clone_opt(&nr.deleted_at),
                    due_at: clone_opt(&nr.due_at),
                    priority: priority_text(&nr.priority),
                    notes: clone_opt(&nr.notes),
                },
            );
            proof {
                assert(rows_view(rows@).take(n as int) =~= rows_view(rows@));
                assert(rows_view(out@) =~= apply(rows_view(rows@), change@, new_id));
            }
        },
        Change::Update { id, assignments } => {
            let ghost f = |r: RowView|
                if r.id == *id {
                    assign_all(r, assignments_view(assignments@))
                } else {
                    r
                };
            let mut i: usize = 0;
            while i < n
                invariant
                    n == rows@.len(),
                    i <= n,
                    rows_view(out@) == rows_view(rows@).take(i as int).map_values(f),
                    f == (|r: RowView|
                        if r.id == *id {
                            assign_all(r, assignments_view(assignments@))
                        } else {
                            r
                        }),
                decreases n - i,
            {
                let mut row = clone_row(&rows[i]);
                if row.id == *id {
                    let m = assignments.len();
                    let mut k: usize = 0;
                    while k < m
                        invariant
                            i < n,
                            n == rows@.len(),
                            m == assignments@.len(),
                            k <= m,
                            row@ == assign_all(
                                rows@[i as int]@,
                                assignments_view(assignments@).take(k as int),
                            ),
                        decreases m - k,
                    {
                        set_column(&mut row, &assignments[k]);
                        proof {
                            let a = assignments_view(assignments@);
                            assert(a.take(k + 1).drop_last() =~= a.take(k as int));
                            assert(a.take(k + 1).last() == assignments@[k as int]@);
                        }
                        k = k + 1;
                    }
                    proof {
                        assert(assignments_view(assignments@).take(m as int) =~= assignments_view(
                            assignments@,
                        ));
                    }
                }
                let ghost before = out@;
                proof {
                    assert(row@ == f(rows@[i as int]@));
                }
                out.push(row);
                proof {
                    lemma_rows_view_push(before, row);
                    let v = rows_view(rows@);
                    assert(v.take(i + 1) =~= v.take(i as int).push(rows@[i as int]@));
                    assert(v.take(i + 1).map_values(f) =~= v.take(i as int).map_values(f).push(
                        f(rows@[i as int]@),
                    ));
                }
                i = i + 1;
            }
            proof {
                assert(rows_view(rows@).take(n as int) =~= rows_view(rows@));
            }
        },
        Change::DeleteById(id) => {
            let ghost pred = |r: RowView| r.id != *id;
            let mut i: usize = 0;
            while i < n
                invariant
                    n == rows@.len(),
                    i <= n,
                    rows_view(out@) == keep_rows(rows_view(rows@).take(i as int), pred),
                    pred == (|r: RowView| r.id != *id),
                decreases n - i,
            {
                proof {
                    let v = rows_view(rows@);
                    assert(v.take(i + 1).drop_last() =~= v.take(i as int));
                    assert(v.take(i + 1).last() == rows@[i as int]@);
                }
                if rows[i].id != *id {
                    out.push(clone_row(&rows[i]));
                    proof {
                        assert(rows_view(out@) =~= keep_rows(rows_view(rows@).take(i as int), pred).push(rows@[i as int]@));
                    }
                }
                i = i + 1;
            }
            proof {
                assert(rows_view(rows@).take(n as int) =~= rows_view(rows@));
            }
        },
        Change::DeleteSoftDeleted => {
            let ghost pred = |r: RowView| r.deleted_at is None;
            let mut i: usize = 0;
            while i < n
                invariant
                    n == rows@.len(),
                    i <= n,
                    rows_view(out@) == keep_rows(rows_view(rows@).take(i as int), pred),
                    pred == (|r: RowView| r.deleted_at is None),
                decreases n - i,
            {
                proof {
                    let v = rows_view(rows@);
                    assert(v.take(i + 1).drop_last() =~= v.take(i as int));
                    assert(v.take(i + 1).last() == rows@[i as int]@);
                }
                if rows[i].deleted_at.is_none() {
                    out.push(clone_row(&rows[i]));
                    proof {
                        assert(rows_view(out@) =~= keep_rows(rows_view(rows@).take(i as int), pred).push(rows@[i as int]@));
                    }
                }
                i = i + 1;
            }
            proof {
                assert(rows_view(rows@).take(n as int) =~= rows_view(rows@));
            }
        },
        Change::DeleteAll => {
            proof {
                assert(rows_view(out@) =~= Seq::<RowView>::empty());
            }
        },
    }
    out
}

/// A value bound to a placeholder of an SQL statement.
#[derive(Debug, Clone)]
pub enum SqlValue {
    Text(String),
    Integer(u64),
    Null,
}

pub enum SqlValueView {
    Text(Seq<char>),
    Integer(u64),
    Null,
}

impl View for SqlValue {
    type V = SqlValueView;

    open spec fn view(&self) -> SqlValueView {
        match self {
            SqlValue::Text(t) => SqlValueView::Text(t@),
            SqlValue::Integer(n) => SqlValueView::Integer(*n),
            SqlValue::Null => SqlValueView::Null,
        }
    }
}

/// An SQL statement with the values of its placeholders, in order.
#[derive(Debug, Clone)]
pub struct Statement {
    pub sql: String,
    pub params: Vec<SqlValue>,
}

pub struct StatementView {
    pub sql: Seq<char>,
    pub params: Seq<SqlValueView>,
}

impl View for Statement {
    type V = StatementView;

    open spec fn view(&self) -> StatementView {
        StatementView { sql: self.sql@, params: self.params@.map_values(|v: SqlValue| v@) }
    }
}

pub open spec fn opt_param(o: Option<Seq<char>>) -> SqlValueView {
    match o {
        Some(s) => SqlValueView::Text(s),
        None => SqlValueView::Null,
    }
}

/// The column that an assignment sets.
pub open spec fn column_name(a: AssignmentView) -> Seq<char> {
    match a {
        AssignmentView::Title(_) => "title"@,
        AssignmentView::Status(_) => "status"@,
        AssignmentView::UpdatedAt(_) => "updated_at"@,
        AssignmentView::CompletedAt(_) => "completed_at"@,
        AssignmentView::DeletedAt(_) => "deleted_at"@,
        AssignmentView::DueAt(_) => "due_at"@,
        AssignmentView::Priority(_) => "priority"@,
        AssignmentView::Notes(_) => "notes"@,
    }
}

/// The value an assignment binds, or `None` where it writes `NULL`.
pub open spec fn assigned_value(a: AssignmentView) -> Option<SqlValueView> {
    match a {
        AssignmentView::Title(t) => Some(SqlValueView::Text(t)),
        AssignmentView::Status(s) => Some(SqlValueView::Text(s.name())),
        AssignmentView::UpdatedAt(d) => Some(SqlValueView::Text(d)),
        AssignmentView::CompletedAt(d) => match d {
            Some(d) => Some(SqlValueView::Text(d)),
            None => None,
        },
        AssignmentView::DeletedAt(d) => match d {
            Some(d) => Some(SqlValueView::Text(d)),
            None => None,
        },
        AssignmentView::DueAt(d) => Some(SqlValueView::Text(d)),
        AssignmentView::Priority(p) => Some(SqlValueView::Text(p.name())),
        AssignmentView::Notes(n) => Some(SqlValueView::Text(n)),
    }
}

/// `column = ?`, or `column = NULL`.
pub open spec fn set_clause(a: AssignmentView) -> Seq<char> {
    column_name(a) + if assigned_value(a) is Some {
        " = ?"@
    } else {
        " = NULL"@
    }
}

/// The values that a list of assignments binds, in order.
pub open spec fn bound_values(a: Seq<AssignmentView>) -> Seq<SqlValueView>
    decreases a.len(),
{
    if a.len() == 0 {
        Seq::empty()
    } else {
        match assigned_value(a.last()) {
            Some(v) => bound_values(a.drop_last()).push(v),
            None => bound_values(a.drop_last()),
        }
    }
}

pub open spec fn insert_sql() -> Seq<char> {
    "INSERT INTO tasks (title, status, created_at, completed_at, deleted_at, due_at, priority, notes) VALUES (?1, ?2, ?3, ?4, ?5, ?6, ?7, ?8)"@
}

/// The SQL statement that carries out a write.
pub open spec fn change_sql(c: ChangeView) -> StatementView {
    match c {
        ChangeView::Insert(n) => StatementView {
            sql: insert_sql(),
            params: seq![
                SqlValueView::Text(n.title),
                SqlValueView::Text(n.status.name()),
                SqlValueView::Text(n.created_at),
                opt_param(n.completed_at),
                opt_param(n.deleted_at),
                opt_param(n.due_at),
                opt_param(opt_name(n.priority)),
                opt_param(n.notes),
            ],
        },
        ChangeView::Update { id, assignments } => StatementView {
            sql: "UPDATE tasks SET "@ + crate::text::join(
                assignments.map_values(|a: AssignmentView| set_clause(a)),
                ", "@,
            ) + " WHERE id = ?"@,
            params: bound_values(assignments).push(SqlValueView::Integer(id)),
        },
        ChangeView::DeleteById(id) => StatementView {
            sql: "DELETE FROM tasks WHERE id = ?1"@,
            params: seq![SqlValueView::Integer(id)],
        },
        ChangeView::DeleteSoftDeleted => StatementView {
            sql: "DELETE FROM tasks WHERE deleted_at IS NOT NULL"@,
            params: Seq::empty(),
        },
        ChangeView::DeleteAll => StatementView { sql: "DELETE FROM tasks"@, params: Seq::empty() },
    }
}

fn opt_value(o: &Option<String>) -> (v: SqlValue)
    ensures
        v@ == opt_param(opt_view(*o)),
{
    match o {
        Some(s) => SqlValue::Text(s.clone()),
        None => SqlValue::Null,
    }
}

fn clause_and_value(a: &Assignment) -> (r: (String, Option<SqlValue>))
    ensures
        r.0@ == set_clause(a@),
        match (r.1, assigned_value(a@)) {
            (Some(v), Some(w)) => v@ == w,
            (None, None) => true,
            _ => false,
        },
{
    let (column, value) = match a {
        Assignment::Title(t) => ("title", Some(SqlValue::Text(t.clone()))),
        Assignment::Status(st) => ("status", Some(SqlValue::Text(String::from_str(st.as_str())))),
        Assignment::UpdatedAt(d) => ("updated_at", Some(SqlValue::Text(d.clone()))),
        Assignment::CompletedAt(d) => (
            "completed_at",
            match d {
                Some(d) => Some(SqlValue::Text(d.clone())),
                None => None,
            },
        ),
        Assignment::DeletedAt(d) => (
            "deleted_at",
            match d {
                Some(d) => Some(SqlValue::Text(d.clone())),
                None => None,
            },
        ),
        Assignment::DueAt(d) => ("due_at", Some(SqlValue::Text(d.clone()))),
        Assignment::Priority(p) => ("priority", Some(SqlValue::Text(String::from_str(p.as_str())))),
        Assignment::Notes(n) => ("notes", Some(SqlValue::Text(n.clone()))),
    };
    let mut clause = String::from_str(column);
    if value.is_some() {
        clause.append(" = ?");
    } else {
        clause.append(" = NULL");
    }
    (clause, value)
}

/// The SQL statement that carries out a write on the database.
pub fn change_statement(change: &Change) -> (st: Statement)
    ensures
        st@ == change_sql(change@),
{
    match change {
        Change::Insert(n) => {
            let mut params: Vec<SqlValue> = Vec::new();
            params.push(SqlValue::Text(n.title.clone()));
            params.push(SqlValue::Text(String::from_str(n.status.as_str())));
            params.push(SqlValue::Text(n.created_at.clone()));
            params.push(opt_value(&n.completed_at));
            params.push(opt_value(&n.deleted_at));
            params.push(opt_value(&n.due_at));
            params.push(opt_value(&priority_text(&n.priority)));
            params.push(opt_value(&n.notes));
            let st = Statement {
                sql: String::from_str(
                    "INSERT INTO tasks (title, status, created_at, completed_at, deleted_at, due_at, priority, notes) VALUES (?1, ?2, ?3, ?4, ?5, ?6, ?7, ?8)",
                ),
                params,
            };
            proof {
                assert(st@.params =~= change_sql(change@).params);
            }
            st
        },
        Change::Update { id, assignments } => {
            let m = assignments.len();
            let mut clauses: Vec<String> = Vec::new();
            let mut params: Vec<SqlValue> = Vec::new();
            let ghost a = assignments_view(assignments@);
            let mut k: usize = 0;
            while k < m
                invariant
                    m == assignments@.len(),
                    a == assignments_view(assignments@),
                    k <= m,
                    crate::text::views(clauses@) == a.take(k as int).map_values(
                        |x: AssignmentView| set_clause(x),
                    ),
                    params@.map_values(|v: SqlValue| v@) == bound_values(a.take(k as int)),
                decreases m - k,
            {
                let (clause, value) = clause_and_value(&assignments[k]);
                let ghost cs = clauses@;
                let ghost ps = params@;
                clauses.push(clause);
                proof {
                    assert(a.take(k + 1).drop_last() =~= a.take(k as int));
                    assert(a.take(k + 1).last() == assignments@[k as int]@);
                    assert(crate::text::views(clauses@) =~= crate::text::views(cs).push(clause@));
                    assert(a.take(k + 1).map_values(|x: AssignmentView| set_clause(x)) =~= a.take(
                        k as int,
                    ).map_values(|x: AssignmentView| set_clause(x)).push(set_clause(a[k as int])));
                }
                match value {
                    Some(v) => {
                        params.push(v);
                        proof {
                            assert(params@.map_values(|v: SqlValue| v@) =~= ps.map_values(
                                |v: SqlValue| v@,
                            ).push(v@));
                        }
                    },
                    None => {},
                }
                k = k + 1;
            }
            proof {
                assert(a.take(m as int) =~= a);
            }
            let joined = crate::text::join_words(&clauses, ", ");
            let mut sql = String::from_str("UPDATE tasks SET ");
            sql.append(joined.as_str());
            sql.append(" WHERE id = ?");
            let ghost ps = params@;
            params.push(SqlValue::Integer(*id));
            proof {
                assert(params@.map_values(|v: SqlValue| v@) =~= ps.map_values(|v: SqlValue| v@).push(
                    SqlValueView::Integer(*id),
                ));
            }
            Statement { sql, params }
        },
        Change::DeleteById(id) => {
            let mut params: Vec<SqlValue> = Vec::new();
            params.push(SqlValue::Integer(*id));
            let st = Statement { sql: String::from_str("DELETE FROM tasks WHERE id = ?1"), params };
            proof {
                assert(st@.params =~= change_sql(change@).params);
            }
            st
        },
        Change::DeleteSoftDeleted => {
            let st = Statement {
                sql: String::from_str("DELETE FROM tasks WHERE deleted_at IS NOT NULL"),
                params: Vec::new(),
            };
            proof {
                assert(st@.params =~= change_sql(change@).params);
            }
            st
        },
        Change::DeleteAll => {
            let st = Statement { sql: String::from_str("DELETE FROM tasks"), params: Vec::new() };
            proof {
                assert(st@.params =~= change_sql(change@).params);
            }
            st
        },
    }
}

pub open spec fn change_result_view(r: Result<Change, TaskError>) -> Result<ChangeView, TaskErrorView> {
    match r {
        Ok(c) => Ok(c@),
        Err(e) => Err(e@),
    }
}

/// The row of a new task created on `now`: not updated, completed or
/// deleted yet.
pub open spec fn new_task_row(t: TaskView, now: Seq<char>) -> NewRowView {
    NewRowView {
        title: t.title,
        status: t.status,
        created_at: now,
        completed_at: None,
        deleted_at: None,
        due_at: t.due_at,
        priority: t.priority,
        notes: t.notes,
    }
}

/// The insert of a new task, created on `now`.
pub fn create_task(new_task: &Task, now: &str) -> (c: Change)
    ensures
        c@ == ChangeView::Insert(new_task_row(new_task@, now@)),
{
    Change::Insert(
        NewRow {
            title: new_task.title.clone(),
            status: new_task.status,
            created_at: String::from_str(now),
            completed_at: None,
            deleted_at: None,
            due_at: clone_opt(&new_task.due_at),
            priority: new_task.priority,
            notes: clone_opt(&new_task.notes),
        },
    )
}

/// What a change of status sets: the status, the day of the update, and the
/// day of completion, which going back to ongoing clears.
pub open spec fn status_update(status: TaskStatus, date: Seq<char>) -> Seq<AssignmentView> {
    seq![
        AssignmentView::Status(status),
        AssignmentView::UpdatedAt(date),
        AssignmentView::CompletedAt(
            if status == TaskStatus::Completed {
                Some(date)
            } else {
                None
            },
        ),
    ]
}

/// Sets the status of the task with an id, on `date`.
pub fn update_status(id: u64, updated_status: TaskStatus, date: &str) -> (c: Change)
    ensures
        c@ == (ChangeView::Update { id, assignments: status_update(updated_status, date@) }),
{
    let mut assignments: Vec<Assignment> = Vec::new();
    assignments.push(Assignment::Status(updated_status));
    assignments.push(Assignment::UpdatedAt(String::from_str(date)));
    if updated_status == TaskStatus::Completed {
        assignments.push(Assignment::CompletedAt(Some(String::from_str(date))));
    } else {
        assignments.push(Assignment::CompletedAt(None));
    }
    proof {
        assert(assignments_view(assignments@) =~= status_update(updated_status, date@));
    }
    Change::Update { id, assignments }
}

/// What a deletion writes: the day of deletion, which is also the day of the
/// update.
pub open spec fn soft_delete_view(id: u64, date: Seq<char>) -> ChangeView {
    ChangeView::Update {
        id,
        assignments: seq![AssignmentView::DeletedAt(Some(date)), AssignmentView::UpdatedAt(date)],
    }
}

/// What a restore writes: no day of deletion, and the day of the update.
pub open spec fn restore_view(id: u64, date: Seq<char>) -> ChangeView {
    ChangeView::Update {
        id,
        assignments: seq![AssignmentView::DeletedAt(None), AssignmentView::UpdatedAt(date)],
    }
}

/// Marks the task with an id deleted on `date`, keeping its row.
pub fn soft_delete_task(id: u64, date: &str) -> (c: Change)
    ensures
        c@ == soft_delete_view(id, date@),
{
    let mut assignments: Vec<Assignment> = Vec::new();
    assignments.push(Assignment::DeletedAt(Some(String::from_str(date))));
    assignments.push(Assignment::UpdatedAt(String::from_str(date)));
    proof {
        assert(assignments_view(assignments@) =~= seq![
            AssignmentView::DeletedAt(Some(date@)),
            AssignmentView::UpdatedAt(date@),
        ]);
    }
    Change::Update { id, assignments }
}

/// Clears the deletion of the task with an id, on `date`.
pub fn restore_task(id: u64, date: &str) -> (c: Change)
    ensures
        c@ == restore_view(id, date@),
{
    let mut assignments: Vec<Assignment> = Vec::new();
    assignments.push(Assignment::DeletedAt(None));
    assignments.push(Assignment::UpdatedAt(String::from_str(date)));
    proof {
        assert(assignments_view(assignments@) =~= seq![
            AssignmentView::DeletedAt(None),
            AssignmentView::UpdatedAt(date@),
        ]);
    }
    Change::Update { id, assignments }
}

pub open spec fn purge_choice_message() -> Seq<char> {
    "Must specify either --all or a valid id"@
}

/// What a purge writes: the removal of the task with an id, which must
/// exist, or with `all` and no id the removal of every deleted task.
pub open spec fn purge_result(rows: Seq<RowView>, id: Option<u64>, all: bool) -> Result<ChangeView, TaskErrorView> {
    match id {
        Some(task_id) => if has_id(rows, task_id) {
            Ok(ChangeView::DeleteById(task_id))
        } else {
            Err(TaskErrorView::DatabaseError(DbErrorView::QueryReturnedNoRows))
        },
        None => if all {
            Ok(ChangeView::DeleteSoftDeleted)
        } else {
            Err(TaskErrorView::InvalidInput(purge_choice_message()))
        },
    }
}

/// Removes for good the task with an id, which must exist, or with `all` and
/// no id every deleted task.
pub fn purge_task(rows: &Vec<RawRow>, id: Option<u64>, all: bool) -> (r: Result<Change, TaskError>)
    ensures
        change_result_view(r) == purge_result(rows_view(rows@), id, all),
{
    match id {
        Some(task_id) => {
            match check_task_exists_by_id(rows, task_id) {
                Ok(()) => Ok(Change::DeleteById(task_id)),
                Err(e) => Err(e),
            }
        },
        None => {
            if all {
                Ok(Change::DeleteSoftDeleted)
            } else {
                Err(TaskError::InvalidInput(String::from_str("Must specify either --all or a valid id")))
            }
        },
    }
}

/// What an update of a task sets: each field given, in the order title, due
/// date, priority, notes, and last the day of the update.
pub open spec fn task_update(
    title: Option<Seq<char>>,
    due: Option<Seq<char>>,
    priority: Option<PriorityOrder>,
    notes: Option<Seq<char>>,
    date: Seq<char>,
) -> Seq<AssignmentView> {
    (match title {
        Some(t) => seq![AssignmentView::Title(t)],
        None => Seq::empty(),
    }) + (match due {
        Some(d) => seq![AssignmentView::DueAt(d)],
        None => Seq::empty(),
    }) + (match priority {
        Some(p) => seq![AssignmentView::Priority(p)],
        None => Seq::empty(),
    }) + (match notes {
        Some(n) => seq![AssignmentView::Notes(n)],
        None => Seq::empty(),
    }) + seq![AssignmentView::UpdatedAt(date)]
}

pub open spec fn nothing_to_update_message() -> Seq<char> {
    "Nothing to update"@
}

/// What an update of a task writes; at least one field must be given.
pub open spec fn update_result(
    id: u64,
    title: Option<Seq<char>>,
    due: Option<Seq<char>>,
    priority: Option<PriorityOrder>,
    notes: Option<Seq<char>>,
    date: Seq<char>,
) -> Result<ChangeView, TaskErrorView> {
    if title is None && due is None && priority is None && notes is None {
        Err(TaskErrorView::InvalidInput(nothing_to_update_message()))
    } else {
        Ok(ChangeView::Update { id, assignments: task_update(title, due, priority, notes, date) })
    }
}

/// Updates the given fields of the task with an id, on `date`; at least one
/// field must be given.
pub fn update_task_by_id(
    id: u64,
    title: Option<String>,
    due: Option<String>,
    priority: Option<PriorityOrder>,
    notes: Option<String>,
    date: &str,
) -> (r: Result<Change, TaskError>)
    ensures
        change_result_view(r) == update_result(
            id,
            opt_view(title),
            opt_view(due),
            priority,
            opt_view(notes),
            date@,
        ),
{
    let ghost (t0, d0, n0) = (opt_view(title), opt_view(due), opt_view(notes));
    let mut assignments: Vec<Assignment> = Vec::new();
    if let Some(t) = title {
        assignments.push(Assignment::Title(t));
    }
    let ghost a1 = assignments_view(assignments@);
    if let Some(d) = due {
        assignments.push(Assignment::DueAt(d));
    }
    let ghost a2 = assignments_view(assignments@);
    if let Some(p) = priority {
        assignments.push(Assignment::Priority(p));
    }
    let ghost a3 = assignments_view(assignments@);
    if let Some(n) = notes {
        assignments.push(Assignment::Notes(n));
    }
    let ghost a4 = assignments_view(assignments@);
    assignments.push(Assignment::UpdatedAt(String::from_str(date)));
    if assignments.len() == 1 {
        return Err(TaskError::InvalidInput(String::from_str("Nothing to update")));
    }
    proof {
        let tp = match t0 {
            Some(t) => seq![AssignmentView::Title(t)],
            None => Seq::<AssignmentView>::empty(),
        };
        let dp = match d0 {
            Some(d) => seq![AssignmentView::DueAt(d)],
            None => Seq::<AssignmentView>::empty(),
        };
        let pp = match priority {
            Some(p) => seq![AssignmentView::Priority(p)],
            None => Seq::<AssignmentView>::empty(),
        };
        let np = match n0 {
            Some(n) => seq![AssignmentView::Notes(n)],
            None => Seq::<AssignmentView>::empty(),
        };
        assert(a1 =~= tp);
        assert(a2 =~= tp + dp);
        assert(a3 =~= tp + dp + pp);
        assert(a4 =~= tp + dp + pp + np);
        assert(assignments_view(assignments@) =~= tp + dp + pp + np + seq![
            AssignmentView::UpdatedAt(date@),
        ]);
    }
    Ok(Change::Update { id, assignments })
}

pub open spec fn date_format_message() -> Seq<char> {
    "Date must be in dd/mm/yyyy format"@
}

/// Accepts a date written `dd/mm/yyyy` that exists in the calendar.
pub fn validate_date_format(date: &str) -> (r: Result<(), TaskError>)
    ensures
        unit_result_view(r) == if crate::dates::date_text_ok(date@) {
            Ok::<(), TaskErrorView>(())
        } else {
            Err(TaskErrorView::InvalidDateFormat(date_format_message()))
        },
{
    if crate::dates::is_date_text(date) {
        Ok(())
    } else {
        Err(TaskError::InvalidDateFormat(String::from_str("Date must be in dd/mm/yyyy format")))
    }
}

} // verus!
