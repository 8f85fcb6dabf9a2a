use vstd::prelude::*;
use crate::text::{decimal, decimal_string};

verus! {

/// Whether a task is still to be done.
#[derive(Clone, Copy, Debug, PartialEq, Eq, Structural)]
pub enum TaskStatus {
    Ongoing,
    Completed,
}

/// The characters of `"Ongoing"`.
pub open spec fn ongoing_chars() -> Seq<char> {
    seq!['O', 'n', 'g', 'o', 'i', 'n', 'g']
}

/// The characters of `"Completed"`.
pub open spec fn completed_chars() -> Seq<char> {
    seq!['C', 'o', 'm', 'p', 'l', 'e', 't', 'e', 'd']
}

impl TaskStatus {
    /// The name under which a status is stored and shown.
    pub open spec fn name(self) -> Seq<char> {
        match self {
            TaskStatus::Ongoing => ongoing_chars(),
            TaskStatus::Completed => completed_chars(),
        }
    }

    pub fn as_str(&self) -> (s: &'static str)
        ensures
            s@ == self.name(),
    {
        match self {
            TaskStatus::Ongoing => {
                proof {
                    reveal_strlit("Ongoing");
                }
                "Ongoing"
            },
            TaskStatus::Completed => {
                proof {
                    reveal_strlit("Completed");
                }
                "Completed"
            },
        }
    }
}

impl TaskStatus {
    /// The status stored under a name, if any.
    pub open spec fn from_name(name: Seq<char>) -> Option<TaskStatus> {
        if name == ongoing_chars() {
            Some(TaskStatus::Ongoing)
        } else if name == completed_chars() {
            Some(TaskStatus::Completed)
        } else {
            None
        }
    }

    pub fn parse(name: &str) -> (r: Option<TaskStatus>)
        ensures
            r == TaskStatus::from_name(name@),
    {
        if same_text(name, TaskStatus::Ongoing.as_str()) {
            Some(TaskStatus::Ongoing)
        } else if same_text(name, TaskStatus::Completed.as_str()) {
            Some(TaskStatus::Completed)
        } else {
            None
        }
    }
}

/// How urgent a task is.
#[derive(Clone, Copy, Debug, PartialEq, Eq, Structural)]
pub enum PriorityOrder {
    Low,
    Medium,
    High,
}

impl PriorityOrder {
    /// The name under which a priority is stored and shown.
    pub open spec fn name(self) -> Seq<char> {
        match self {
            PriorityOrder::High => seq!['H', 'i', 'g', 'h'],
            PriorityOrder::Medium => seq!['M', 'e', 'd', 'i', 'u', 'm'],
            PriorityOrder::Low => seq!['L', 'o', 'w'],
        }
    }

    pub fn as_str(&self) -> (s: &'static str)
        ensures
            s@ == self.name(),
    {
        match self {
            PriorityOrder::High => {
                proof {
                    reveal_strlit("High");
                }
                "High"
            },
            PriorityOrder::Medium => {
                proof {
                    reveal_strlit("Medium");
                }
                "Medium"
            },
            PriorityOrder::Low => {
                proof {
                    reveal_strlit("Low");
                }
                "Low"
            },
        }
    }

    /// The priority stored under a name, if any.
    pub open spec fn from_name(name: Seq<char>) -> Option<PriorityOrder> {
        if name == PriorityOrder::High.name() {
            Some(PriorityOrder::High)
        } else if name == PriorityOrder::Medium.name() {
            Some(PriorityOrder::Medium)
        } else if name == PriorityOrder::Low.name() {
            Some(PriorityOrder::Low)
        } else {
            None
        }
    }

    pub fn parse(name: &str) -> (r: Option<PriorityOrder>)
        ensures
            r == PriorityOrder::from_name(name@),
    {
        if same_text(name, PriorityOrder::High.as_str()) {
            Some(PriorityOrder::High)
        } else if same_text(name, PriorityOrder::Medium.as_str()) {
            Some(PriorityOrder::Medium)
        } else if same_text(name, PriorityOrder::Low.as_str()) {
            Some(PriorityOrder::Low)
        } else {
            None
        }
    }
}

/// Whether two texts hold the same characters.
pub fn same_text(a: &str, b: &str) -> (r: bool)
    ensures
        r == (a@ == b@),
{
    let n = a.unicode_len();
    let m = b.unicode_len();
    if n != m {
        return false;
    }
    let mut i: usize = 0;
    while i < n
        invariant
            n == a@.len(),
            m == b@.len(),
            n == m,
            i <= n,
            forall|j: int| 0 <= j < i ==> a@[j] == b@[j],
        decreases n - i,
    {
        if a.get_char(i) != b.get_char(i) {
            return false;
        }
        i = i + 1;
    }
    proof {
        assert(a@ =~= b@);
    }
    true
}

/// The view of an optional text.
pub open spec fn opt_view(o: Option<String>) -> Option<Seq<char>> {
    match o {
        Some(s) => Some(s@),
        None => None,
    }
}

pub fn clone_opt(o: &Option<String>) -> (r: Option<String>)
    ensures
        opt_view(r) == opt_view(*o),
{
    match o {
        Some(s) => Some(s.clone()),
        None => None,
    }
}

/// A task as the contracts see it.
pub struct TaskView {
    pub id: u64,
    pub title: Seq<char>,
    pub status: TaskStatus,
    pub created_at: Seq<char>,
    pub updated_at: Option<Seq<char>>,
    pub completed_at: Option<Seq<char>>,
    pub deleted_at: Option<Seq<char>>,
    pub due_at: Option<Seq<char>>,
    pub priority: Option<PriorityOrder>,
    pub notes: Option<Seq<char>>,
}

/// A task: a row of the table with its status and priority understood.
#[derive(Debug, Clone)]
pub struct Task {
    pub id: u64,
    pub title: String,
    pub status: TaskStatus,
    pub created_at: String,
    pub updated_at: Option<String>,
    pub completed_at: Option<String>,
    pub deleted_at: Option<String>,
    pub due_at: Option<String>,
    pub priority: Option<PriorityOrder>,
    pub notes: Option<String>,
}

impl View for Task {
    type V = TaskView;

    open spec fn view(&self) -> TaskView {
        TaskView {
            id: self.id,
            title: self.title@,
            status: self.status,
            created_at: self.created_at@,
            updated_at: opt_view(self.updated_at),
            completed_at: opt_view(self.completed_at),
            deleted_at: opt_view(self.deleted_at),
            due_at: opt_view(self.due_at),
            priority: self.priority,
            notes: opt_view(self.notes),
        }
    }
}

/// The text that shows a task on one line.
pub open spec fn display_text(t: TaskView) -> Seq<char> {
    "Task #id: "@ + decimal(t.id as nat) + " -> "@ + t.title + " ["@ + t.status.name()
        + "] - Created"@ + ": "@ + t.created_at + match t.priority {
        Some(p) => " | Priority: "@ + p.name(),
        None => Seq::empty(),
    } + match t.notes {
        Some(n) => " | Notes: "@ + n,
        None => Seq::empty(),
    } + match t.deleted_at {
        Some(d) => " | DELETED: "@ + d,
        None => Seq::empty(),
    }
}

impl Task {
    /// The task as the listings print it.
    pub fn display(&self) -> (s: String)
        ensures
            s@ == display_text(self@),
    {
        let mut s = String::new();
        s.append("Task #id: ");
        let id = decimal_string(self.id);
        s.append(id.as_str());
        s.append(" -> ");
        s.append(self.title.as_str());
        s.append(" [");
        s.append(self.status.as_str());
        s.append("] - Created");
        s.append(": ");
        s.append(self.created_at.as_str());
        let ghost head = s@;
        match &self.priority {
            Some(p) => {
                s.append(" | Priority: ");
                s.append(p.as_str());
            },
            None => {},
        }
        let ghost with_priority = s@;
        match &self.notes {
            Some(n) => {
                s.append(" | Notes: ");
                s.append(n.as_str());
            },
            None => {},
        }
        let ghost with_notes = s@;
        match &self.deleted_at {
            Some(d) => {
                s.append(" | DELETED: ");
                s.append(d.as_str());
            },
            None => {},
        }
        proof {
            let t = self@;
            let pp = match t.priority {
                Some(p) => " | Priority: "@ + p.name(),
                None => Seq::<char>::empty(),
            };
            let np = match t.notes {
                Some(n) => " | Notes: "@ + n,
                None => Seq::<char>::empty(),
            };
            let dp = match t.deleted_at {
                Some(d) => " | DELETED: "@ + d,
                None => Seq::<char>::empty(),
            };
            assert(with_priority =~= head + pp);
            assert(with_notes =~= head + pp + np);
            assert(s@ =~= head + pp + np + dp);
        }
        s
    }
}

/// What went wrong when reading or writing the table.
#[derive(Debug, Clone, PartialEq, Eq)]
pub enum DbError {
    /// A lookup found no row.
    QueryReturnedNoRows,
    /// A row holds a status that no task can have.
    InvalidQuery,
    /// Any other failure of the database, described by the text.
    Other(String),
}

/// Why a command did not do what it was asked.
#[derive(Debug, Clone, PartialEq, Eq)]
pub enum TaskError {
    DatabaseError(DbError),
    InvalidInput(String),
    DuplicateTask(String),
    InvalidDateFormat(String),
    NoTaskFound(String),
}

/// A database failure as the contracts see it.
pub enum DbErrorView {
    QueryReturnedNoRows,
    InvalidQuery,
    Other(Seq<char>),
}

impl View for DbError {
    type V = DbErrorView;

    open spec fn view(&self) -> DbErrorView {
        match self {
            DbError::QueryReturnedNoRows => DbErrorView::QueryReturnedNoRows,
            DbError::InvalidQuery => DbErrorView::InvalidQuery,
            DbError::Other(m) => DbErrorView::Other(m@),
        }
    }
}

/// A command's failure as the contracts see it.
pub enum TaskErrorView {
    DatabaseError(DbErrorView),
    InvalidInput(Seq<char>),
    DuplicateTask(Seq<char>),
    InvalidDateFormat(Seq<char>),
    NoTaskFound(Seq<char>),
}

impl View for TaskError {
    type V = TaskErrorView;

    open spec fn view(&self) -> TaskErrorView {
        match self {
            TaskError::DatabaseError(e) => TaskErrorView::DatabaseError(e@),
            TaskError::InvalidInput(m) => TaskErrorView::InvalidInput(m@),
            TaskError::DuplicateTask(m) => TaskErrorView::DuplicateTask(m@),
            TaskError::InvalidDateFormat(m) => TaskErrorView::InvalidDateFormat(m@),
            TaskError::NoTaskFound(m) => TaskErrorView::NoTaskFound(m@),
        }
    }
}

/// A row of the `tasks` table as the contracts see it.
pub struct RowView {
    pub id: u64,
    pub title: Seq<char>,
    pub status: Seq<char>,
    pub created_at: Seq<char>,
    pub updated_at: Option<Seq<char>>,
    pub completed_at: Option<Seq<char>>,
    pub deleted_at: Option<Seq<char>>,
    pub due_at: Option<Seq<char>>,
    pub priority: Option<Seq<char>>,
    pub notes: Option<Seq<char>>,
}

/// A row of the `tasks` table, every column as it is stored.
#[derive(Debug, Clone)]
pub struct RawRow {
    pub id: u64,
    pub title: String,
    pub status: String,
    pub created_at: String,
    pub updated_at: Option<String>,
    pub completed_at: Option<String>,
    pub deleted_at: Option<String>,
    pub due_at: Option<String>,
    pub priority: Option<String>,
    pub notes: Option<String>,
}

impl View for RawRow {
    type V = RowView;

    open spec fn view(&self) -> RowView {
        RowView {
            id: self.id,
            title: self.title@,
            status: self.status@,
            created_at: self.created_at@,
            updated_at: opt_view(self.updated_at),
            completed_at: opt_view(self.completed_at),
            deleted_at: opt_view(self.deleted_at),
            due_at: opt_view(self.due_at),
            priority: opt_view(self.priority),
            notes: opt_view(self.notes),
        }
    }
}

/// The views of a list of rows.
pub open spec fn rows_view(rows: Seq<RawRow>) -> Seq<RowView> {
    rows.map_values(|r: RawRow| r@)
}

/// The views of a list of tasks.
pub open spec fn tasks_view(tasks: Seq<Task>) -> Seq<TaskView> {
    tasks.map_values(|t: Task| t@)
}

/// A priority stored as text: a known name gives the priority, any other
/// text none.
pub open spec fn stored_priority(p: Option<Seq<char>>) -> Option<PriorityOrder> {
    match p {
        Some(name) => PriorityOrder::from_name(name),
        None => None,
    }
}

/// The task a row holds, or `None` where its status is no known status.
pub open spec fn row_task(r: RowView) -> Option<TaskView> {
    match TaskStatus::from_name(r.status) {
        Some(status) => Some(
            TaskView {
                id: r.id,
                title: r.title,
                status,
                created_at: r.created_at,
                updated_at: r.updated_at,
                completed_at: r.completed_at,
                deleted_at: r.deleted_at,
                due_at: r.due_at,
                priority: stored_priority(r.priority),
                notes: r.notes,
            },
        ),
        None => None,
    }
}

/// Reads a row as a task: the status must be a known status, and a priority
/// that is no known priority reads as none.
pub fn parse_all_columns(row: &RawRow) -> (r: Result<Task, DbError>)
    ensures
        match row_task(row@) {
            Some(t) => r matches Ok(task) && task@ == t,
            None => r matches Err(e) && e@ == DbErrorView::InvalidQuery,
        },
{
    let status = match TaskStatus::parse(row.status.as_str()) {
        Some(s) => s,
        None => {
            return Err(DbError::InvalidQuery);
        },
    };
    let priority = match &row.priority {
        Some(p) => PriorityOrder::parse(p.as_str()),
        None => None,
    };
    Ok(
        Task {
            id: row.id,
            title: row.title.clone(),
            status,
            created_at: row.created_at.clone(),
            updated_at: clone_opt(&row.updated_at),
            completed_at: clone_opt(&row.completed_at),
            deleted_at: clone_opt(&row.deleted_at),
            due_at: clone_opt(&row.due_at),
            priority,
            notes: clone_opt(&row.notes),
        },
    )
}

} // verus!
