use rusqlite::types::Value;
use rusqlite::Connection;
use to_do_cli::cli::Commands;
use to_do_cli::db::{apply_change, change_statement, create_task, restore_task, soft_delete_task, update_status, update_task_by_id, Change, SqlValue, Statement};
use to_do_cli::models::{DbError, PriorityOrder, RawRow, Task, TaskError, TaskStatus};
use to_do_cli::seed::SeedDates;
use to_do_cli::session::{begin_command, resume, Clock, Effect, Reply, Report, Step};

const SCHEMA: &str = "CREATE TABLE IF NOT EXISTS tasks (
    id              INTEGER PRIMARY KEY AUTOINCREMENT,
    title           TEXT NOT NULL,
    status          TEXT NOT NULL,
    created_at      TEXT NOT NULL,
    updated_at      TEXT,
    completed_at    TEXT,
    deleted_at      TEXT,
    due_at          TEXT,
    priority        TEXT,
    notes           TEXT
);";

fn open() -> Connection {
    let conn = Connection::open_in_memory().unwrap();
    conn.execute_batch(SCHEMA).unwrap();
    conn
}

fn load(conn: &Connection) -> Vec<RawRow> {
    let mut q = conn
        .prepare("SELECT id, title, status, created_at, updated_at, completed_at, deleted_at, due_at, priority, notes FROM tasks")
        .unwrap();
    let rows = q
        .query_map([], |r| {
            let id: i64 = r.get(0)?;
            Ok(RawRow {
                id: id as u64,
                title: r.get(1)?,
                status: r.get(2)?,
                created_at: r.get(3)?,
                updated_at: r.get(4)?,
                completed_at: r.get(5)?,
                deleted_at: r.get(6)?,
                due_at: r.get(7)?,
                priority: r.get(8)?,
                notes: r.get(9)?,
            })
        })
        .unwrap();
    rows.map(|r| r.unwrap()).collect()
}

fn execute(conn: &Connection, st: &Statement) -> Result<u64, DbError> {
    let values: Vec<Value> = st
        .params
        .iter()
        .map(|p| match p {
            SqlValue::Text(t) => Value::Text(t.clone()),
            SqlValue::Integer(n) => Value::Integer(*n as i64),
            SqlValue::Null => Value::Null,
        })
        .collect();
    conn.execute(&st.sql, rusqlite::params_from_iter(values))
        .map_err(|e| DbError::Other(format!("{:?}", e)))?;
    Ok(conn.last_insert_rowid() as u64)
}

fn clock() -> Clock {
    let d = |s: &str| s.to_string();
    Clock {
        today: d("12/03/2026"),
        tomorrow: Some(d("13/03/2026")),
        seed: Some(SeedDates {
            today: d("12/03/2026"),
            yesterday: d("11/03/2026"),
            last_week: d("05/03/2026"),
            two_weeks_ago: d("26/02/2026"),
            tomorrow: d("13/03/2026"),
            next_week: d("19/03/2026"),
            in_thirty_days: d("11/04/2026"),
            in_five_days: d("17/03/2026"),
            six_days_ago: d("06/03/2026"),
            five_days_ago: d("07/03/2026"),
        }),
    }
}

fn run(conn: &Connection, cmd: Commands) -> Report {
    let mut step = begin_command(load(conn), cmd, &clock());
    loop {
        match step {
            Step::Write(session, st) => {
                let reply = match execute(conn, &st) {
                    Ok(id) => Reply::Written(id),
                    Err(e) => Reply::Failed(e),
                };
                step = resume(session, reply);
            }
            Step::Finished(report) => return report,
        }
    }
}

fn words(s: &str) -> Vec<String> {
    s.split_whitespace().map(|w| w.to_string()).collect()
}

fn add(title: &str, priority: Option<PriorityOrder>, due: Option<&str>, notes: Option<&str>) -> Commands {
    Commands::Add {
        title: words(title),
        priority,
        due: due.map(|d| d.to_string()),
        notes: notes.map(words),
    }
}

fn list(all: bool, completed: bool, ongoing: bool, low: bool, medium: bool, high: bool, deleted: bool) -> Commands {
    Commands::List { all, completed, ongoing, low, medium, high, deleted }
}

#[test]
fn add_then_show() {
    let conn = open();
    let r = run(&conn, add("doctor appointment", Some(PriorityOrder::High), Some("15/03/2026"), Some("bring card")));
    assert_eq!(r.result, Ok(()));
    assert_eq!(
        r.lines,
        vec!["Task added successfully: Task #id: 1 -> doctor appointment [Ongoing] - Created: 12/03/2026 | Priority: High | Notes: bring card"]
    );
    let r = run(&conn, Commands::Show { id: 1 });
    assert_eq!(r.lines, vec!["Task #id: 1 -> doctor appointment [Ongoing] - Created: 12/03/2026 | Priority: High | Notes: bring card"]);
}

#[test]
fn add_refuses_blank_title_bad_date_and_duplicates() {
    let conn = open();
    let r = run(&conn, add("", None, None, None));
    assert_eq!(r.result, Err(TaskError::InvalidInput("Task title cannot be empty".to_string())));
    let r = run(&conn, add("pay bills", None, Some("2026-03-15"), None));
    assert_eq!(r.result, Err(TaskError::InvalidDateFormat("Date must be in dd/mm/yyyy format".to_string())));
    assert!(load(&conn).is_empty());
    run(&conn, add("pay bills", None, None, Some("electricity")));
    let r = run(&conn, add("pay bills", None, None, None));
    assert_eq!(r.result, Err(TaskError::DuplicateTask("Task can't have duplicate title and/or notes".to_string())));
    let r = run(&conn, add("other", None, None, Some("electricity")));
    assert!(matches!(r.result, Err(TaskError::DuplicateTask(_))));
    assert_eq!(load(&conn).len(), 1);
}

#[test]
fn list_defaults_to_ongoing() {
    let conn = open();
    run(&conn, add("one", None, None, None));
    run(&conn, add("two", None, None, None));
    run(&conn, Commands::Done { id: 1 });
    let plain = run(&conn, list(false, false, false, false, false, false, false));
    let ongoing = run(&conn, list(false, false, true, false, false, false, false));
    assert_eq!(plain.lines, ongoing.lines);
    assert_eq!(plain.lines, vec!["1. Task #id: 2 -> two [Ongoing] - Created: 12/03/2026"]);
    let all = run(&conn, list(true, false, false, false, false, false, false));
    assert_eq!(all.lines.len(), 2);
}

#[test]
fn empty_listing_fails() {
    let conn = open();
    let r = run(&conn, list(false, false, false, false, false, false, false));
    assert_eq!(r.result, Err(TaskError::NoTaskFound("No task found".to_string())));
    assert!(r.lines.is_empty());
}

#[test]
fn done_and_reopen() {
    let conn = open();
    run(&conn, add("water plants", None, None, None));
    let r = run(&conn, Commands::Done { id: 1 });
    assert_eq!(r.lines, vec!["Updated Task: Task #id: 1 -> water plants [Completed] - Created: 12/03/2026"]);
    let rows = load(&conn);
    assert_eq!(rows[0].completed_at.as_deref(), Some("12/03/2026"));
    run(&conn, Commands::Reopen { id: 1 });
    let rows = load(&conn);
    assert_eq!(rows[0].status, "Ongoing");
    assert_eq!(rows[0].completed_at, None);
    let r = run(&conn, Commands::Done { id: 9 });
    assert_eq!(r.result, Err(TaskError::DatabaseError(DbError::QueryReturnedNoRows)));
}

#[test]
fn delete_and_restore() {
    let conn = open();
    run(&conn, add("read book", None, None, None));
    let r = run(&conn, Commands::Delete { id: 1 });
    assert_eq!(r.lines, vec!["Task deleted successfully"]);
    let r = run(&conn, list(false, false, false, false, false, false, true));
    assert_eq!(r.lines, vec!["1. Task #id: 1 -> read book [Ongoing] - Created: 12/03/2026 | DELETED: 12/03/2026"]);
    let r = run(&conn, Commands::Restore { id: 1 });
    assert_eq!(r.lines, vec!["Restored Task: Task #id: 1 -> read book [Ongoing] - Created: 12/03/2026"]);
    assert_eq!(load(&conn)[0].deleted_at, None);
}

#[test]
fn purge_by_id_and_all() {
    let conn = open();
    run(&conn, add("a", None, None, None));
    run(&conn, add("b", None, None, None));
    run(&conn, add("c", None, None, None));
    run(&conn, Commands::Delete { id: 2 });
    let r = run(&conn, Commands::Purge { id: None, all: true });
    assert_eq!(r.lines, vec!["Task(s) permanently deleted"]);
    assert_eq!(load(&conn).iter().map(|r| r.id).collect::<Vec<_>>(), vec![1, 3]);
    run(&conn, Commands::Purge { id: Some(1), all: false });
    assert_eq!(load(&conn).iter().map(|r| r.id).collect::<Vec<_>>(), vec![3]);
    let r = run(&conn, Commands::Purge { id: None, all: false });
    assert_eq!(r.result, Err(TaskError::InvalidInput("Must specify either --all or a valid id".to_string())));
}

#[test]
fn update_fields() {
    let conn = open();
    run(&conn, add("draft", None, None, None));
    let r = run(
        &conn,
        Commands::Update {
            id: 1,
            title: Some(words("final report")),
            due: Some("20/03/2026".to_string()),
            priority: Some(PriorityOrder::Low),
            notes: None,
        },
    );
    assert_eq!(r.lines, vec!["Update Successful! Task: Task #id: 1 -> final report [Ongoing] - Created: 12/03/2026 | Priority: Low"]);
    let rows = load(&conn);
    assert_eq!(rows[0].due_at.as_deref(), Some("20/03/2026"));
    assert_eq!(rows[0].updated_at.as_deref(), Some("12/03/2026"));
    let r = run(&conn, Commands::Update { id: 1, title: None, due: None, priority: None, notes: None });
    assert_eq!(r.result, Err(TaskError::InvalidInput("Nothing to update".to_string())));
    let r = run(&conn, Commands::Update { id: 1, title: None, due: Some("32/01/2026".to_string()), priority: None, notes: None });
    assert!(matches!(r.result, Err(TaskError::InvalidDateFormat(_))));
    let r = run(&conn, Commands::Update { id: 5, title: None, due: None, priority: None, notes: None });
    assert_eq!(r.result, Err(TaskError::DatabaseError(DbError::QueryReturnedNoRows)));
}

#[test]
fn due_today_and_tomorrow() {
    let conn = open();
    run(&conn, add("today thing", None, Some("12/03/2026"), None));
    run(&conn, add("tomorrow thing", None, Some("13/03/2026"), None));
    run(&conn, add("later thing", None, Some("20/03/2026"), None));
    let r = run(&conn, Commands::Due { today: true, tomorrow: false });
    assert_eq!(r.lines.len(), 1);
    let r = run(&conn, Commands::Due { today: true, tomorrow: true });
    assert_eq!(r.lines.len(), 2);
    let r = run(&conn, Commands::Due { today: false, tomorrow: false });
    assert_eq!(r.result, Err(TaskError::InvalidInput("Must specify either --today or --tomorrow".to_string())));
}

#[test]
fn search_and_stats() {
    let conn = open();
    run(&conn, add("team meeting", Some(PriorityOrder::High), None, None));
    run(&conn, add("groceries", Some(PriorityOrder::Low), None, Some("for the MEETING snacks")));
    run(&conn, add("gym", None, None, None));
    let r = run(&conn, Commands::Search { search_string: words("meeting") });
    assert_eq!(r.lines.len(), 2);
    let r = run(&conn, Commands::Search { search_string: Vec::new() });
    assert_eq!(r.result, Err(TaskError::InvalidInput("Search query cannot be empty".to_string())));
    let r = run(&conn, Commands::Search { search_string: words("zzz") });
    assert_eq!(r.result, Err(TaskError::NoTaskFound("No tasks found".to_string())));
    run(&conn, Commands::Done { id: 3 });
    let r = run(&conn, Commands::Stats {});
    assert_eq!(
        r.lines,
        vec!["Total: 3", "Ongoing: 2", "Completed: 1", "High priority: 1", "Medium priority: 0", "Low priority: 1"]
    );
}

#[test]
fn stats_on_empty_table() {
    let conn = open();
    let r = run(&conn, Commands::Stats {});
    assert_eq!(r.result, Ok(()));
    assert_eq!(
        r.lines,
        vec!["Total: 0", "Ongoing: 0", "Completed: 0", "High priority: 0", "Medium priority: 0", "Low priority: 0"]
    );
}

#[test]
fn seed_inserts_samples() {
    let conn = open();
    run(&conn, add("mine", None, None, None));
    let r = run(&conn, Commands::Seed { reset: true });
    assert_eq!(r.lines, vec!["Successfully seeded database with 18 mock tasks!", "Seed complete."]);
    let rows = load(&conn);
    assert_eq!(rows.len(), 18);
    assert_eq!(rows[0].title, "Complete tax returns");
    assert_eq!(rows[17].notes.as_deref(), Some("Error message: 'Cannot read property \"name\" of undefined'"));
    let r = run(&conn, Commands::Due { today: true, tomorrow: false });
    assert_eq!(r.lines.len(), 1);
    let r = run(&conn, Commands::Stats {});
    assert_eq!(r.lines[0], "Total: 15");
}

#[test]
fn utility_commands() {
    let conn = open();
    assert_eq!(run(&conn, Commands::Help {}).effect, Effect::ShowHelp);
    assert_eq!(run(&conn, Commands::Clear {}).effect, Effect::ClearScreen);
    let r = run(&conn, Commands::Exit {});
    assert_eq!(r.effect, Effect::Quit);
    assert_eq!(r.lines, vec!["Bye Bye...👋"]);
}

#[test]
fn failed_write_fails_command() {
    let conn = open();
    run(&conn, add("x", None, None, None));
    conn.execute_batch("DROP TABLE tasks; CREATE TABLE tasks (id INTEGER PRIMARY KEY, title TEXT NOT NULL, status TEXT NOT NULL, created_at TEXT NOT NULL, updated_at TEXT, completed_at TEXT, deleted_at TEXT, due_at TEXT, priority TEXT, notes TEXT CHECK (notes IS NULL));").unwrap();
    let r = run(&conn, add("y", None, None, Some("no notes allowed")));
    assert!(matches!(r.result, Err(TaskError::DatabaseError(DbError::Other(_)))));
    assert!(r.lines.is_empty());
}

/// The rows that the database holds after each statement are those that the
/// model of the write computes.
#[test]
fn statements_do_what_the_model_says() {
    let conn = open();
    let task = |title: &str, notes: Option<&str>| Task {
        id: 0,
        title: title.to_string(),
        status: TaskStatus::Ongoing,
        created_at: String::new(),
        updated_at: None,
        completed_at: None,
        deleted_at: None,
        due_at: Some("01/04/2026".to_string()),
        priority: Some(PriorityOrder::Medium),
        notes: notes.map(|n| n.to_string()),
    };
    let changes: Vec<Change> = vec![
        create_task(&task("a", Some("x")), "10/03/2026"),
        create_task(&task("b", None), "10/03/2026"),
        create_task(&task("c", Some("z")), "11/03/2026"),
        update_status(2, TaskStatus::Completed, "12/03/2026"),
        soft_delete_task(1, "12/03/2026"),
        update_task_by_id(3, Some("c2".to_string()), None, Some(PriorityOrder::High), Some("n".to_string()), "13/03/2026").unwrap(),
        restore_task(1, "14/03/2026"),
        update_status(2, TaskStatus::Ongoing, "15/03/2026"),
        soft_delete_task(3, "15/03/2026"),
        Change::DeleteSoftDeleted,
        Change::DeleteById(1),
        create_task(&task("d", None), "16/03/2026"),
        Change::DeleteAll,
    ];
    for c in &changes {
        let before = load(&conn);
        let id = execute(&conn, &change_statement(c)).unwrap();
        let expected = apply_change(&before, c, id);
        let actual = load(&conn);
        assert_eq!(format!("{:?}", actual), format!("{:?}", expected));
    }
}
