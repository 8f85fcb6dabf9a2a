use to_do_cli::db::{
    apply_change, change_statement, check_for_redundancy, check_task_exists_by_id, create_task,
    get_all_tasks, get_deleted_tasks, get_due_tasks, get_stats, get_tasks_by_priority,
    get_tasks_by_status, purge_task, restore_task, search_by_string, show_task_by_id,
    soft_delete_task, update_status, update_task_by_id, Change, SqlValue,
};
use to_do_cli::models::{DbError, PriorityOrder, RawRow, Task, TaskError, TaskStatus};

fn row(id: u64, title: &str, status: &str) -> RawRow {
    RawRow {
        id,
        title: title.to_string(),
        status: status.to_string(),
        created_at: "01/01/2026".to_string(),
        updated_at: None,
        completed_at: None,
        deleted_at: None,
        due_at: None,
        priority: None,
        notes: None,
    }
}

fn sample() -> Vec<RawRow> {
    let mut a = row(1, "Buy milk", "Ongoing");
    a.priority = Some("High".to_string());
    a.due_at = Some("10/03/2026".to_string());
    let mut b = row(2, "Pay rent", "Completed");
    b.priority = Some("Low".to_string());
    b.notes = Some("Landlord wants cash".to_string());
    let mut c = row(3, "Old idea", "Ongoing");
    c.deleted_at = Some("05/03/2026".to_string());
    c.priority = Some("High".to_string());
    c.due_at = Some("11/03/2026".to_string());
    let mut d = row(4, "Write report", "Ongoing");
    d.notes = Some("quarterly MILK numbers".to_string());
    vec![a, b, c, d]
}

fn ids(r: Result<Vec<Task>, TaskError>) -> Vec<u64> {
    r.unwrap().iter().map(|t| t.id).collect()
}

fn new_task(title: &str, notes: Option<&str>) -> Task {
    Task {
        id: 0,
        title: title.to_string(),
        status: TaskStatus::Ongoing,
        created_at: String::new(),
        updated_at: None,
        completed_at: None,
        deleted_at: None,
        due_at: Some("20/03/2026".to_string()),
        priority: Some(PriorityOrder::Medium),
        notes: notes.map(|n| n.to_string()),
    }
}

#[test]
fn by_status() {
    let rows = sample();
    assert_eq!(ids(get_tasks_by_status(&rows, false, false, true)), vec![1, 4]);
    assert_eq!(ids(get_tasks_by_status(&rows, true, false, true)), vec![1, 3, 4]);
    assert_eq!(ids(get_tasks_by_status(&rows, false, true, false)), vec![2]);
    assert_eq!(
        get_tasks_by_status(&rows, false, false, false).unwrap_err(),
        TaskError::InvalidInput("Must specify either completed or ongoing".to_string())
    );
}

#[test]
fn by_priority() {
    let rows = sample();
    assert_eq!(ids(get_tasks_by_priority(&rows, false, false, true, false)), vec![1]);
    assert_eq!(ids(get_tasks_by_priority(&rows, false, false, true, true)), vec![1, 3]);
    assert_eq!(ids(get_tasks_by_priority(&rows, true, false, false, false)), vec![2]);
    assert_eq!(ids(get_tasks_by_priority(&rows, false, true, false, false)), Vec::<u64>::new());
    assert_eq!(
        get_tasks_by_priority(&rows, false, false, false, false).unwrap_err(),
        TaskError::InvalidInput("Must specify either low, medium or high".to_string())
    );
}

#[test]
fn all_and_deleted() {
    let rows = sample();
    assert_eq!(ids(get_all_tasks(&rows)), vec![1, 2, 4]);
    assert_eq!(ids(get_deleted_tasks(&rows, false)), vec![3]);
    assert_eq!(ids(get_deleted_tasks(&rows, true)), vec![1, 2, 3, 4]);
}

#[test]
fn unreadable_row_fails_listing() {
    let mut rows = sample();
    rows.push(row(5, "Strange", "Paused"));
    assert_eq!(get_all_tasks(&rows).unwrap_err(), TaskError::DatabaseError(DbError::InvalidQuery));
    // Not selected, so not read.
    assert_eq!(ids(get_tasks_by_status(&rows, false, false, true)), vec![1, 4]);
}

#[test]
fn due_dates() {
    let rows = sample();
    let today = Some("10/03/2026".to_string());
    let tomorrow = Some("11/03/2026".to_string());
    assert_eq!(ids(get_due_tasks(&rows, true, false, &today, &tomorrow)), vec![1]);
    assert_eq!(ids(get_due_tasks(&rows, false, true, &today, &tomorrow)), vec![3]);
    assert_eq!(ids(get_due_tasks(&rows, true, true, &today, &tomorrow)), vec![1, 3]);
    assert_eq!(ids(get_due_tasks(&rows, false, true, &today, &None)), Vec::<u64>::new());
    assert_eq!(
        get_due_tasks(&rows, false, false, &today, &tomorrow).unwrap_err(),
        TaskError::InvalidInput("Must specify either --today or --tomorrow".to_string())
    );
}

#[test]
fn search_titles_and_notes() {
    let rows = sample();
    assert_eq!(ids(search_by_string(&rows, "milk")), vec![1, 4]);
    assert_eq!(ids(search_by_string(&rows, "RENT")), vec![2]);
    assert_eq!(ids(search_by_string(&rows, "cash")), vec![2]);
    assert_eq!(ids(search_by_string(&rows, "idea")), vec![3]);
    assert_eq!(ids(search_by_string(&rows, "nothing here")), Vec::<u64>::new());
    assert_eq!(ids(search_by_string(&rows, "B_y")), vec![1]);
}

#[test]
fn show_and_exists() {
    let rows = sample();
    assert_eq!(show_task_by_id(&rows, 2).unwrap().title, "Pay rent");
    assert_eq!(
        show_task_by_id(&rows, 9).unwrap_err(),
        TaskError::DatabaseError(DbError::QueryReturnedNoRows)
    );
    assert!(check_task_exists_by_id(&rows, 3).is_ok());
    assert_eq!(
        check_task_exists_by_id(&rows, 9).unwrap_err(),
        TaskError::DatabaseError(DbError::QueryReturnedNoRows)
    );
}

#[test]
fn redundancy() {
    let rows = sample();
    let dup = TaskError::DuplicateTask("Task can't have duplicate title and/or notes".to_string());
    assert_eq!(check_for_redundancy(&rows, &new_task("Buy milk", None)).unwrap_err(), dup);
    assert_eq!(check_for_redundancy(&rows, &new_task("Other", Some("Landlord wants cash"))).unwrap_err(), dup);
    assert!(check_for_redundancy(&rows, &new_task("buy milk", None)).is_ok());
    assert!(check_for_redundancy(&rows, &new_task("Other", Some("fresh notes"))).is_ok());
    // A deleted task still counts.
    assert_eq!(check_for_redundancy(&rows, &new_task("Old idea", None)).unwrap_err(), dup);
}

#[test]
fn stats_counts() {
    let rows = sample();
    assert_eq!(get_stats(&rows).unwrap(), vec![3, 2, 1, 1, 0, 1]);
}

#[test]
fn stats_of_empty_table_are_zeros() {
    assert_eq!(get_stats(&Vec::new()).unwrap(), vec![0, 0, 0, 0, 0, 0]);
}

#[test]
fn stats_add_up() {
    let rows = sample();
    let s = get_stats(&rows).unwrap();
    assert_eq!(s[1] + s[2], s[0]);
    assert!(s[3] + s[4] + s[5] <= s[0]);
}

#[test]
fn added_task_reads_back() {
    let rows = sample();
    let task = new_task("Plan trip", Some("Book hotel"));
    let change = create_task(&task, "12/03/2026");
    let after = apply_change(&rows, &change, 5);
    let back = show_task_by_id(&after, 5).unwrap();
    assert_eq!(back.title, "Plan trip");
    assert_eq!(back.status, TaskStatus::Ongoing);
    assert_eq!(back.created_at, "12/03/2026");
    assert_eq!(back.due_at, Some("20/03/2026".to_string()));
    assert_eq!(back.priority, Some(PriorityOrder::Medium));
    assert_eq!(back.notes, Some("Book hotel".to_string()));
    assert_eq!(back.updated_at, None);
}

#[test]
fn delete_then_restore() {
    let rows = sample();
    let deleted = apply_change(&rows, &soft_delete_task(1, "12/03/2026"), 0);
    assert_eq!(ids(get_all_tasks(&deleted)), vec![2, 4]);
    assert_eq!(ids(get_deleted_tasks(&deleted, false)), vec![1, 3]);
    let restored = apply_change(&deleted, &restore_task(1, "13/03/2026"), 0);
    let t = show_task_by_id(&restored, 1).unwrap();
    assert_eq!(t.deleted_at, None);
    assert_eq!(t.updated_at, Some("13/03/2026".to_string()));
    assert_eq!(t.title, "Buy milk");
    assert_eq!(ids(get_all_tasks(&restored)), vec![1, 2, 4]);
}

#[test]
fn done_then_reopen() {
    let rows = sample();
    let done = apply_change(&rows, &update_status(1, TaskStatus::Completed, "12/03/2026"), 0);
    let t = show_task_by_id(&done, 1).unwrap();
    assert_eq!(t.status, TaskStatus::Completed);
    assert_eq!(t.completed_at, Some("12/03/2026".to_string()));
    let reopened = apply_change(&done, &update_status(1, TaskStatus::Ongoing, "13/03/2026"), 0);
    let t = show_task_by_id(&reopened, 1).unwrap();
    assert_eq!(t.status, TaskStatus::Ongoing);
    assert_eq!(t.completed_at, None);
    assert_eq!(t.updated_at, Some("13/03/2026".to_string()));
}

#[test]
fn purge() {
    let rows = sample();
    let gone = apply_change(&rows, &purge_task(&rows, Some(2), false).unwrap(), 0);
    assert_eq!(ids(get_deleted_tasks(&gone, true)), vec![1, 3, 4]);
    let cleaned = apply_change(&rows, &purge_task(&rows, None, true).unwrap(), 0);
    assert_eq!(ids(get_deleted_tasks(&cleaned, false)), Vec::<u64>::new());
    assert_eq!(ids(get_all_tasks(&cleaned)), ids(get_all_tasks(&rows)));
    assert!(matches!(purge_task(&rows, Some(9), false), Err(TaskError::DatabaseError(DbError::QueryReturnedNoRows))));
    assert_eq!(
        purge_task(&rows, None, false).err(),
        Some(TaskError::InvalidInput("Must specify either --all or a valid id".to_string()))
    );
}

#[test]
fn update_sql_text() {
    let c = update_task_by_id(
        4,
        Some("New title".to_string()),
        None,
        Some(PriorityOrder::High),
        None,
        "12/03/2026",
    )
    .unwrap();
    let st = change_statement(&c);
    assert_eq!(st.sql, "UPDATE tasks SET title = ?, priority = ?, updated_at = ? WHERE id = ?");
    assert_eq!(st.params.len(), 4);
    assert!(matches!(&st.params[0], SqlValue::Text(t) if t == "New title"));
    assert!(matches!(&st.params[1], SqlValue::Text(t) if t == "High"));
    assert!(matches!(&st.params[2], SqlValue::Text(t) if t == "12/03/2026"));
    assert!(matches!(&st.params[3], SqlValue::Integer(4)));
}

#[test]
fn update_needs_a_field() {
    assert_eq!(
        update_task_by_id(4, None, None, None, None, "12/03/2026").err(),
        Some(TaskError::InvalidInput("Nothing to update".to_string()))
    );
}

#[test]
fn update_changes_only_given_fields() {
    let rows = sample();
    let c = update_task_by_id(2, None, Some("01/04/2026".to_string()), None, None, "12/03/2026").unwrap();
    let after = apply_change(&rows, &c, 0);
    let t = show_task_by_id(&after, 2).unwrap();
    assert_eq!(t.due_at, Some("01/04/2026".to_string()));
    assert_eq!(t.title, "Pay rent");
    assert_eq!(t.notes, Some("Landlord wants cash".to_string()));
    assert_eq!(show_task_by_id(&after, 1).unwrap().due_at, Some("10/03/2026".to_string()));
}

#[test]
fn status_sql_text() {
    let st = change_statement(&update_status(7, TaskStatus::Ongoing, "12/03/2026"));
    assert_eq!(st.sql, "UPDATE tasks SET status = ?, updated_at = ?, completed_at = NULL WHERE id = ?");
    assert_eq!(st.params.len(), 3);
    let st = change_statement(&soft_delete_task(7, "12/03/2026"));
    assert_eq!(st.sql, "UPDATE tasks SET deleted_at = ?, updated_at = ? WHERE id = ?");
    let st = change_statement(&Change::DeleteSoftDeleted);
    assert_eq!(st.sql, "DELETE FROM tasks WHERE deleted_at IS NOT NULL");
    assert!(st.params.is_empty());
}

#[test]
fn ongoing_and_completed_share_out_the_live_tasks() {
    let rows = sample();
    let mut both = ids(get_tasks_by_status(&rows, false, false, true));
    let completed = ids(get_tasks_by_status(&rows, false, true, false));
    assert_eq!(both, vec![1, 4]);
    assert_eq!(completed, vec![2]);
    both.extend(completed);
    both.sort();
    assert_eq!(both, ids(get_all_tasks(&rows)));
}

#[test]
fn live_and_deleted_make_every_task() {
    let rows = sample();
    let live = ids(get_all_tasks(&rows));
    let deleted = ids(get_deleted_tasks(&rows, false));
    assert_eq!(deleted, vec![3]);
    assert!(live.iter().all(|i| !deleted.contains(i)));
    let mut together = live;
    together.extend(deleted);
    together.sort();
    assert_eq!(together, ids(get_deleted_tasks(&rows, true)));
}

#[test]
fn search_finds_only_tasks_holding_the_key() {
    let rows = sample();
    let found = search_by_string(&rows, "milk").unwrap();
    assert_eq!(found.iter().map(|t| t.id).collect::<Vec<_>>(), vec![1, 4]);
    for t in &found {
        let in_title = t.title.to_lowercase().contains("milk");
        let in_notes = t.notes.as_deref().map_or(false, |n| n.to_lowercase().contains("milk"));
        assert!(in_title || in_notes);
    }
}
