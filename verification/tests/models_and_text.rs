use to_do_cli::dates::{is_date_text, CalendarDate};
use to_do_cli::db::validate_date_format;
use to_do_cli::like::like_match;
use to_do_cli::models::{
    parse_all_columns, same_text, DbError, PriorityOrder, RawRow, Task, TaskError, TaskStatus,
};
use to_do_cli::text::{decimal_string, is_blank, join_words, split_words};

fn row(id: u64, title: &str, status: &str, priority: Option<&str>) -> RawRow {
    RawRow {
        id,
        title: title.to_string(),
        status: status.to_string(),
        created_at: "01/01/2026".to_string(),
        updated_at: None,
        completed_at: None,
        deleted_at: None,
        due_at: None,
        priority: priority.map(|p| p.to_string()),
        notes: None,
    }
}

#[test]
fn status_names() {
    assert_eq!(TaskStatus::Ongoing.as_str(), "Ongoing");
    assert_eq!(TaskStatus::Completed.as_str(), "Completed");
    assert_eq!(TaskStatus::parse("Completed"), Some(TaskStatus::Completed));
    assert_eq!(TaskStatus::parse("completed"), None);
}

#[test]
fn priority_names() {
    assert_eq!(PriorityOrder::High.as_str(), "High");
    assert_eq!(PriorityOrder::Medium.as_str(), "Medium");
    assert_eq!(PriorityOrder::Low.as_str(), "Low");
    assert_eq!(PriorityOrder::parse("Medium"), Some(PriorityOrder::Medium));
    assert_eq!(PriorityOrder::parse("Urgent"), None);
}

#[test]
fn names_read_back() {
    for s in [TaskStatus::Ongoing, TaskStatus::Completed] {
        assert_eq!(TaskStatus::parse(s.as_str()), Some(s));
    }
    for p in [PriorityOrder::Low, PriorityOrder::Medium, PriorityOrder::High] {
        assert_eq!(PriorityOrder::parse(p.as_str()), Some(p));
    }
}

#[test]
fn parse_row_with_known_status() {
    let t = parse_all_columns(&row(7, "Buy milk", "Completed", Some("Low"))).unwrap();
    assert_eq!(t.id, 7);
    assert_eq!(t.title, "Buy milk");
    assert_eq!(t.status, TaskStatus::Completed);
    assert_eq!(t.priority, Some(PriorityOrder::Low));
}

#[test]
fn parse_row_unknown_priority_is_none() {
    let t = parse_all_columns(&row(1, "x", "Ongoing", Some("Urgent"))).unwrap();
    assert_eq!(t.priority, None);
}

#[test]
fn parse_row_unknown_status_fails() {
    assert_eq!(parse_all_columns(&row(1, "x", "Paused", None)).unwrap_err(), DbError::InvalidQuery);
}

#[test]
fn display_plain_task() {
    let t = parse_all_columns(&row(12, "Buy milk", "Ongoing", None)).unwrap();
    assert_eq!(t.display(), "Task #id: 12 -> Buy milk [Ongoing] - Created: 01/01/2026");
}

#[test]
fn display_full_task() {
    let t = Task {
        id: 3,
        title: "Call mom".to_string(),
        status: TaskStatus::Completed,
        created_at: "02/02/2026".to_string(),
        updated_at: Some("03/02/2026".to_string()),
        completed_at: Some("03/02/2026".to_string()),
        deleted_at: Some("04/02/2026".to_string()),
        due_at: None,
        priority: Some(PriorityOrder::High),
        notes: Some("birthday".to_string()),
    };
    assert_eq!(
        t.display(),
        "Task #id: 3 -> Call mom [Completed] - Created: 02/02/2026 | Priority: High | Notes: birthday | DELETED: 04/02/2026"
    );
}

#[test]
fn decimal_numbers() {
    assert_eq!(decimal_string(0), "0");
    assert_eq!(decimal_string(7), "7");
    assert_eq!(decimal_string(1050), "1050");
    assert_eq!(decimal_string(u64::MAX), u64::MAX.to_string());
}

#[test]
fn readme_date_examples() {
    assert!(validate_date_format("15/03/2026").is_ok());
    assert!(matches!(validate_date_format("2026-03-15"), Err(TaskError::InvalidDateFormat(_))));
    assert!(matches!(validate_date_format("03/15/2026"), Err(TaskError::InvalidDateFormat(_))));
}

#[test]
fn calendar_edges() {
    assert!(is_date_text("29/02/2024"));
    assert!(!is_date_text("29/02/2023"));
    assert!(is_date_text("29/02/2000"));
    assert!(!is_date_text("29/02/1900"));
    assert!(is_date_text("31/12/1999"));
    assert!(!is_date_text("31/04/2026"));
    assert!(!is_date_text("00/01/2026"));
    assert!(!is_date_text("1/3/2026"));
    assert!(!is_date_text("15/03/26"));
    assert!(!is_date_text(""));
}

#[test]
fn date_error_message() {
    assert_eq!(
        validate_date_format("tomorrow"),
        Err(TaskError::InvalidDateFormat("Date must be in dd/mm/yyyy format".to_string()))
    );
}

#[test]
fn calendar_date_is_plain_value() {
    let d = CalendarDate { year: 2026, month: 3, day: 15 };
    assert_eq!(d, CalendarDate { year: 2026, month: 3, day: 15 });
}

#[test]
fn split_line_into_words() {
    assert_eq!(split_words("  add  team meeting\t--priority high \n"), vec!["add", "team", "meeting", "--priority", "high"]);
    assert!(split_words("   ").is_empty());
    assert_eq!(split_words("a\u{3000}b"), vec!["a", "b"]);
}

#[test]
fn split_agrees_with_std() {
    for line in ["x", " x y ", "\u{85}a\u{2028}b\u{a0}c", "multi   word   title"] {
        let ours = split_words(line);
        let std: Vec<String> = line.split_whitespace().map(|w| w.to_string()).collect();
        assert_eq!(ours, std);
    }
}

#[test]
fn join_and_blank() {
    let words = vec!["doctor".to_string(), "appointment".to_string()];
    assert_eq!(join_words(&words, " "), "doctor appointment");
    assert_eq!(join_words(&Vec::new(), " "), "");
    assert!(is_blank(" \t "));
    assert!(is_blank(""));
    assert!(!is_blank(" a "));
}

#[test]
fn same_text_compares_characters() {
    assert!(same_text("abc", "abc"));
    assert!(!same_text("abc", "abd"));
    assert!(!same_text("abc", "ab"));
}

#[test]
fn like_is_case_insensitive_for_ascii() {
    assert!(like_match("%MEETING%", "Team meeting"));
    assert!(like_match("%meeting%", "TEAM MEETING"));
    assert!(!like_match("%é%", "É"));
}

#[test]
fn like_wildcards() {
    assert!(like_match("a_c", "abc"));
    assert!(!like_match("a_c", "ac"));
    assert!(like_match("a%c", "ac"));
    assert!(like_match("a%c", "abbbc"));
    assert!(!like_match("a%c", "abbbd"));
    assert!(like_match("%", ""));
    assert!(!like_match("", "a"));
    assert!(like_match("%50%%", "save 50% now"));
}

#[test]
fn split_undoes_join() {
    let ws: Vec<String> = vec!["team".into(), "meeting".into(), "--priority".into(), "high".into()];
    assert_eq!(split_words(&join_words(&ws, " ")), ws);
    assert!(split_words(&join_words(&Vec::new(), " ")).is_empty());
}
