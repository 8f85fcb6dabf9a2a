use to_do_cli::dates::{day_of, format_date, is_date_text, local_offset_at, shift_days, unix_now, CalendarDate};
use to_do_cli::db::Change;
use to_do_cli::models::TaskStatus;
use to_do_cli::seed::{local_day_text, sample_offsets, seed_database, seed_dates};
use to_do_cli::session::read_clock;

fn day(year: i32, month: u32, day: u32) -> CalendarDate {
    CalendarDate { year, month, day }
}

#[test]
fn format_pads_day_month_and_year() {
    assert_eq!(format_date(day(2026, 3, 5)), "05/03/2026");
    assert_eq!(format_date(day(987, 11, 30)), "30/11/0987");
}

#[test]
fn written_dates_pass_the_check() {
    for d in [day(2024, 2, 29), day(1, 1, 1), day(9999, 12, 31), day(2026, 3, 15)] {
        assert!(is_date_text(&format_date(d)));
    }
}

#[test]
fn shifting_days() {
    assert_eq!(shift_days(day(2024, 2, 28), 1), Some(day(2024, 2, 29)));
    assert_eq!(shift_days(day(2023, 12, 31), 1), Some(day(2024, 1, 1)));
    assert_eq!(shift_days(day(2026, 3, 12), -14), Some(day(2026, 2, 26)));
    assert_eq!(shift_days(day(262142, 12, 31), 1), None);
}

/// Noon UTC on 12/03/2026.
const NOON: i64 = 1773316800;

#[test]
fn days_of_instants() {
    assert_eq!(day_of(0), Some(day(1970, 1, 1)));
    assert_eq!(day_of(86399), Some(day(1970, 1, 1)));
    assert_eq!(day_of(-1), Some(day(1969, 12, 31)));
    assert_eq!(day_of(-86400), Some(day(1969, 12, 31)));
    assert_eq!(day_of(-86401), Some(day(1969, 12, 30)));
    assert_eq!(day_of(NOON), Some(day(2026, 3, 12)));
    assert_eq!(day_of(i64::MAX), None);
}

#[test]
fn clock_days_are_written_dates() {
    let now = unix_now();
    assert!(day_of(now).is_some());
    assert!(local_offset_at(now).abs() < 86400);
    let offs = sample_offsets(now);
    assert_eq!(offs.len(), 10);
    let clock = read_clock();
    assert!(is_date_text(&clock.today));
    assert!(is_date_text(clock.tomorrow.as_deref().unwrap()));
    assert_ne!(clock.today, clock.tomorrow.clone().unwrap());
    assert!(is_date_text(&clock.seed.unwrap().today));
}

#[test]
fn sample_dates() {
    let d = seed_dates(NOON, &vec![0; 10]).unwrap();
    assert_eq!(d.today, "12/03/2026");
    assert_eq!(d.yesterday, "11/03/2026");
    assert_eq!(d.last_week, "05/03/2026");
    assert_eq!(d.two_weeks_ago, "26/02/2026");
    assert_eq!(d.tomorrow, "13/03/2026");
    assert_eq!(d.next_week, "19/03/2026");
    assert_eq!(d.in_thirty_days, "11/04/2026");
    assert_eq!(d.in_five_days, "17/03/2026");
    assert_eq!(d.six_days_ago, "06/03/2026");
    assert_eq!(d.five_days_ago, "07/03/2026");
    assert!(seed_dates(i64::MAX, &vec![0; 10]).is_none());
}

#[test]
fn local_days_follow_the_offset() {
    assert_eq!(local_day_text(NOON, 0, 12 * 3600).as_deref(), Some("13/03/2026"));
    assert_eq!(local_day_text(NOON, 0, -12 * 3600 - 1).as_deref(), Some("11/03/2026"));
    assert_eq!(local_day_text(NOON, -1, 0).as_deref(), Some("11/03/2026"));
    // 00:30 local at one hour ahead of UTC; 24 hours later the clocks have
    // gone back an hour, so it is 23:30 of the same day.
    let half_past_midnight: i64 = 1773271800;
    let mut offs = vec![3600; 10];
    offs[4] = 0;
    let d = seed_dates(half_past_midnight, &offs).unwrap();
    assert_eq!(d.today, "12/03/2026");
    assert_eq!(d.tomorrow, "12/03/2026");
}

#[test]
fn samples_due_today_and_tomorrow_once() {
    let d = seed_dates(NOON, &vec![0; 10]).unwrap();
    let changes = seed_database(false, &d);
    let rows: Vec<_> = changes
        .iter()
        .map(|c| match c {
            Change::Insert(r) => r,
            _ => panic!("seeding only inserts"),
        })
        .collect();
    assert_eq!(rows.len(), 18);
    let today: Vec<usize> = (0..rows.len()).filter(|&i| rows[i].due_at.as_deref() == Some("12/03/2026")).collect();
    let tomorrow: Vec<usize> = (0..rows.len()).filter(|&i| rows[i].due_at.as_deref() == Some("13/03/2026")).collect();
    assert_eq!(today, vec![1]);
    assert_eq!(tomorrow, vec![0]);
    assert!(rows[0].deleted_at.is_none() && rows[1].deleted_at.is_none());
    let created = [&d.today, &d.yesterday, &d.last_week, &d.two_weeks_ago];
    for r in &rows {
        assert_eq!(r.status == TaskStatus::Completed, r.completed_at.is_some());
        assert!(created.contains(&&r.created_at));
        assert!(r.deleted_at.is_none() || r.deleted_at.as_deref() == Some("11/03/2026"));
    }
}
