//! The sample tasks that fill an empty table for trying the program out.
use vstd::prelude::*;
use crate::dates::{day_of, dmy_text, format_date, local_offset_at, utc_day, CalendarDate};
use crate::db::{changes_view, Change, ChangeView, NewRow, NewRowView};
use crate::models::{PriorityOrder, TaskStatus};

verus! {

/// The days, written `dd/mm/yyyy`, that the sample tasks are dated by,
/// counted from today.
pub struct SeedDates {
    pub today: String,
    pub yesterday: String,
    pub last_week: String,
    pub two_weeks_ago: String,
    pub tomorrow: String,
    pub next_week: String,
    pub in_thirty_days: String,
    pub in_five_days: String,
    pub six_days_ago: String,
    pub five_days_ago: String,
}

pub struct SeedDatesView {
    pub today: Seq<char>,
    pub yesterday: Seq<char>,
    pub last_week: Seq<char>,
    pub two_weeks_ago: Seq<char>,
    pub tomorrow: Seq<char>,
    pub next_week: Seq<char>,
    pub in_thirty_days: Seq<char>,
    pub in_five_days: Seq<char>,
    pub six_days_ago: Seq<char>,
    pub five_days_ago: Seq<char>,
}

impl View for SeedDates {
    type V = SeedDatesView;

    open spec fn view(&self) -> SeedDatesView {
        SeedDatesView {
            today: self.today@,
            yesterday: self.yesterday@,
            last_week: self.last_week@,
            two_weeks_ago: self.two_weeks_ago@,
            tomorrow: self.tomorrow@,
            next_week: self.next_week@,
            in_thirty_days: self.in_thirty_days@,
            in_five_days: self.in_five_days@,
            six_days_ago: self.six_days_ago@,
            five_days_ago: self.five_days_ago@,
        }
    }
}

/// A sample row; it has not been updated.
pub open spec fn seed_row(
    title: Seq<char>,
    status: TaskStatus,
    created_at: Seq<char>,
    completed_at: Option<Seq<char>>,
    deleted_at: Option<Seq<char>>,
    due_at: Option<Seq<char>>,
    priority: Option<PriorityOrder>,
    notes: Option<Seq<char>>,
) -> NewRowView {
    NewRowView { title, status, created_at, completed_at, deleted_at, due_at, priority, notes }
}

/// The eighteen sample tasks: ongoing ones of each priority and of none, with
/// and without due dates and notes, completed ones, deleted ones, one with
/// long texts and one with quotes.
pub open spec fn seed_rows(d: SeedDatesView) -> Seq<NewRowView> {
    seq![
        seed_row(
            "Complete tax returns"@,
            TaskStatus::Ongoing,
            d.two_weeks_ago,
            None,
            None,
            Some(d.tomorrow),
            Some(PriorityOrder::High),
            Some("Need to gather all receipts and W2 forms"@),
        ),
        seed_row(
            "Prepare presentation for client meeting"@,
            TaskStatus::Ongoing,
            d.yesterday,
            None,
            None,
            Some(d.today),
            Some(PriorityOrder::High),
            Some("Include Q4 metrics and growth projections"@),
        ),
        seed_row(
            "Review security audit report"@,
            TaskStatus::Ongoing,
            d.last_week,
            None,
            None,
            Some(d.next_week),
            Some(PriorityOrder::High),
            None,
        ),
        seed_row(
            "Update project documentation"@,
            TaskStatus::Ongoing,
            d.last_week,
            None,
            None,
            None,
            Some(PriorityOrder::Medium),
            Some("Add API endpoints and examples"@),
        ),
        seed_row(
            "Schedule team building event"@,
            TaskStatus::Ongoing,
            d.yesterday,
            None,
            None,
            Some(d.in_thirty_days),
            Some(PriorityOrder::Medium),
            None,
        ),
        seed_row(
            "Organize desk workspace"@,
            TaskStatus::Ongoing,
            d.last_week,
            None,
            None,
            None,
            Some(PriorityOrder::Low),
            Some("File papers and clean keyboard"@),
        ),
        seed_row(
            "Read industry newsletter"@,
            TaskStatus::Ongoing,
            d.yesterday,
            None,
            None,
            Some(d.next_week),
            Some(PriorityOrder::Low),
            None,
        ),
        seed_row(
            "Buy groceries"@,
            TaskStatus::Ongoing,
            d.today,
            None,
            None,
            None,
            None,
            Some("Milk, eggs, bread, coffee"@),
        ),
        seed_row(
            "Call dentist for appointment"@,
            TaskStatus::Ongoing,
            d.yesterday,
            None,
            None,
            Some(d.in_five_days),
            None,
            None,
        ),
        seed_row(
            "Submit quarterly report"@,
            TaskStatus::Completed,
            d.two_weeks_ago,
            Some(d.last_week),
            None,
            None,
            Some(PriorityOrder::High),
            Some("Submitted to finance department"@),
        ),
        seed_row(
            "Fix login bug in production"@,
            TaskStatus::Completed,
            d.last_week,
            Some(d.six_days_ago),
            None,
            Some(d.five_days_ago),
            Some(PriorityOrder::High),
            None,
        ),
        seed_row(
            "Update team wiki"@,
            TaskStatus::Completed,
            d.two_weeks_ago,
            Some(d.yesterday),
            None,
            None,
            Some(PriorityOrder::Medium),
            Some("Added onboarding guide and troubleshooting section"@),
        ),
        seed_row(
            "Water office plants"@,
            TaskStatus::Completed,
            d.yesterday,
            Some(d.today),
            None,
            None,
            Some(PriorityOrder::Low),
            None,
        ),
        seed_row(
            "Attend conference in Seattle"@,
            TaskStatus::Ongoing,
            d.two_weeks_ago,
            None,
            Some(d.yesterday),
            None,
            Some(PriorityOrder::Medium),
            Some("Event was cancelled due to weather"@),
        ),
        seed_row(
            "Review old project proposal"@,
            TaskStatus::Ongoing,
            d.last_week,
            None,
            Some(d.yesterday),
            None,
            Some(PriorityOrder::Low),
            None,
        ),
        seed_row(
            "Duplicate task to be removed"@,
            TaskStatus::Completed,
            d.two_weeks_ago,
            Some(d.last_week),
            Some(d.yesterday),
            None,
            Some(PriorityOrder::High),
            None,
        ),
        seed_row(
            "Research and evaluate different cloud infrastructure providers for upcoming migration project"@,
            TaskStatus::Ongoing,
            d.today,
            None,
            None,
            None,
            Some(PriorityOrder::Medium),
            Some("Compare AWS, GCP, and Azure pricing models. Consider scalability, security features, compliance certifications, and integration with existing tools. Document findings in shared drive."@),
        ),
        seed_row(
            "Fix bug in user's profile page"@,
            TaskStatus::Ongoing,
            d.today,
            None,
            None,
            None,
            None,
            Some("Error message: 'Cannot read property \"name\" of undefined'"@),
        ),
    ]
}

/// The writes that seeding makes: with `reset` first emptying the table, and
/// inserting the sample tasks in order.
pub open spec fn seed_changes(reset: bool, d: SeedDatesView) -> Seq<ChangeView> {
    (if reset {
        seq![ChangeView::DeleteAll]
    } else {
        Seq::empty()
    }) + seed_rows(d).map_values(|r: NewRowView| ChangeView::Insert(r))
}

pub open spec fn new_rows_view(rows: Seq<NewRow>) -> Seq<NewRowView> {
    rows.map_values(|r: NewRow| r@)
}

fn sample_rows(dates: &SeedDates) -> (rows: Vec<NewRow>)
    ensures
        new_rows_view(rows@) == seed_rows(dates@),
{
    let mut rows: Vec<NewRow> = Vec::new();
    rows.push(
        NewRow {
            title: String::from_str("Complete tax returns"),
            status: TaskStatus::Ongoing,
            created_at: dates.two_weeks_ago.clone(),
            completed_at: None,
            deleted_at: None,
            due_at: Some(dates.tomorrow.clone()),
            priority: Some(PriorityOrder::High),
            notes: Some(String::from_str("Need to gather all receipts and W2 forms")),
        },
    );
    rows.push(
        NewRow {
            title: String::from_str("Prepare presentation for client meeting"),
            status: TaskStatus::Ongoing,
            created_at: dates.yesterday.clone(),
            completed_at: None,
            deleted_at: None,
            due_at: Some(dates.today.clone()),
            priority: Some(PriorityOrder::High),
            notes: Some(String::from_str("Include Q4 metrics and growth projections")),
        },
    );
    rows.push(
        NewRow {
            title: String::from_str("Review security audit report"),
            status: TaskStatus::Ongoing,
            created_at: dates.last_week.clone(),
            completed_at: None,
            deleted_at: None,
            due_at: Some(dates.next_week.clone()),
            priority: Some(PriorityOrder::High),
            notes: None,
        },
    );
    rows.push(
        NewRow {
            title: String::from_str("Update project documentation"),
            status: TaskStatus::Ongoing,
            created_at: dates.last_week.clone(),
            completed_at: None,
            deleted_at: None,
            due_at: None,
            priority: Some(PriorityOrder::Medium),
            notes: Some(String::from_str("Add API endpoints and examples")),
        },
    );
    rows.push(
        NewRow {
            title: String::from_str("Schedule team building event"),
            status: TaskStatus::Ongoing,
            created_at: dates.yesterday.clone(),
            completed_at: None,
            deleted_at: None,
            due_at: Some(dates.in_thirty_days.clone()),
            priority: Some(PriorityOrder::Medium),
            notes: None,
        },
    );
    rows.push(
        NewRow {
            title: String::from_str("Organize desk workspace"),
            status: TaskStatus::Ongoing,
            created_at: dates.last_week.clone(),
            completed_at: None,
            deleted_at: None,
            due_at: None,
            priority: Some(PriorityOrder::Low),
            notes: Some(String::from_str("File papers and clean keyboard")),
        },
    );
    rows.push(
        NewRow {
            title: String::from_str("Read industry newsletter"),
            status: TaskStatus::Ongoing,
            created_at: dates.yesterday.clone(),
            completed_at: None,
            deleted_at: None,
            due_at: Some(dates.next_week.clone()),
            priority: Some(PriorityOrder::Low),
            notes: None,
        },
    );
    rows.push(
        NewRow {
            title: String::from_str("Buy groceries"),
            status: TaskStatus::Ongoing,
            created_at: dates.today.clone(),
            completed_at: None,
            deleted_at: None,
            due_at: None,
            priority: None,
            notes: Some(String::from_str("Milk, eggs, bread, coffee")),
        },
    );
    rows.push(
        NewRow {
            title: String::from_str("Call dentist for appointment"),
            status: TaskStatus::Ongoing,
            created_at: dates.yesterday.clone(),
            completed_at: None,
            deleted_at: None,
            due_at: Some(dates.in_five_days.clone()),
            priority: None,
            notes: None,
        },
    );
    rows.push(
        NewRow {
            title: String::from_str("Submit quarterly report"),
            status: TaskStatus::Completed,
            created_at: dates.two_weeks_ago.clone(),
            completed_at: Some(dates.last_week.clone()),
            deleted_at: None,
            due_at: None,
            priority: Some(PriorityOrder::High),
            notes: Some(String::from_str("Submitted to finance department")),
        },
    );
    rows.push(
        NewRow {
            title: String::from_str("Fix login bug in production"),
            status: TaskStatus::Completed,
            created_at: dates.last_week.clone(),
            completed_at: Some(dates.six_days_ago.clone()),
            deleted_at: None,
            due_at: Some(dates.five_days_ago.clone()),
            priority: Some(PriorityOrder::High),
            notes: None,
        },
    );
    rows.push(
        NewRow {
            title: String::from_str("Update team wiki"),
            status: TaskStatus::Completed,
            created_at: dates.two_weeks_ago.clone(),
            completed_at: Some(dates.yesterday.clone()),
            deleted_at: None,
            due_at: None,
            priority: Some(PriorityOrder::Medium),
            notes: Some(String::from_str("Added onboarding guide and troubleshooting section")),
        },
    );
    rows.push(
        NewRow {
            title: String::from_str("Water office plants"),
            status: TaskStatus::Completed,
            created_at: dates.yesterday.clone(),
            completed_at: Some(dates.today.clone()),
            deleted_at: None,
            due_at: None,
            priority: Some(PriorityOrder::Low),
            notes: None,
        },
    );
    rows.push(
        NewRow {
            title: String::from_str("Attend conference in Seattle"),
            status: TaskStatus::Ongoing,
            created_at: dates.two_weeks_ago.clone(),
            completed_at: None,
            deleted_at: Some(dates.yesterday.clone()),
            due_at: None,
            priority: Some(PriorityOrder::Medium),
            notes: Some(String::from_str("Event was cancelled due to weather")),
        },
    );
    rows.push(
        NewRow {
            title: String::from_str("Review old project proposal"),
            status: TaskStatus::Ongoing,
            created_at: dates.last_week.clone(),
            completed_at: None,
            deleted_at: Some(dates.yesterday.clone()),
            due_at: None,
            priority: Some(PriorityOrder::Low),
            notes: None,
        },
    );
    rows.push(
        NewRow {
            title: String::from_str("Duplicate task to be removed"),
            status: TaskStatus::Completed,
            created_at: dates.two_weeks_ago.clone(),
            completed_at: Some(dates.last_week.clone()),
            deleted_at: Some(dates.yesterday.clone()),
            due_at: None,
            priority: Some(PriorityOrder::High),
            notes: None,
        },
    );
    rows.push(
        NewRow {
            title: String::from_str("Research and evaluate different cloud infrastructure providers for upcoming migration project"),
            status: TaskStatus::Ongoing,
            created_at: dates.today.clone(),
            completed_at: None,
            deleted_at: None,
            due_at: None,
            priority: Some(PriorityOrder::Medium),
            notes: Some(String::from_str("Compare AWS, GCP, and Azure pricing models. Consider scalability, security features, compliance certifications, and integration with existing tools. Document findings in shared drive.")),
        },
    );
    rows.push(
        NewRow {
            title: String::from_str("Fix bug in user's profile page"),
            status: TaskStatus::Ongoing,
            created_at: dates.today.clone(),
            completed_at: None,
            deleted_at: None,
            due_at: None,
            priority: None,
            notes: Some(String::from_str("Error message: 'Cannot read property \"name\" of undefined'")),
        },
    );
    proof {
        assert(new_rows_view(rows@) =~= seed_rows(dates@));
    }
    rows
}

/// The writes that fill the table with the sample tasks, after emptying it
/// where `reset` is set.
pub fn seed_database(reset: bool, dates: &SeedDates) -> (changes: Vec<Change>)
    ensures
        changes_view(changes@) == seed_changes(reset, dates@),
{
    let rows = sample_rows(dates);
    let mut changes: Vec<Change> = Vec::new();
    if reset {
        changes.push(Change::DeleteAll);
    }
    let ghost head = changes_view(changes@);
    proof {
        assert(head =~= if reset {
            seq![ChangeView::DeleteAll]
        } else {
            Seq::<ChangeView>::empty()
        });
    }
    let mut rows = rows;
    let ghost all = new_rows_view(rows@);
    let n = rows.len();
    let mut taken: Vec<NewRow> = Vec::new();
    // Take the rows out from the end, and insert them front to back.
    while rows.len() > 0
        invariant
            new_rows_view(rows@) + new_rows_view(taken@).reverse() == all,
            n == all.len(),
        decreases rows.len(),
    {
        let ghost before_rows = rows@;
        let ghost before_taken = taken@;
        let r = rows.pop().unwrap();
        taken.push(r);
        proof {
            assert(before_rows =~= rows@.push(r));
            assert(new_rows_view(before_rows) =~= new_rows_view(rows@).push(r@));
            assert(new_rows_view(taken@) =~= new_rows_view(before_taken).push(r@));
            assert(new_rows_view(taken@).reverse() =~= seq![r@] + new_rows_view(before_taken).reverse());
            assert(new_rows_view(rows@) + new_rows_view(taken@).reverse() =~= new_rows_view(before_rows)
                + new_rows_view(before_taken).reverse());
        }
    }
    proof {
        assert(new_rows_view(taken@).reverse() =~= all);
    }
    let mut k: usize = 0;
    while taken.len() > 0
        invariant
            k + taken@.len() == n,
            n == all.len(),
            new_rows_view(taken@).reverse() == all.skip(k as int),
            changes_view(changes@) == head + all.take(k as int).map_values(
                |r: NewRowView| ChangeView::Insert(r),
            ),
        decreases taken.len(),
    {
        let ghost before_taken = taken@;
        let ghost before_changes = changes@;
        let r = taken.pop().unwrap();
        proof {
            assert(before_taken =~= taken@.push(r));
            assert(new_rows_view(before_taken) =~= new_rows_view(taken@).push(r@));
            assert(new_rows_view(before_taken).reverse() =~= seq![r@] + new_rows_view(taken@).reverse());
            let rest = new_rows_view(taken@).reverse();
            assert((seq![r@] + rest).drop_first() =~= rest);
            assert(all.skip(k as int).drop_first() =~= all.skip(k + 1));
            assert(all.skip(k as int)[0] == r@);
            assert(rest =~= all.skip(k + 1));
        }
        changes.push(Change::Insert(r));
        proof {
            assert(changes_view(changes@) =~= changes_view(before_changes).push(ChangeView::Insert(r@)));
            assert(all.take(k + 1) =~= all.take(k as int).push(r@));
            assert(all.take(k + 1).map_values(|r: NewRowView| ChangeView::Insert(r)) =~= all.take(
                k as int,
            ).map_values(|r: NewRowView| ChangeView::Insert(r)).push(ChangeView::Insert(r@)));
        }
        k = k + 1;
    }
    proof {
        assert(all.take(n as int) =~= all);
    }
    changes
}

/// A text that writes a day as `dd/mm/yyyy`, where the year is one from 0 to
/// 9999.
pub open spec fn day_text(t: Seq<char>, d: CalendarDate) -> bool {
    0 <= d.year <= 9999 ==> t == dmy_text(d)
}

/// The local day of the instant `n` days after `now` (seconds since the start
/// of 1970), where local time is `offset` seconds ahead of UTC at that
/// instant; `None` where the instant leaves chrono's range of years.
pub open spec fn local_day(now: int, n: int, offset: int) -> Option<CalendarDate> {
    let t = now + n * 86400;
    if i64::MIN <= t <= i64::MAX && utc_day(t) is Some && i64::MIN <= t + offset <= i64::MAX {
        utc_day(t + offset)
    } else {
        None
    }
}

/// The local day, written `dd/mm/yyyy`, of the instant `n` days after `now`,
/// where local time is `offset` seconds ahead of UTC at that instant.
pub fn local_day_text(now: i64, n: i64, offset: i32) -> (r: Option<String>)
    requires
        -1000 <= n <= 1000,
        -86400 < offset < 86400,
    ensures
        r is Some <==> local_day(now as int, n as int, offset as int) is Some,
        r matches Some(t) ==> day_text(t@, local_day(now as int, n as int, offset as int)->Some_0),
{
    let t = now.checked_add(n * 86400)?;
    let _ = day_of(t)?;
    let local = t.checked_add(offset as i64)?;
    let d = day_of(local)?;
    Some(format_date(d))
}

/// How many seconds local time is ahead of UTC at the instant `n` days after
/// `now`; 0 where that instant leaves chrono's range.
fn offset_after(now: i64, n: i64) -> (off: i32)
    requires
        -1000 <= n <= 1000,
    ensures
        -86400 < off < 86400,
{
    match now.checked_add(n * 86400) {
        Some(t) => match day_of(t) {
            Some(_) => local_offset_at(t),
            None => 0,
        },
        None => 0,
    }
}

/// The local days of the sample dates all exist: today, yesterday, last
/// week, two weeks ago, tomorrow, next week, in thirty days, in five days,
/// six and five days ago, counted in whole days of 24 hours from `now`, with
/// the local offsets `offs` at those instants in that order.
pub open spec fn sample_days_exist(now: int, offs: Seq<i32>) -> bool {
    &&& local_day(now, 0, offs[0] as int) is Some
    &&& local_day(now, -1, offs[1] as int) is Some
    &&& local_day(now, -7, offs[2] as int) is Some
    &&& local_day(now, -14, offs[3] as int) is Some
    &&& local_day(now, 1, offs[4] as int) is Some
    &&& local_day(now, 7, offs[5] as int) is Some
    &&& local_day(now, 30, offs[6] as int) is Some
    &&& local_day(now, 5, offs[7] as int) is Some
    &&& local_day(now, -6, offs[8] as int) is Some
    &&& local_day(now, -5, offs[9] as int) is Some
}

/// Sample dates that write those local days.
pub open spec fn sample_dates_at(sd: SeedDatesView, now: int, offs: Seq<i32>) -> bool {
    &&& day_text(sd.today, local_day(now, 0, offs[0] as int)->Some_0)
    &&& day_text(sd.yesterday, local_day(now, -1, offs[1] as int)->Some_0)
    &&& day_text(sd.last_week, local_day(now, -7, offs[2] as int)->Some_0)
    &&& day_text(sd.two_weeks_ago, local_day(now, -14, offs[3] as int)->Some_0)
    &&& day_text(sd.tomorrow, local_day(now, 1, offs[4] as int)->Some_0)
    &&& day_text(sd.next_week, local_day(now, 7, offs[5] as int)->Some_0)
    &&& day_text(sd.in_thirty_days, local_day(now, 30, offs[6] as int)->Some_0)
    &&& day_text(sd.in_five_days, local_day(now, 5, offs[7] as int)->Some_0)
    &&& day_text(sd.six_days_ago, local_day(now, -6, offs[8] as int)->Some_0)
    &&& day_text(sd.five_days_ago, local_day(now, -5, offs[9] as int)->Some_0)
}

/// Offsets from UTC that a time zone can have, one for each sample date.
pub open spec fn offsets_ok(offs: Seq<i32>) -> bool {
    offs.len() == 10 && forall|i: int| 0 <= i < 10 ==> -86400 < #[trigger] offs[i] < 86400
}

/// The local offsets from UTC at the instants of the sample dates, in the
/// order of `sample_days_exist`.
pub fn sample_offsets(now: i64) -> (offs: Vec<i32>)
    ensures
        offsets_ok(offs@),
{
    let mut offs: Vec<i32> = Vec::new();
    offs.push(offset_after(now, 0));
    offs.push(offset_after(now, -1));
    offs.push(offset_after(now, -7));
    offs.push(offset_after(now, -14));
    offs.push(offset_after(now, 1));
    offs.push(offset_after(now, 7));
    offs.push(offset_after(now, 30));
    offs.push(offset_after(now, 5));
    offs.push(offset_after(now, -6));
    offs.push(offset_after(now, -5));
    offs
}

/// The sample dates: the local days of the instants whole days of 24 hours
/// before and after `now`, where local time is the matching one of `offs`
/// ahead of UTC; `None` where one of them leaves the calendar's range.
pub fn seed_dates(now: i64, offs: &Vec<i32>) -> (r: Option<SeedDates>)
    requires
        offsets_ok(offs@),
    ensures
        r is Some <==> sample_days_exist(now as int, offs@),
        r matches Some(sd) ==> sample_dates_at(sd@, now as int, offs@),
{
    let today = local_day_text(now, 0, offs[0])?;
    let yesterday = local_day_text(now, -1, offs[1])?;
    let last_week = local_day_text(now, -7, offs[2])?;
    let two_weeks_ago = local_day_text(now, -14, offs[3])?;
    let tomorrow = local_day_text(now, 1, offs[4])?;
    let next_week = local_day_text(now, 7, offs[5])?;
    let in_thirty_days = local_day_text(now, 30, offs[6])?;
    let in_five_days = local_day_text(now, 5, offs[7])?;
    let six_days_ago = local_day_text(now, -6, offs[8])?;
    let five_days_ago = local_day_text(now, -5, offs[9])?;
    Some(
        SeedDates {
            today,
            yesterday,
            last_week,
            two_weeks_ago,
            tomorrow,
            next_week,
            in_thirty_days,
            in_five_days,
            six_days_ago,
            five_days_ago,
        },
    )
}

} // verus!
