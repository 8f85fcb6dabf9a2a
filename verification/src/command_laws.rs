//! What the listing, search, statistics and date-check commands give, stated
//! in terms of the stored rows.
use vstd::prelude::*;
use crate::cli::CommandsView;
use crate::db::{query_result, search_pattern, selects, QueryView};
use crate::like::like;
use crate::text::{blank, decimal, is_ws, join};
use crate::laws::{law_listing_holds_only_selected, law_listing_holds_selected, law_search_finds_substring};
use crate::models::{row_task, PriorityOrder, RowView, TaskStatus, TaskView};
use crate::session::{listing_report, plan, ClockView, Effect, PlanView, ReportView};
use crate::db::stats_of;
use crate::dates::{date_text_ok, dmy_text, CalendarDate};
use crate::laws::lemma_dmy_text_reads_back;

verus! {

/// Every row holds one of the two statuses a task can have.
pub open spec fn statuses_known(rows: Seq<RowView>) -> bool {
    forall|j: int|
        0 <= j < rows.len() ==> (#[trigger] rows[j]).status == "Ongoing"@ || rows[j].status
            == "Completed"@
}

/// A listing over rows of known status succeeds, holds only the tasks of rows
/// it selects, and holds the task of every row it selects.
proof fn lemma_listing_exact(rows: Seq<RowView>, q: QueryView)
    requires
        statuses_known(rows),
    ensures
        query_result(rows, q) is Ok,
        forall|t: TaskView|
            #[trigger] query_result(rows, q)->Ok_0.contains(t) ==> exists|j: int|
                0 <= j < rows.len() && selects(q, #[trigger] rows[j]) && row_task(rows[j]) == Some(t),
        forall|j: int|
            0 <= j < rows.len() && selects(q, #[trigger] rows[j]) ==> (row_task(rows[j]) matches Some(
                t,
            ) && query_result(rows, q)->Ok_0.contains(t)),
{
    reveal_strlit("Ongoing");
    reveal_strlit("Completed");
    assert forall|j: int| 0 <= j < rows.len() implies row_task(#[trigger] rows[j]) is Some by {
        assert(rows[j].status == "Ongoing"@ || rows[j].status == "Completed"@);
        assert("Ongoing"@ =~= crate::models::ongoing_chars());
        assert("Completed"@ =~= crate::models::completed_chars());
    }
    lemma_query_ok(rows, q);
    assert forall|t: TaskView| #[trigger] query_result(rows, q)->Ok_0.contains(t) implies exists|j: int|
        0 <= j < rows.len() && selects(q, #[trigger] rows[j]) && row_task(rows[j]) == Some(t) by {
        law_listing_holds_only_selected(rows, q, t);
    }
    assert forall|j: int| 0 <= j < rows.len() && selects(q, #[trigger] rows[j]) implies (row_task(
        rows[j],
    ) matches Some(t) && query_result(rows, q)->Ok_0.contains(t)) by {
        law_listing_holds_selected(rows, q, j);
    }
}

proof fn lemma_query_ok(rows: Seq<RowView>, q: QueryView)
    requires
        forall|j: int| 0 <= j < rows.len() ==> row_task(#[trigger] rows[j]) is Some,
    ensures
        query_result(rows, q) is Ok,
    decreases rows.len(),
{
    if rows.len() > 0 {
        assert forall|j: int| 0 <= j < rows.drop_last().len() implies row_task(
            #[trigger] rows.drop_last()[j],
        ) is Some by {
            assert(rows.drop_last()[j] == rows[j]);
        }
        lemma_query_ok(rows.drop_last(), q);
        assert(row_task(rows[rows.len() - 1]) is Some);
    }
}

/// The name under which a priority is stored in the table.
pub open spec fn stored_name(p: PriorityOrder) -> Seq<char> {
    match p {
        PriorityOrder::Low => "Low"@,
        PriorityOrder::Medium => "Medium"@,
        PriorityOrder::High => "High"@,
    }
}

/// `list --low`, `list --medium` and `list --high` list exactly the tasks not
/// deleted whose stored priority is the one asked: every listed task has that
/// priority and no deletion date, and every such row is listed.
pub proof fn law_list_by_priority(rows: Seq<RowView>, clock: ClockView, p: PriorityOrder)
    requires
        statuses_known(rows),
    ensures
        exists|ts: Seq<TaskView>|
            {
                &&& plan(
                    rows,
                    CommandsView::List {
                        all: false,
                        completed: false,
                        ongoing: false,
                        low: p == PriorityOrder::Low,
                        medium: p == PriorityOrder::Medium,
                        high: p == PriorityOrder::High,
                        deleted: false,
                    },
                    clock,
                ) == PlanView::Done(#[trigger] listing_report(Ok(ts), "No task found"@))
                &&& forall|t: TaskView|
                    #[trigger] ts.contains(t) ==> t.priority == Some(p) && t.deleted_at is None
                &&& forall|j: int|
                    0 <= j < rows.len() && (#[trigger] rows[j]).deleted_at is None
                        && rows[j].priority == Some(stored_name(p)) ==> (row_task(rows[j]) matches Some(
                        t,
                    ) && ts.contains(t))
            },
{
    reveal_strlit("Low");
    reveal_strlit("Medium");
    reveal_strlit("High");
    let q = QueryView::Priority { priority: p, include_deleted: false };
    assert(stored_name(p) =~= p.name());
    lemma_listing_exact(rows, q);
    let ts = query_result(rows, q)->Ok_0;
    assert forall|t: TaskView| #[trigger] ts.contains(t) implies t.priority == Some(p)
        && t.deleted_at is None by {
        let j = choose|j: int|
            0 <= j < rows.len() && selects(q, #[trigger] rows[j]) && row_task(rows[j]) == Some(t);
        assert(PriorityOrder::from_name(p.name()) == Some(p));
    }
    assert(plan(
        rows,
        CommandsView::List {
            all: false,
            completed: false,
            ongoing: false,
            low: p == PriorityOrder::Low,
            medium: p == PriorityOrder::Medium,
            high: p == PriorityOrder::High,
            deleted: false,
        },
        clock,
    ) == PlanView::Done(listing_report(Ok(ts), "No task found"@)));
}

/// The name under which a status is stored in the table.
pub open spec fn stored_status(st: TaskStatus) -> Seq<char> {
    match st {
        TaskStatus::Ongoing => "Ongoing"@,
        TaskStatus::Completed => "Completed"@,
    }
}

/// `list --ongoing` and `list --completed` list exactly the tasks not deleted
/// whose stored status is the one asked: every listed task has that status
/// and no deletion date, and every such row is listed.
pub proof fn law_list_by_status(rows: Seq<RowView>, clock: ClockView, st: TaskStatus)
    requires
        statuses_known(rows),
    ensures
        exists|ts: Seq<TaskView>|
            {
                &&& plan(
                    rows,
                    CommandsView::List {
                        all: false,
                        completed: st == TaskStatus::Completed,
                        ongoing: st == TaskStatus::Ongoing,
                        low: false,
                        medium: false,
                        high: false,
                        deleted: false,
                    },
                    clock,
                ) == PlanView::Done(#[trigger] listing_report(Ok(ts), "No task found"@))
                &&& forall|t: TaskView|
                    #[trigger] ts.contains(t) ==> t.status == st && t.deleted_at is None
                &&& forall|j: int|
                    0 <= j < rows.len() && (#[trigger] rows[j]).deleted_at is None && rows[j].status
                        == stored_status(st) ==> (row_task(rows[j]) matches Some(t) && ts.contains(t))
            },
{
    reveal_strlit("Ongoing");
    reveal_strlit("Completed");
    let q = QueryView::Status { status: st, include_deleted: false };
    assert(stored_status(st) =~= st.name());
    lemma_listing_exact(rows, q);
    let ts = query_result(rows, q)->Ok_0;
    assert forall|t: TaskView| #[trigger] ts.contains(t) implies t.status == st && t.deleted_at
        is None by {
        let j = choose|j: int|
            0 <= j < rows.len() && selects(q, #[trigger] rows[j]) && row_task(rows[j]) == Some(t);
        assert(TaskStatus::from_name(st.name()) == Some(st)) by {
            assert(crate::models::ongoing_chars().len() != crate::models::completed_chars().len());
        }
    }
    assert(plan(
        rows,
        CommandsView::List {
            all: false,
            completed: st == TaskStatus::Completed,
            ongoing: st == TaskStatus::Ongoing,
            low: false,
            medium: false,
            high: false,
            deleted: false,
        },
        clock,
    ) == PlanView::Done(listing_report(Ok(ts), "No task found"@)));
}

/// `list --deleted` lists exactly the deleted tasks, and `list --deleted
/// --all` every task: every listed task has a deletion date (without
/// `--all`), and every row (every deleted row without `--all`) is listed.
pub proof fn law_list_deleted(rows: Seq<RowView>, clock: ClockView, all: bool)
    requires
        statuses_known(rows),
    ensures
        exists|ts: Seq<TaskView>|
            {
                &&& plan(
                    rows,
                    CommandsView::List {
                        all,
                        completed: false,
                        ongoing: false,
                        low: false,
                        medium: false,
                        high: false,
                        deleted: true,
                    },
                    clock,
                ) == PlanView::Done(#[trigger] listing_report(Ok(ts), "No task found"@))
                &&& forall|t: TaskView| #[trigger] ts.contains(t) ==> all || t.deleted_at is Some
                &&& forall|j: int|
                    0 <= j < rows.len() && (all || (#[trigger] rows[j]).deleted_at is Some) ==> (row_task(
                        rows[j],
                    ) matches Some(t) && ts.contains(t))
            },
{
    let q = if all {
        QueryView::Everything
    } else {
        QueryView::Deleted
    };
    lemma_listing_exact(rows, q);
    let ts = query_result(rows, q)->Ok_0;
    assert forall|t: TaskView| #[trigger] ts.contains(t) implies all || t.deleted_at is Some by {
        let j = choose|j: int|
            0 <= j < rows.len() && selects(q, #[trigger] rows[j]) && row_task(rows[j]) == Some(t);
    }
    assert forall|j: int| 0 <= j < rows.len() && (all || (#[trigger] rows[j]).deleted_at is Some) implies (
    row_task(rows[j]) matches Some(t) && ts.contains(t)) by {
        assert(selects(q, rows[j]));
    }
    assert(plan(
        rows,
        CommandsView::List {
            all,
            completed: false,
            ongoing: false,
            low: false,
            medium: false,
            high: false,
            deleted: true,
        },
        clock,
    ) == PlanView::Done(listing_report(Ok(ts), "No task found"@)));
}

/// `due --today` lists exactly the tasks due on the clock's today, and `due
/// --tomorrow` exactly those due on the clock's tomorrow: every listed task
/// has that due date, and every row with that due date is listed.
pub proof fn law_due_lists_that_day(rows: Seq<RowView>, clock: ClockView, tomorrow: bool)
    requires
        statuses_known(rows),
    ensures
        exists|ts: Seq<TaskView>|
            {
                &&& plan(rows, CommandsView::Due { today: !tomorrow, tomorrow }, clock)
                    == PlanView::Done(
                    #[trigger] listing_report(Ok(ts), "No tasks found with the given due date"@),
                )
                &&& forall|t: TaskView|
                    #[trigger] ts.contains(t) ==> if tomorrow {
                        t.due_at is Some && t.due_at == clock.tomorrow
                    } else {
                        t.due_at == Some(clock.today)
                    }
                &&& forall|j: int|
                    0 <= j < rows.len() && (if tomorrow {
                        (#[trigger] rows[j]).due_at is Some && rows[j].due_at == clock.tomorrow
                    } else {
                        rows[j].due_at == Some(clock.today)
                    }) ==> (row_task(rows[j]) matches Some(t) && ts.contains(t))
            },
{
    let q = QueryView::Due {
        today: if tomorrow {
            None
        } else {
            Some(clock.today)
        },
        tomorrow: if tomorrow {
            clock.tomorrow
        } else {
            None
        },
    };
    lemma_listing_exact(rows, q);
    let ts = query_result(rows, q)->Ok_0;
    assert forall|t: TaskView| #[trigger] ts.contains(t) implies if tomorrow {
        t.due_at is Some && t.due_at == clock.tomorrow
    } else {
        t.due_at == Some(clock.today)
    } by {
        let j = choose|j: int|
            0 <= j < rows.len() && selects(q, #[trigger] rows[j]) && row_task(rows[j]) == Some(t);
    }
    assert(plan(rows, CommandsView::Due { today: !tomorrow, tomorrow }, clock) == PlanView::Done(
        listing_report(Ok(ts), "No tasks found with the given due date"@),
    ));
}

/// Joining words puts the separator between each word and the next: one
/// word is itself, and one more word follows the separator.
pub proof fn law_join_puts_separator_between(ws: Seq<Seq<char>>, w: Seq<char>, sep: Seq<char>)
    ensures
        join(seq![w], sep) == w,
        ws.len() >= 1 ==> join(ws.push(w), sep) == join(ws, sep) + sep + w,
{
    assert(seq![w].len() == 1);
    if ws.len() >= 1 {
        assert(ws.push(w).drop_last() =~= ws);
    }
}

proof fn lemma_join_chars(ws: Seq<Seq<char>>)
    requires
        ws.len() >= 1,
        ws[0].len() >= 1,
        forall|i: int, k: int|
            0 <= i < ws.len() && 0 <= k < ws[i].len() ==> (#[trigger] ws[i][k]) != '%',
    ensures
        join(ws, " "@).len() >= 1,
        join(ws, " "@)[0] == ws[0][0],
        forall|k: int| 0 <= k < join(ws, " "@).len() ==> #[trigger] join(ws, " "@)[k] != '%',
    decreases ws.len(),
{
    reveal_strlit(" ");
    if ws.len() > 1 {
        let init = ws.drop_last();
        assert forall|i: int, k: int| 0 <= i < init.len() && 0 <= k < init[i].len() implies (
        #[trigger] init[i][k]) != '%' by {
            assert(init[i] == ws[i]);
        }
        lemma_join_chars(init);
        let a = join(init, " "@);
        let w = ws.last();
        assert(join(ws, " "@) == a + " "@ + w);
        assert forall|k: int| 0 <= k < join(ws, " "@).len() implies #[trigger] join(ws, " "@)[k]
            != '%' by {
            if k < a.len() {
            } else if k == a.len() {
            } else {
                assert(join(ws, " "@)[k] == w[k - a.len() - 1]);
                assert(ws[ws.len() - 1][k - a.len() - 1] != '%');
            }
        }
    } else {
        assert(join(ws, " "@) == ws[0]);
    }
}

/// `search` with words that hold no `%` and no white space finds every task
/// whose title holds the words joined by single spaces, and finds only tasks
/// whose title or notes match the pattern of that phrase.
pub proof fn law_search_finds_the_phrase(
    rows: Seq<RowView>,
    clock: ClockView,
    ws: Seq<Seq<char>>,
    j: int,
    before: Seq<char>,
    after: Seq<char>,
)
    requires
        statuses_known(rows),
        ws.len() >= 1,
        forall|i: int| 0 <= i < ws.len() ==> (#[trigger] ws[i]).len() >= 1,
        forall|i: int, k: int|
            0 <= i < ws.len() && 0 <= k < ws[i].len() ==> !is_ws(#[trigger] ws[i][k]) && ws[i][k]
                != '%',
        0 <= j < rows.len(),
        rows[j].title == before + join(ws, " "@) + after,
    ensures
        exists|ts: Seq<TaskView>|
            {
                &&& plan(rows, CommandsView::Search { search_string: ws }, clock) == PlanView::Done(
                    #[trigger] listing_report(Ok(ts), "No tasks found"@),
                )
                &&& forall|t: TaskView|
                    #[trigger] ts.contains(t) ==> like(
                        seq!['%'] + join(ws, " "@) + seq!['%'],
                        t.title,
                    ) || (t.notes matches Some(n) && like(seq!['%'] + join(ws, " "@) + seq!['%'], n))
                &&& (row_task(rows[j]) matches Some(t) && ts.contains(t))
            },
{
    let key = join(ws, " "@);
    lemma_join_chars(ws);
    assert(!is_ws(ws[0][0]));
    assert(!blank(key));
    law_search_finds_substring(key, before, after);
    let q = QueryView::Like { pattern: search_pattern(key) };
    assert(search_pattern(key) =~= seq!['%'] + key + seq!['%']);
    lemma_listing_exact(rows, q);
    let ts = query_result(rows, q)->Ok_0;
    assert(selects(q, rows[j]));
    assert forall|t: TaskView| #[trigger] ts.contains(t) implies like(
        seq!['%'] + key + seq!['%'],
        t.title,
    ) || (t.notes matches Some(n) && like(seq!['%'] + key + seq!['%'], n)) by {
        let i = choose|i: int|
            0 <= i < rows.len() && selects(q, #[trigger] rows[i]) && row_task(rows[i]) == Some(t);
    }
    assert(plan(rows, CommandsView::Search { search_string: ws }, clock) == PlanView::Done(
        listing_report(Ok(ts), "No tasks found"@),
    ));
}

/// One if a condition holds, else zero.
pub open spec fn one_if(b: bool) -> nat {
    if b {
        1
    } else {
        0
    }
}

/// The six statistics count the rows not deleted: all of them, the ongoing
/// and the completed ones, and those of high, medium and low priority. A
/// table without rows has six zeros, each row added raises by one exactly the
/// counts it belongs to, and `stats` prints the six counts in that order.
pub proof fn law_stats_count_live_rows(rows: Seq<RowView>, r: RowView, clock: ClockView)
    ensures
        stats_of(Seq::empty()) == seq![0nat, 0, 0, 0, 0, 0],
        stats_of(rows).len() == 6,
        stats_of(rows.push(r))[0] == stats_of(rows)[0] + one_if(r.deleted_at is None),
        stats_of(rows.push(r))[1] == stats_of(rows)[1] + one_if(
            r.deleted_at is None && r.status == "Ongoing"@,
        ),
        stats_of(rows.push(r))[2] == stats_of(rows)[2] + one_if(
            r.deleted_at is None && r.status == "Completed"@,
        ),
        stats_of(rows.push(r))[3] == stats_of(rows)[3] + one_if(
            r.deleted_at is None && r.priority == Some("High"@),
        ),
        stats_of(rows.push(r))[4] == stats_of(rows)[4] + one_if(
            r.deleted_at is None && r.priority == Some("Medium"@),
        ),
        stats_of(rows.push(r))[5] == stats_of(rows)[5] + one_if(
            r.deleted_at is None && r.priority == Some("Low"@),
        ),
        plan(rows, CommandsView::Stats, clock) == PlanView::Done(
            ReportView {
                lines: seq![
                    "Total: "@ + decimal(stats_of(rows)[0]),
                    "Ongoing: "@ + decimal(stats_of(rows)[1]),
                    "Completed: "@ + decimal(stats_of(rows)[2]),
                    "High priority: "@ + decimal(stats_of(rows)[3]),
                    "Medium priority: "@ + decimal(stats_of(rows)[4]),
                    "Low priority: "@ + decimal(stats_of(rows)[5]),
                ],
                result: Ok(()),
                effect: Effect::Nothing,
            },
        ),
{
    reveal_strlit("Ongoing");
    reveal_strlit("Completed");
    reveal_strlit("High");
    reveal_strlit("Medium");
    reveal_strlit("Low");
    assert("Ongoing"@ =~= TaskStatus::Ongoing.name());
    assert("Completed"@ =~= TaskStatus::Completed.name());
    assert("High"@ =~= PriorityOrder::High.name());
    assert("Medium"@ =~= PriorityOrder::Medium.name());
    assert("Low"@ =~= PriorityOrder::Low.name());
    assert(rows.push(r).drop_last() =~= rows);
    assert(rows.push(r).last() == r);
}

/// The days of a month stated month by month: thirty-one in January, March,
/// May, July, August, October and December, thirty in April, June,
/// September and November, and in February twenty-nine in years divisible by
/// four but not by a hundred, or by four hundred, else twenty-eight.
pub open spec fn month_days(y: int, m: int) -> int {
    if m == 1 || m == 3 || m == 5 || m == 7 || m == 8 || m == 10 || m == 12 {
        31
    } else if m == 2 {
        if (y % 4 == 0 && y % 100 != 0) || y % 400 == 0 {
            29
        } else {
            28
        }
    } else {
        30
    }
}

/// The check of due dates accepts `dd/mm/yyyy` for a day of a month of a year
/// from 0 to 9999 exactly where the month has that many days.
pub proof fn law_date_check_accepts_real_days(y: i32, m: u32, d: u32)
    requires
        0 <= y <= 9999,
        1 <= m <= 12,
        1 <= d <= 31,
    ensures
        date_text_ok(dmy_text(CalendarDate { year: y, month: m, day: d })) <==> d <= month_days(
            y as int,
            m as int,
        ),
{
    lemma_dmy_text_reads_back(CalendarDate { year: y, month: m, day: d });
}

} // verus!
