//! Properties of the to-do list that span several operations.
use vstd::prelude::*;
use crate::db::{
    live, live_with_priority, live_with_status, search_pattern, selects, stats_of, tally,
    apply, has_id, inserted_row, keep_rows, new_task_row, query_result, restore_view, row_with_id,
    soft_delete_view, status_update, repeats, task_update, update_result, NewRowView, task_with_id, assign, assign_all, AssignmentView, ChangeView,
    QueryView,
};
use crate::dates::{
    date_text_ok, day_key, digit_value, dmy_text, epoch, valid_ymd, is_digit, lemma_shift_ordered, lemma_shift_valid,
    number_at, shifted_date, valid_date, CalendarDate,
};
use crate::seed::{local_day, offsets_ok, sample_dates_at, sample_days_exist, seed_rows, SeedDatesView};
use crate::text::digit_char;
use crate::like::like;
use crate::cli::CommandsView;
use crate::session::{finish, list_result, plan, say, words_opt, ClockView, FollowupView, PlanView};
use crate::text::{is_word, is_ws, join, scan_words, words};
use crate::models::{display_text, row_task, PriorityOrder, RowView, TaskStatus, TaskView};

verus! {

/// The name a status is stored under reads back as that status.
pub proof fn law_status_name_reads_back(s: TaskStatus)
    ensures
        TaskStatus::from_name(s.name()) == Some(s),
{
    assert(crate::models::ongoing_chars().len() != crate::models::completed_chars().len());
}

/// The name a priority is stored under reads back as that priority.
pub proof fn law_priority_name_reads_back(p: PriorityOrder)
    ensures
        PriorityOrder::from_name(p.name()) == Some(p),
{
    assert(PriorityOrder::High.name().len() == 4);
    assert(PriorityOrder::Medium.name().len() == 6);
    assert(PriorityOrder::Low.name().len() == 3);
}

proof fn lemma_row_with_id_pushed(rows: Seq<RowView>, r: RowView)
    requires
        !has_id(rows, r.id),
    ensures
        row_with_id(rows.push(r), r.id) == Some(r),
    decreases rows.len(),
{
    if rows.len() == 0 {
        assert(rows.push(r)[0] == r);
    } else {
        assert(rows.push(r)[0] == rows[0]);
        assert(rows[0].id != r.id);
        assert(rows.push(r).drop_first() =~= rows.drop_first().push(r));
        assert forall|j: int| 0 <= j < rows.drop_first().len() implies rows.drop_first()[j].id
            != r.id by {
            assert(rows.drop_first()[j] == rows[j + 1]);
        }
        lemma_row_with_id_pushed(rows.drop_first(), r);
    }
}

/// A task added under a fresh id reads back with that id: the same title,
/// status, due date, priority and notes, created on the day of the insert,
/// and neither updated, completed nor deleted.
pub proof fn law_added_task_reads_back(rows: Seq<RowView>, task: TaskView, now: Seq<char>, id: u64)
    requires
        !has_id(rows, id),
    ensures
        task_with_id(apply(rows, ChangeView::Insert(new_task_row(task, now)), id), id) == Ok::<
            TaskView,
            crate::models::TaskErrorView,
        >(
            TaskView {
                id,
                created_at: now,
                updated_at: None,
                completed_at: None,
                deleted_at: None,
                ..task
            },
        ),
{
    let r = inserted_row(new_task_row(task, now), id);
    lemma_row_with_id_pushed(rows, r);
    law_status_name_reads_back(task.status);
    if let Some(p) = task.priority {
        law_priority_name_reads_back(p);
    }
}

proof fn lemma_assign_two(r: RowView, a: AssignmentView, b: AssignmentView)
    ensures
        assign_all(r, seq![a, b]) == assign(assign(r, a), b),
{
    assert(seq![a, b].drop_last() =~= seq![a]);
    assert(seq![a].drop_last() =~= Seq::<AssignmentView>::empty());
    assert(assign_all(r, Seq::<AssignmentView>::empty()) == r);
    assert(assign_all(r, seq![a]) == assign(r, a));
}

proof fn lemma_assign_three(r: RowView, a: AssignmentView, b: AssignmentView, c: AssignmentView)
    ensures
        assign_all(r, seq![a, b, c]) == assign(assign(assign(r, a), b), c),
{
    assert(seq![a, b, c].drop_last() =~= seq![a, b]);
    lemma_assign_two(r, a, b);
}

/// A row with its day of update set.
pub open spec fn touched(r: RowView, date: Seq<char>) -> RowView {
    RowView { updated_at: Some(date), ..r }
}

/// Deleting a task that is not deleted and restoring it gives back the same
/// rows, but for the day of update of that task, which is the day of the
/// restore.
pub proof fn law_restore_undoes_delete(
    rows: Seq<RowView>,
    id: u64,
    deleted_on: Seq<char>,
    restored_on: Seq<char>,
    id1: u64,
    id2: u64,
)
    requires
        forall|j: int| 0 <= j < rows.len() && rows[j].id == id ==> rows[j].deleted_at is None,
    ensures
        apply(apply(rows, soft_delete_view(id, deleted_on), id1), restore_view(id, restored_on), id2)
            == rows.map_values(
            |r: RowView|
                if r.id == id {
                    touched(r, restored_on)
                } else {
                    r
                },
        ),
{
    let after = apply(
        apply(rows, soft_delete_view(id, deleted_on), id1),
        restore_view(id, restored_on),
        id2,
    );
    let expected = rows.map_values(
        |r: RowView|
            if r.id == id {
                touched(r, restored_on)
            } else {
                r
            },
    );
    assert forall|j: int| 0 <= j < rows.len() implies after[j] == expected[j] by {
        let r = rows[j];
        let mid = apply(rows, soft_delete_view(id, deleted_on), id1);
        if r.id == id {
            lemma_assign_two(
                r,
                AssignmentView::DeletedAt(Some(deleted_on)),
                AssignmentView::UpdatedAt(deleted_on),
            );
            lemma_assign_two(
                mid[j],
                AssignmentView::DeletedAt(None),
                AssignmentView::UpdatedAt(restored_on),
            );
            assert(after[j] =~= touched(r, restored_on));
        } else {
            assert(mid[j] == r);
        }
    }
    assert(after =~= expected);
}

/// Reopening a completed task leaves it as reopening it would have without
/// the completion: ongoing, with no day of completion.
pub proof fn law_reopen_undoes_done(
    rows: Seq<RowView>,
    id: u64,
    done_on: Seq<char>,
    reopened_on: Seq<char>,
    id1: u64,
    id2: u64,
)
    ensures
        apply(
            apply(
                rows,
                ChangeView::Update { id, assignments: status_update(TaskStatus::Completed, done_on) },
                id1,
            ),
            ChangeView::Update { id, assignments: status_update(TaskStatus::Ongoing, reopened_on) },
            id2,
        ) == apply(
            rows,
            ChangeView::Update { id, assignments: status_update(TaskStatus::Ongoing, reopened_on) },
            id2,
        ),
{
    let done = ChangeView::Update { id, assignments: status_update(TaskStatus::Completed, done_on) };
    let reopen = ChangeView::Update {
        id,
        assignments: status_update(TaskStatus::Ongoing, reopened_on),
    };
    let lhs = apply(apply(rows, done, id1), reopen, id2);
    let rhs = apply(rows, reopen, id2);
    assert forall|j: int| 0 <= j < rows.len() implies lhs[j] == rhs[j] by {
        let r = rows[j];
        let mid = apply(rows, done, id1);
        if r.id == id {
            lemma_assign_three(
                r,
                AssignmentView::Status(TaskStatus::Completed),
                AssignmentView::UpdatedAt(done_on),
                AssignmentView::CompletedAt(Some(done_on)),
            );
            lemma_assign_three(
                mid[j],
                AssignmentView::Status(TaskStatus::Ongoing),
                AssignmentView::UpdatedAt(reopened_on),
                AssignmentView::CompletedAt(None),
            );
            lemma_assign_three(
                r,
                AssignmentView::Status(TaskStatus::Ongoing),
                AssignmentView::UpdatedAt(reopened_on),
                AssignmentView::CompletedAt(None),
            );
            assert(lhs[j] =~= rhs[j]);
        } else {
            assert(mid[j] == r);
        }
    }
    assert(lhs =~= rhs);
}

proof fn lemma_query_keep_live(rows: Seq<RowView>)
    ensures
        query_result(keep_rows(rows, |r: RowView| r.deleted_at is None), QueryView::Deleted)
            == Ok::<Seq<TaskView>, crate::models::TaskErrorView>(Seq::empty()),
        query_result(keep_rows(rows, |r: RowView| r.deleted_at is None), QueryView::NotDeleted)
            == query_result(rows, QueryView::NotDeleted),
    decreases rows.len(),
{
    if rows.len() > 0 {
        lemma_query_keep_live(rows.drop_last());
        let kept = keep_rows(rows.drop_last(), |r: RowView| r.deleted_at is None);
        if rows.last().deleted_at is None {
            assert(kept.push(rows.last()).drop_last() =~= kept);
        }
    }
}

/// Purging every deleted task leaves no deleted task, and the tasks not
/// deleted as they were.
pub proof fn law_purge_all_removes_exactly_deleted(rows: Seq<RowView>, new_id: u64)
    ensures
        query_result(apply(rows, ChangeView::DeleteSoftDeleted, new_id), QueryView::Deleted)
            == Ok::<Seq<TaskView>, crate::models::TaskErrorView>(Seq::empty()),
        query_result(apply(rows, ChangeView::DeleteSoftDeleted, new_id), QueryView::NotDeleted)
            == query_result(rows, QueryView::NotDeleted),
{
    lemma_query_keep_live(rows);
}

proof fn lemma_digit(n: int)
    requires
        0 <= n <= 9,
    ensures
        is_digit(digit_char(n)),
        digit_value(digit_char(n)) == n,
{
}

/// Every date written `dd/mm/yyyy` by the clock, for the years 0 to 9999, is
/// one that the check of due dates accepts, and its day, month and year read
/// back as those of the date.
pub proof fn law_written_dates_are_valid(d: CalendarDate)
    requires
        valid_date(d),
        0 <= d.year <= 9999,
    ensures
        date_text_ok(dmy_text(d)),
        number_at(dmy_text(d), 0, 2) == d.day,
        number_at(dmy_text(d), 3, 5) == d.month,
        number_at(dmy_text(d), 6, 10) == d.year,
{
    lemma_dmy_text_reads_back(d);
}

/// A day from 1 to 31 of a month from 1 to 12 of a year from 0 to 9999,
/// written `dd/mm/yyyy`, reads back as that day, month and year, and passes
/// the check of due dates exactly where it is a day of the calendar.
pub proof fn lemma_dmy_text_reads_back(d: CalendarDate)
    requires
        1 <= d.day <= 31,
        1 <= d.month <= 12,
        0 <= d.year <= 9999,
    ensures
        number_at(dmy_text(d), 0, 2) == d.day,
        number_at(dmy_text(d), 3, 5) == d.month,
        number_at(dmy_text(d), 6, 10) == d.year,
        date_text_ok(dmy_text(d)) <==> valid_ymd(d.year as int, d.month as int, d.day as int),
{
    let s = dmy_text(d);
    let day = d.day as int;
    let month = d.month as int;
    let year = d.year as int;
    lemma_digit(day / 10);
    lemma_digit(day % 10);
    lemma_digit(month / 10);
    lemma_digit(month % 10);
    lemma_digit(year / 1000);
    lemma_digit((year / 100) % 10);
    lemma_digit((year / 10) % 10);
    lemma_digit(year % 10);
    assert(s.len() == 10);
    assert(s[0] == digit_char(day / 10) && s[1] == digit_char(day % 10));
    assert(s[2] == '/');
    assert(s[3] == digit_char(month / 10) && s[4] == digit_char(month % 10));
    assert(s[5] == '/');
    assert(s[6] == digit_char(year / 1000));
    assert(s[7] == digit_char((year / 100) % 10));
    assert(s[8] == digit_char((year / 10) % 10));
    assert(s[9] == digit_char(year % 10));
    assert(number_at(s, 0, 0) == 0);
    assert(number_at(s, 0, 1) == day / 10);
    assert(number_at(s, 0, 2) == day);
    assert(number_at(s, 3, 3) == 0);
    assert(number_at(s, 3, 4) == month / 10);
    assert(number_at(s, 3, 5) == month);
    assert(number_at(s, 6, 6) == 0);
    assert(number_at(s, 6, 7) == year / 1000);
    assert(number_at(s, 6, 8) == year / 100);
    assert(number_at(s, 6, 9) == year / 10);
    assert(number_at(s, 6, 10) == year);
}

proof fn lemma_like_any(t: Seq<char>)
    ensures
        like(seq!['%'], t),
    decreases t.len(),
{
    let p = seq!['%'];
    assert(p.drop_first() =~= Seq::<char>::empty());
    assert(p[0] == '%');
    assert(p.len() == 1);
    if t.len() > 0 {
        lemma_like_any(t.drop_first());
    } else {
        assert(like(p.drop_first(), t));
    }
}

proof fn lemma_like_same_prefix(k: Seq<char>, rest: Seq<char>, t: Seq<char>)
    requires
        forall|i: int| 0 <= i < k.len() ==> k[i] != '%',
        like(rest, t),
    ensures
        like(k + rest, k + t),
    decreases k.len(),
{
    if k.len() == 0 {
        assert(k + rest =~= rest);
        assert(k + t =~= t);
    } else {
        let kk = k.drop_first();
        assert forall|i: int| 0 <= i < kk.len() implies kk[i] != '%' by {
            assert(kk[i] == k[i + 1]);
        }
        lemma_like_same_prefix(kk, rest, t);
        assert((k + rest).drop_first() =~= kk + rest);
        assert((k + t).drop_first() =~= kk + t);
        assert((k + rest)[0] == k[0]);
        assert((k + t)[0] == k[0]);
    }
}

proof fn lemma_like_skip(p: Seq<char>, a: Seq<char>, t: Seq<char>)
    requires
        like(p, t),
    ensures
        like(seq!['%'] + p, a + t),
    decreases a.len(),
{
    let pp = seq!['%'] + p;
    assert(pp.drop_first() =~= p);
    assert(pp[0] == '%');
    if a.len() == 0 {
        assert(a + t =~= t);
    } else {
        lemma_like_skip(p, a.drop_first(), t);
        assert((a + t).drop_first() =~= a.drop_first() + t);
    }
}

/// The search pattern of a key finds every text that holds the key, where the
/// key has no `%` in it.
pub proof fn law_search_finds_substring(key: Seq<char>, before: Seq<char>, after: Seq<char>)
    requires
        forall|i: int| 0 <= i < key.len() ==> key[i] != '%',
    ensures
        like(search_pattern(key), before + key + after),
{
    lemma_like_any(after);
    lemma_like_same_prefix(key, seq!['%'], after);
    lemma_like_skip(key + seq!['%'], before, key + after);
    assert(search_pattern(key) =~= seq!['%'] + (key + seq!['%']));
    assert(before + key + after =~= before + (key + after));
}

/// A listing that succeeds holds the task of every row it selects.
pub proof fn law_listing_holds_selected(rows: Seq<RowView>, q: QueryView, j: int)
    requires
        0 <= j < rows.len(),
        selects(q, rows[j]),
        query_result(rows, q) is Ok,
    ensures
        row_task(rows[j]) matches Some(t) && query_result(rows, q)->Ok_0.contains(t),
    decreases rows.len(),
{
    let ts = query_result(rows, q)->Ok_0;
    if j == rows.len() - 1 {
        let t = row_task(rows[j])->Some_0;
        assert(ts.last() == t);
        assert(ts[ts.len() - 1] == t);
    } else {
        assert(rows.drop_last()[j] == rows[j]);
        law_listing_holds_selected(rows.drop_last(), q, j);
        let prev = query_result(rows.drop_last(), q)->Ok_0;
        let t = row_task(rows[j])->Some_0;
        let k = choose|k: int| 0 <= k < prev.len() && prev[k] == t;
        if selects(q, rows.last()) {
            assert(ts[k] == t);
        } else {
            assert(ts[k] == t);
        }
    }
}

proof fn lemma_status_tallies(rows: Seq<RowView>)
    ensures
        tally(rows, |r: RowView| live_with_status(r, TaskStatus::Ongoing)) + tally(
            rows,
            |r: RowView| live_with_status(r, TaskStatus::Completed),
        ) <= tally(rows, |r: RowView| live(r)),
        (forall|j: int|
            0 <= j < rows.len() && #[trigger] live(rows[j]) ==> TaskStatus::from_name(rows[j].status)
                is Some) ==> tally(rows, |r: RowView| live_with_status(r, TaskStatus::Ongoing))
            + tally(rows, |r: RowView| live_with_status(r, TaskStatus::Completed)) == tally(
            rows,
            |r: RowView| live(r),
        ),
        tally(rows, |r: RowView| live_with_priority(r, PriorityOrder::High)) + tally(
            rows,
            |r: RowView| live_with_priority(r, PriorityOrder::Medium),
        ) + tally(rows, |r: RowView| live_with_priority(r, PriorityOrder::Low)) <= tally(
            rows,
            |r: RowView| live(r),
        ),
    decreases rows.len(),
{
    if rows.len() > 0 {
        lemma_status_tallies(rows.drop_last());
        if forall|j: int|
            0 <= j < rows.len() && #[trigger] live(rows[j]) ==> TaskStatus::from_name(rows[j].status)
                is Some {
            assert forall|j: int|
                0 <= j < rows.drop_last().len() && #[trigger] live(rows.drop_last()[j])
                    implies TaskStatus::from_name(rows.drop_last()[j].status) is Some by {
                assert(rows.drop_last()[j] == rows[j]);
            }
        }
        assert(crate::models::ongoing_chars() != crate::models::completed_chars()) by {
            assert(crate::models::ongoing_chars().len() != crate::models::completed_chars().len());
        }
        assert(PriorityOrder::High.name() != PriorityOrder::Medium.name()) by {
            assert(PriorityOrder::High.name().len() != PriorityOrder::Medium.name().len());
        }
        assert(PriorityOrder::High.name() != PriorityOrder::Low.name()) by {
            assert(PriorityOrder::High.name().len() != PriorityOrder::Low.name().len());
        }
        assert(PriorityOrder::Medium.name() != PriorityOrder::Low.name()) by {
            assert(PriorityOrder::Medium.name().len() != PriorityOrder::Low.name().len());
        }
        let last = rows.last();
        assert(live(rows[rows.len() - 1]) == live(last));
    }
}

/// The statistics add up: ongoing and completed tasks are at most all tasks
/// not deleted, and exactly as many where every such task has a known status;
/// the tasks of the three priorities are at most all tasks not deleted.
pub proof fn law_stats_add_up(rows: Seq<RowView>)
    ensures
        stats_of(rows)[1] + stats_of(rows)[2] <= stats_of(rows)[0],
        (forall|j: int|
            0 <= j < rows.len() && #[trigger] live(rows[j]) ==> TaskStatus::from_name(rows[j].status)
                is Some) ==> stats_of(rows)[1] + stats_of(rows)[2] == stats_of(rows)[0],
        stats_of(rows)[3] + stats_of(rows)[4] + stats_of(rows)[5] <= stats_of(rows)[0],
{
    lemma_status_tallies(rows);
}

/// `list` without flags lists what `list --ongoing` lists, and
/// `list --all --deleted` every task, deleted or not.
pub proof fn law_list_defaults(rows: Seq<RowView>, clock: ClockView)
    ensures
        plan(
            rows,
            CommandsView::List {
                all: false,
                completed: false,
                ongoing: false,
                low: false,
                medium: false,
                high: false,
                deleted: false,
            },
            clock,
        ) == plan(
            rows,
            CommandsView::List {
                all: false,
                completed: false,
                ongoing: true,
                low: false,
                medium: false,
                high: false,
                deleted: false,
            },
            clock,
        ),
        list_result(rows, true, false, false, false, false, false, true) == query_result(
            rows,
            QueryView::Everything,
        ),
{
}

/// An `add` that writes inserts a task whose title no task of the table has.
pub proof fn law_add_keeps_titles_unique(
    rows: Seq<RowView>,
    title: Seq<Seq<char>>,
    priority: Option<PriorityOrder>,
    due: Option<Seq<char>>,
    notes: Option<Seq<Seq<char>>>,
    clock: ClockView,
)
    ensures
        plan(rows, CommandsView::Add { title, priority, due, notes }, clock) matches PlanView::Writes(
            cs,
            _,
        ) ==> forall|j: int| 0 <= j < rows.len() ==> rows[j].title != join(title, " "@),
{
    let name = join(title, " "@);
    let t = TaskView {
        id: 0,
        title: name,
        status: TaskStatus::Ongoing,
        created_at: Seq::empty(),
        updated_at: None,
        completed_at: None,
        deleted_at: None,
        due_at: due,
        priority,
        notes: words_opt(notes),
    };
    if plan(rows, CommandsView::Add { title, priority, due, notes }, clock) is Writes {
        assert forall|j: int| 0 <= j < rows.len() implies rows[j].title != name by {
            if rows[j].title == name {
                assert(repeats(rows[j], t));
            }
        }
    }
}

/// The report of an `add` that writes, once the table has given the new row
/// a fresh id: the task added, with that id, created today.
pub proof fn law_add_reports_added_task(
    rows: Seq<RowView>,
    title: Seq<Seq<char>>,
    priority: Option<PriorityOrder>,
    due: Option<Seq<char>>,
    notes: Option<Seq<Seq<char>>>,
    clock: ClockView,
    id: u64,
)
    requires
        !has_id(rows, id),
        plan(rows, CommandsView::Add { title, priority, due, notes }, clock) is Writes,
    ensures
        ({
            let (cs, after) = match plan(rows, CommandsView::Add { title, priority, due, notes }, clock) {
                PlanView::Writes(cs, after) => (cs, after),
                PlanView::Done(_) => (Seq::empty(), FollowupView::Say(Seq::empty())),
            };
            &&& cs.len() == 1
            &&& finish(apply(rows, cs[0], id), after, id) == say(
                seq![
                    "Task added successfully: "@ + display_text(
                        TaskView {
                            id,
                            title: join(title, " "@),
                            status: TaskStatus::Ongoing,
                            created_at: clock.today,
                            updated_at: None,
                            completed_at: None,
                            deleted_at: None,
                            due_at: due,
                            priority,
                            notes: words_opt(notes),
                        },
                    ),
                ],
            )
        }),
{
    let t = TaskView {
        id: 0,
        title: join(title, " "@),
        status: TaskStatus::Ongoing,
        created_at: Seq::empty(),
        updated_at: None,
        completed_at: None,
        deleted_at: None,
        due_at: due,
        priority,
        notes: words_opt(notes),
    };
    assert(new_task_row(t, clock.today) == NewRowView {
        title: join(title, " "@),
        status: TaskStatus::Ongoing,
        created_at: clock.today,
        completed_at: None,
        deleted_at: None,
        due_at: due,
        priority,
        notes: words_opt(notes),
    });
    law_added_task_reads_back(rows, t, clock.today, id);
}

proof fn lemma_scan_extends_word(s: Seq<char>, w: Seq<char>)
    requires
        forall|i: int| 0 <= i < w.len() ==> !is_ws(#[trigger] w[i]),
    ensures
        scan_words(s + w) == (scan_words(s).0, scan_words(s).1 + w),
    decreases w.len(),
{
    if w.len() == 0 {
        assert(s + w =~= s);
        assert(scan_words(s).1 + w =~= scan_words(s).1);
    } else {
        let wl = w.drop_last();
        assert forall|i: int| 0 <= i < wl.len() implies !is_ws(#[trigger] wl[i]) by {
            assert(wl[i] == w[i]);
        }
        lemma_scan_extends_word(s, wl);
        assert((s + w).drop_last() =~= s + wl);
        assert((s + w).last() == w.last());
        assert(!is_ws(w[w.len() - 1]));
        assert(scan_words(s).1 + wl + seq![w.last()] =~= scan_words(s).1 + w);
        assert((scan_words(s).1 + wl).push(w.last()) =~= scan_words(s).1 + w);
    }
}

proof fn lemma_scan_joined(ws: Seq<Seq<char>>)
    requires
        ws.len() > 0,
        forall|k: int| 0 <= k < ws.len() ==> is_word(#[trigger] ws[k]),
    ensures
        scan_words(join(ws, " "@)) == (ws.drop_last(), ws.last()),
    decreases ws.len(),
{
    reveal_strlit(" ");
    let w = ws.last();
    assert(is_word(ws[ws.len() - 1]));
    if ws.len() == 1 {
        lemma_scan_extends_word(Seq::empty(), w);
        assert(Seq::<char>::empty() + w =~= w);
        assert(scan_words(Seq::<char>::empty()).1 + w =~= w);
        assert(ws.drop_last() =~= Seq::<Seq<char>>::empty());
    } else {
        let front = ws.drop_last();
        assert forall|k: int| 0 <= k < front.len() implies is_word(#[trigger] front[k]) by {
            assert(front[k] == ws[k]);
        }
        lemma_scan_joined(front);
        let j = join(front, " "@);
        let js = j + " "@;
        assert(js.drop_last() =~= j);
        assert(js.last() == ' ');
        assert(is_word(front[front.len() - 1]));
        assert(front.drop_last().push(front.last()) =~= front);
        assert(scan_words(js) == (front, Seq::<char>::empty()));
        lemma_scan_extends_word(js, w);
        assert(Seq::<char>::empty() + w =~= w);
        assert(join(ws, " "@) == js + w);
    }
}

/// Words joined with single spaces split back into the same words: a title
/// or notes of several words need no quotes at the prompt.
pub proof fn law_split_undoes_join(ws: Seq<Seq<char>>)
    requires
        forall|k: int| 0 <= k < ws.len() ==> is_word(#[trigger] ws[k]),
    ensures
        words(join(ws, " "@)) == ws,
{
    if ws.len() > 0 {
        lemma_scan_joined(ws);
        assert(is_word(ws[ws.len() - 1]));
        assert(ws.drop_last().push(ws.last()) =~= ws);
    } else {
        assert(join(ws, " "@) =~= Seq::<char>::empty());
    }
}

proof fn lemma_assign_all_concat(r: RowView, a: Seq<AssignmentView>, b: Seq<AssignmentView>)
    ensures
        assign_all(r, a + b) == assign_all(assign_all(r, a), b),
    decreases b.len(),
{
    if b.len() == 0 {
        assert(a + b =~= a);
    } else {
        lemma_assign_all_concat(r, a, b.drop_last());
        assert((a + b).drop_last() =~= a + b.drop_last());
        assert((a + b).last() == b.last());
    }
}

proof fn lemma_assign_one(r: RowView, a: AssignmentView)
    ensures
        assign_all(r, seq![a]) == assign(r, a),
{
    assert(seq![a].drop_last() =~= Seq::<AssignmentView>::empty());
    assert(seq![a].last() == a);
    assert(assign_all(r, Seq::<AssignmentView>::empty()) == r);
}

proof fn lemma_assign_keeps_id(r: RowView, a: Seq<AssignmentView>)
    ensures
        assign_all(r, a).id == r.id,
    decreases a.len(),
{
    if a.len() > 0 {
        lemma_assign_keeps_id(r, a.drop_last());
    }
}

proof fn lemma_row_with_id_updated(rows: Seq<RowView>, id: u64, a: Seq<AssignmentView>)
    ensures
        row_with_id(
            rows.map_values(
                |r: RowView|
                    if r.id == id {
                        assign_all(r, a)
                    } else {
                        r
                    },
            ),
            id,
        ) == match row_with_id(rows, id) {
            Some(r) => Some(assign_all(r, a)),
            None => None,
        },
    decreases rows.len(),
{
    let f = |r: RowView|
        if r.id == id {
            assign_all(r, a)
        } else {
            r
        };
    if rows.len() > 0 {
        lemma_row_with_id_updated(rows.drop_first(), id, a);
        assert(rows.map_values(f).drop_first() =~= rows.drop_first().map_values(f));
        lemma_assign_keeps_id(rows[0], a);
        assert(rows.map_values(f)[0] == f(rows[0]));
    }
}

/// An update of a task reads back with the fields given, the other fields as
/// they were, and the day of the update.
pub proof fn law_update_reads_back(
    rows: Seq<RowView>,
    id: u64,
    title: Option<Seq<char>>,
    due: Option<Seq<char>>,
    priority: Option<PriorityOrder>,
    notes: Option<Seq<char>>,
    date: Seq<char>,
    new_id: u64,
)
    requires
        update_result(id, title, due, priority, notes, date) is Ok,
    ensures
        task_with_id(apply(rows, update_result(id, title, due, priority, notes, date)->Ok_0, new_id), id)
            == match task_with_id(rows, id) {
            Ok(t) => Ok(
                TaskView {
                    title: match title {
                        Some(v) => v,
                        None => t.title,
                    },
                    due_at: match due {
                        Some(v) => Some(v),
                        None => t.due_at,
                    },
                    priority: match priority {
                        Some(p) => Some(p),
                        None => t.priority,
                    },
                    notes: match notes {
                        Some(n) => Some(n),
                        None => t.notes,
                    },
                    updated_at: Some(date),
                    ..t
                },
            ),
            Err(e) => Err(e),
        },
{
    let tp = match title {
        Some(t) => seq![AssignmentView::Title(t)],
        None => Seq::<AssignmentView>::empty(),
    };
    let dp = match due {
        Some(d) => seq![AssignmentView::DueAt(d)],
        None => Seq::<AssignmentView>::empty(),
    };
    let pp = match priority {
        Some(p) => seq![AssignmentView::Priority(p)],
        None => Seq::<AssignmentView>::empty(),
    };
    let np = match notes {
        Some(n) => seq![AssignmentView::Notes(n)],
        None => Seq::<AssignmentView>::empty(),
    };
    let up = seq![AssignmentView::UpdatedAt(date)];
    let a = task_update(title, due, priority, notes, date);
    assert(a == tp + dp + pp + np + up);
    lemma_row_with_id_updated(rows, id, a);
    if let Some(r0) = row_with_id(rows, id) {
        lemma_assign_all_concat(r0, tp + dp + pp + np, up);
        lemma_assign_all_concat(r0, tp + dp + pp, np);
        lemma_assign_all_concat(r0, tp + dp, pp);
        lemma_assign_all_concat(r0, tp, dp);
        let r1 = assign_all(r0, tp);
        let r2 = assign_all(r1, dp);
        let r3 = assign_all(r2, pp);
        let r4 = assign_all(r3, np);
        lemma_assign_one(r4, AssignmentView::UpdatedAt(date));
        if let Some(t) = title {
            lemma_assign_one(r0, AssignmentView::Title(t));
        }
        if let Some(d) = due {
            lemma_assign_one(r1, AssignmentView::DueAt(d));
        }
        if let Some(p) = priority {
            lemma_assign_one(r2, AssignmentView::Priority(p));
            law_priority_name_reads_back(p);
        }
        if let Some(n) = notes {
            lemma_assign_one(r3, AssignmentView::Notes(n));
        }
    }
}

/// A listing that succeeds holds nothing but the tasks of rows it selects.
pub proof fn law_listing_holds_only_selected(rows: Seq<RowView>, q: QueryView, t: TaskView)
    requires
        query_result(rows, q) is Ok,
        query_result(rows, q)->Ok_0.contains(t),
    ensures
        exists|j: int|
            0 <= j < rows.len() && selects(q, #[trigger] rows[j]) && row_task(rows[j]) == Some(t),
    decreases rows.len(),
{
    let ts = query_result(rows, q)->Ok_0;
    let init = rows.drop_last();
    let prev = query_result(init, q)->Ok_0;
    let last = rows.last();
    let k = choose|k: int| 0 <= k < ts.len() && ts[k] == t;
    if selects(q, last) && k == ts.len() - 1 {
        assert(rows[rows.len() - 1] == last);
    } else {
        if selects(q, last) {
            assert(ts =~= prev.push(row_task(last)->Some_0));
            assert(prev[k] == t);
        } else {
            assert(prev[k] == t);
        }
        law_listing_holds_only_selected(init, q, t);
        let j = choose|j: int|
            0 <= j < init.len() && selects(q, #[trigger] init[j]) && row_task(init[j]) == Some(t);
        assert(init[j] == rows[j]);
    }
}

/// Two listings that share out the rows a third one selects, each row to at
/// most one of them, hold between them the tasks of the third, each as often.
proof fn lemma_listings_share_out(rows: Seq<RowView>, a: QueryView, b: QueryView, c: QueryView)
    requires
        forall|j: int|
            #![trigger rows[j]]
            0 <= j < rows.len() ==> (selects(c, rows[j]) <==> (selects(a, rows[j]) || selects(
                b,
                rows[j],
            ))),
        forall|j: int|
            #![trigger rows[j]]
            0 <= j < rows.len() ==> !(selects(a, rows[j]) && selects(b, rows[j])),
        forall|j: int|
            #![trigger rows[j]]
            0 <= j < rows.len() && selects(c, rows[j]) ==> row_task(rows[j]) is Some,
    ensures
        query_result(rows, a) is Ok,
        query_result(rows, b) is Ok,
        query_result(rows, c) is Ok,
        query_result(rows, a)->Ok_0.to_multiset().add(query_result(rows, b)->Ok_0.to_multiset())
            =~= query_result(rows, c)->Ok_0.to_multiset(),
    decreases rows.len(),
{
    broadcast use vstd::seq_lib::group_to_multiset_ensures;

    if rows.len() == 0 {
        let e = Seq::<TaskView>::empty();
        assert(e.to_multiset().len() == 0);
        assert(e.to_multiset() =~= vstd::multiset::Multiset::empty());
    } else {
        let init = rows.drop_last();
        assert forall|j: int| 0 <= j < init.len() implies #[trigger] init[j] == rows[j] by {}
        lemma_listings_share_out(init, a, b, c);
        let last = rows.last();
        assert(rows[rows.len() - 1] == last);
    }
}

/// `list --ongoing` and `list --completed` share out the tasks that `list
/// --all` lists: where every task not deleted has a known status, the two
/// listings hold between them each task not deleted exactly as often as the
/// listing of all of them does, the first only ongoing tasks and the second
/// only completed ones, so that no task is in both.
pub proof fn law_status_shares_out_live_tasks(rows: Seq<RowView>)
    requires
        forall|j: int|
            0 <= j < rows.len() && #[trigger] live(rows[j]) ==> row_task(rows[j]) is Some,
    ensures
        query_result(rows, QueryView::NotDeleted) is Ok,
        query_result(rows, QueryView::Status { status: TaskStatus::Ongoing, include_deleted: false })
            is Ok,
        query_result(
            rows,
            QueryView::Status { status: TaskStatus::Completed, include_deleted: false },
        ) is Ok,
        query_result(
            rows,
            QueryView::Status { status: TaskStatus::Ongoing, include_deleted: false },
        )->Ok_0.to_multiset().add(
            query_result(
                rows,
                QueryView::Status { status: TaskStatus::Completed, include_deleted: false },
            )->Ok_0.to_multiset(),
        ) == query_result(rows, QueryView::NotDeleted)->Ok_0.to_multiset(),
        forall|t: TaskView|
            #[trigger] query_result(
                rows,
                QueryView::Status { status: TaskStatus::Ongoing, include_deleted: false },
            )->Ok_0.contains(t) ==> t.status == TaskStatus::Ongoing,
        forall|t: TaskView|
            #[trigger] query_result(
                rows,
                QueryView::Status { status: TaskStatus::Completed, include_deleted: false },
            )->Ok_0.contains(t) ==> t.status == TaskStatus::Completed,
{
    let a = QueryView::Status { status: TaskStatus::Ongoing, include_deleted: false };
    let b = QueryView::Status { status: TaskStatus::Completed, include_deleted: false };
    let c = QueryView::NotDeleted;
    assert(crate::models::ongoing_chars() != crate::models::completed_chars()) by {
        assert(crate::models::ongoing_chars().len() != crate::models::completed_chars().len());
    }
    assert forall|j: int| 0 <= j < rows.len() implies (selects(c, #[trigger] rows[j]) <==> (
    selects(a, rows[j]) || selects(b, rows[j]))) && !(selects(a, rows[j]) && selects(b, rows[j]))
        && (selects(c, rows[j]) ==> row_task(rows[j]) is Some) by {
        if live(rows[j]) {
            assert(row_task(rows[j]) is Some);
        }
    }
    lemma_listings_share_out(rows, a, b, c);
    assert forall|t: TaskView| #[trigger] query_result(rows, a)->Ok_0.contains(t) implies t.status
        == TaskStatus::Ongoing by {
        law_listing_holds_only_selected(rows, a, t);
    }
    assert forall|t: TaskView| #[trigger] query_result(rows, b)->Ok_0.contains(t) implies t.status
        == TaskStatus::Completed by {
        law_listing_holds_only_selected(rows, b, t);
    }
}

/// The tasks not deleted and the deleted tasks are, taken together, every
/// task of the table: where every row has a known status, `list` of the tasks
/// not deleted and `deleted` hold between them each task exactly as often as
/// the listing of every task does, the first only tasks without a deletion
/// date and the second only tasks with one, so that no task is in both; and
/// where no two rows share an id, no id is in both.
pub proof fn law_deleted_and_live_make_every_task(rows: Seq<RowView>)
    requires
        forall|j: int| 0 <= j < rows.len() ==> row_task(#[trigger] rows[j]) is Some,
    ensures
        query_result(rows, QueryView::NotDeleted) is Ok,
        query_result(rows, QueryView::Deleted) is Ok,
        query_result(rows, QueryView::Everything) is Ok,
        query_result(rows, QueryView::NotDeleted)->Ok_0.to_multiset().add(
            query_result(rows, QueryView::Deleted)->Ok_0.to_multiset(),
        ) == query_result(rows, QueryView::Everything)->Ok_0.to_multiset(),
        forall|t: TaskView|
            #[trigger] query_result(rows, QueryView::NotDeleted)->Ok_0.contains(t)
                ==> t.deleted_at is None,
        forall|t: TaskView|
            #[trigger] query_result(rows, QueryView::Deleted)->Ok_0.contains(t)
                ==> t.deleted_at is Some,
        (forall|i: int, j: int| 0 <= i < j < rows.len() ==> rows[i].id != rows[j].id) ==> forall|
            t: TaskView,
            u: TaskView,
        |
            #[trigger] query_result(rows, QueryView::NotDeleted)->Ok_0.contains(t) && #[trigger] query_result(
                rows,
                QueryView::Deleted,
            )->Ok_0.contains(u) ==> t.id != u.id,
{
    let a = QueryView::NotDeleted;
    let b = QueryView::Deleted;
    let c = QueryView::Everything;
    lemma_listings_share_out(rows, a, b, c);
    if forall|i: int, j: int| 0 <= i < j < rows.len() ==> rows[i].id != rows[j].id {
        assert forall|t: TaskView, u: TaskView|
            #[trigger] query_result(rows, a)->Ok_0.contains(t) && #[trigger] query_result(
                rows,
                b,
            )->Ok_0.contains(u) implies t.id != u.id by {
            law_listing_holds_only_selected(rows, a, t);
            law_listing_holds_only_selected(rows, b, u);
            let i = choose|i: int|
                0 <= i < rows.len() && selects(a, #[trigger] rows[i]) && row_task(rows[i]) == Some(t);
            let j = choose|j: int|
                0 <= j < rows.len() && selects(b, #[trigger] rows[j]) && row_task(rows[j]) == Some(u);
            assert(i != j);
            if i < j {
                assert(rows[i].id != rows[j].id);
            } else {
                assert(rows[j].id != rows[i].id);
            }
        }
    }
    assert forall|t: TaskView| #[trigger] query_result(rows, a)->Ok_0.contains(t) implies t.deleted_at
        is None by {
        law_listing_holds_only_selected(rows, a, t);
    }
    assert forall|t: TaskView| #[trigger] query_result(rows, b)->Ok_0.contains(t) implies t.deleted_at
        is Some by {
        law_listing_holds_only_selected(rows, b, t);
    }
}

/// Every task a search finds holds the key in its title or in its notes, as
/// the search pattern of the key matches them.
pub proof fn law_search_finds_only_matches(rows: Seq<RowView>, key: Seq<char>, t: TaskView)
    requires
        query_result(rows, QueryView::Like { pattern: search_pattern(key) }) is Ok,
        query_result(rows, QueryView::Like { pattern: search_pattern(key) })->Ok_0.contains(t),
    ensures
        like(search_pattern(key), t.title) || (t.notes matches Some(n) && like(
            search_pattern(key),
            n,
        )),
{
    law_listing_holds_only_selected(rows, QueryView::Like { pattern: search_pattern(key) }, t);
}

/// Two different days of the years 0 to 9999 are written differently.
proof fn lemma_written_days_differ(a: CalendarDate, b: CalendarDate)
    requires
        valid_date(a),
        valid_date(b),
        0 <= a.year,
        b.year <= 9999,
        day_key(a) < day_key(b),
    ensures
        dmy_text(a) != dmy_text(b),
{
    assert(a.year <= b.year);
    law_written_dates_are_valid(a);
    law_written_dates_are_valid(b);
}

/// Every sample task is completed exactly where it has a completion date, was
/// created today, yesterday, last week or two weeks ago, and is either not
/// deleted or deleted yesterday.
pub proof fn law_sample_tasks_keep_their_dates(sd: SeedDatesView)
    ensures
        forall|i: int|
            0 <= i < seed_rows(sd).len() ==> ((#[trigger] seed_rows(sd)[i]).status
                == TaskStatus::Completed <==> seed_rows(sd)[i].completed_at is Some),
        forall|i: int|
            0 <= i < seed_rows(sd).len() ==> {
                ||| (#[trigger] seed_rows(sd)[i]).created_at == sd.today
                ||| seed_rows(sd)[i].created_at == sd.yesterday
                ||| seed_rows(sd)[i].created_at == sd.last_week
                ||| seed_rows(sd)[i].created_at == sd.two_weeks_ago
            },
        forall|i: int|
            0 <= i < seed_rows(sd).len() ==> (#[trigger] seed_rows(sd)[i]).deleted_at is None
                || seed_rows(sd)[i].deleted_at == Some(sd.yesterday),
{
}

/// The local day of an instant a whole number of days after `now`, where
/// local time is `o` ahead of UTC there, is that many days after the local
/// day of `now` with the same offset.
proof fn lemma_local_day_shift(now: int, n: int, o: int)
    requires
        local_day(now, n, o) is Some,
    ensures
        local_day(now, n, o) == shifted_date(epoch(), (now + o) / 86400 + n),
{
    assert((now + n * 86400 + o) / 86400 == (now + o) / 86400 + n);
}

/// Which sample tasks are due on a day, where today and tomorrow differ from
/// every other due date of the samples.
proof fn lemma_sample_due_sets(sd: SeedDatesView)
    requires
        sd.today != sd.tomorrow,
        sd.today != sd.next_week,
        sd.today != sd.in_thirty_days,
        sd.today != sd.in_five_days,
        sd.today != sd.five_days_ago,
        sd.tomorrow != sd.next_week,
        sd.tomorrow != sd.in_thirty_days,
        sd.tomorrow != sd.in_five_days,
        sd.tomorrow != sd.five_days_ago,
    ensures
        Set::new(
            |i: int| 0 <= i < seed_rows(sd).len() && seed_rows(sd)[i].due_at == Some(sd.today),
        ) == set![1int],
        Set::new(
            |i: int| 0 <= i < seed_rows(sd).len() && seed_rows(sd)[i].due_at == Some(sd.tomorrow),
        ) == set![0int],
{
    assert(Set::new(
        |i: int| 0 <= i < seed_rows(sd).len() && seed_rows(sd)[i].due_at == Some(sd.today),
    ) =~= set![1int]);
    assert(Set::new(
        |i: int| 0 <= i < seed_rows(sd).len() && seed_rows(sd)[i].due_at == Some(sd.tomorrow),
    ) =~= set![0int]);
}

/// Of the sample tasks, exactly one is due today and exactly one tomorrow,
/// and neither of them is deleted, where the sample dates are the local days
/// of instants whole days of 24 hours apart, local time is equally far ahead
/// of UTC at the instants of today, tomorrow, next week, in five and in
/// thirty days and five days ago, and those days are of the years 0 to 9999.
pub proof fn law_sample_due_today_and_tomorrow_once(sd: SeedDatesView, now: int, offs: Seq<i32>)
    requires
        offsets_ok(offs),
        sample_days_exist(now, offs),
        sample_dates_at(sd, now, offs),
        offs[4] == offs[0],
        offs[5] == offs[0],
        offs[6] == offs[0],
        offs[7] == offs[0],
        offs[9] == offs[0],
        0 <= local_day(now, -5, offs[9] as int)->Some_0.year,
        local_day(now, 30, offs[6] as int)->Some_0.year <= 9999,
    ensures
        Set::new(
            |i: int| 0 <= i < seed_rows(sd).len() && seed_rows(sd)[i].due_at == Some(sd.today),
        ) == set![1int],
        Set::new(
            |i: int| 0 <= i < seed_rows(sd).len() && seed_rows(sd)[i].due_at == Some(sd.tomorrow),
        ) == set![0int],
        seed_rows(sd)[0].deleted_at is None,
        seed_rows(sd)[1].deleted_at is None,
{
    let o = offs[0] as int;
    let k = (now + o) / 86400;
    lemma_local_day_shift(now, -5, o);
    lemma_local_day_shift(now, 0, o);
    lemma_local_day_shift(now, 1, o);
    lemma_local_day_shift(now, 5, o);
    lemma_local_day_shift(now, 7, o);
    lemma_local_day_shift(now, 30, o);
    assert(valid_date(epoch()));
    lemma_shift_valid(epoch(), k - 5);
    lemma_shift_valid(epoch(), k);
    lemma_shift_valid(epoch(), k + 1);
    lemma_shift_valid(epoch(), k + 5);
    lemma_shift_valid(epoch(), k + 7);
    lemma_shift_valid(epoch(), k + 30);
    let d0 = shifted_date(epoch(), k - 5)->Some_0;
    let d1 = shifted_date(epoch(), k)->Some_0;
    let d2 = shifted_date(epoch(), k + 1)->Some_0;
    let d3 = shifted_date(epoch(), k + 5)->Some_0;
    let d4 = shifted_date(epoch(), k + 7)->Some_0;
    let d5 = shifted_date(epoch(), k + 30)->Some_0;
    lemma_shift_ordered(epoch(), k - 5, k);
    lemma_shift_ordered(epoch(), k, k + 1);
    lemma_shift_ordered(epoch(), k + 1, k + 5);
    lemma_shift_ordered(epoch(), k + 5, k + 7);
    lemma_shift_ordered(epoch(), k + 7, k + 30);
    assert(d0.year <= d1.year <= d2.year <= d3.year <= d4.year <= d5.year);
    lemma_written_days_differ(d1, d2);
    lemma_written_days_differ(d1, d3);
    lemma_written_days_differ(d1, d4);
    lemma_written_days_differ(d1, d5);
    lemma_written_days_differ(d0, d1);
    lemma_written_days_differ(d2, d3);
    lemma_written_days_differ(d2, d4);
    lemma_written_days_differ(d2, d5);
    lemma_written_days_differ(d0, d2);
    lemma_sample_due_sets(sd);
}

} // verus!
