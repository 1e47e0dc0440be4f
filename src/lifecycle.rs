use vstd::prelude::*;

use crate::clock::{current_year_month, now_unix_seconds};
use crate::error::PaymeError;
use crate::model::{
    BudgetCategory, FixedExpense, IncomeEntry, ItemWithCategory, Month, MonthSummary,
    MonthlyBudgetWithCategory,
};
use crate::money::MAX_ROWS;
use crate::report::{layout_report, lines_spec, report_spec, title_text, ReportLayout};
use crate::summary::{summarize, summarizes};

verus! {

/// `m` is the record of `user_id` for the calendar month `year`/`month`.
pub open spec fn month_matches(m: Month, user_id: i64, year: i32, month: i32) -> bool {
    m.user_id == user_id && m.year == year && m.month == month
}

/// The record created for a month that did not exist yet: open, never closed.
pub open spec fn opened(id: i64, user_id: i64, year: i32, month: i32) -> Month {
    Month { id, user_id, year, month, is_closed: false, closed_at: None }
}

/// What finding the month of a user leads to.
#[derive(Clone, Copy, Debug, PartialEq, Eq, Structural)]
pub enum MonthResolution {
    /// The month exists: this is its record.
    Existing(Month),
    /// The month does not exist: a record with these fields is to be created.
    Create { user_id: i64, year: i32, month: i32 },
}

/// `r` is what finding `user_id`'s month `year`/`month` among `months` gives:
/// the first matching record, or a creation when none matches.
pub open spec fn resolves_to(
    months: Seq<Month>,
    user_id: i64,
    year: i32,
    month: i32,
    r: MonthResolution,
) -> bool {
    match r {
        MonthResolution::Existing(m) => exists|i: int|
            0 <= i < months.len() && months[i] == m && month_matches(m, user_id, year, month)
                && forall|j: int|
                0 <= j < i ==> !month_matches(#[trigger] months[j], user_id, year, month),
        MonthResolution::Create { user_id: u, year: y, month: mo } => {
            &&& u == user_id
            &&& y == year
            &&& mo == month
            &&& forall|j: int|
                0 <= j < months.len() ==> !month_matches(#[trigger] months[j], user_id, year, month)
        },
    }
}

/// The month records once a resolution has been carried out, the created
/// record taking the id `fresh_id`.
pub open spec fn after_resolution(months: Seq<Month>, r: MonthResolution, fresh_id: i64) -> Seq<
    Month,
> {
    match r {
        MonthResolution::Existing(_) => months,
        MonthResolution::Create { user_id, year, month } => months.push(
            opened(fresh_id, user_id, year, month),
        ),
    }
}

/// The id of the month that a resolution stands for.
pub open spec fn resolved_id(r: MonthResolution, fresh_id: i64) -> i64 {
    match r {
        MonthResolution::Existing(m) => m.id,
        MonthResolution::Create { .. } => fresh_id,
    }
}

/// Finds `user_id`'s record of `year`/`month`, or says that it is to be created.
pub fn resolve_month(months: &Vec<Month>, user_id: i64, year: i32, month: i32) -> (r:
    MonthResolution)
    ensures
        resolves_to(months@, user_id, year, month, r),
{
    let mut i: usize = 0;
    while i < months.len()
        invariant
            i <= months.len(),
            forall|j: int| 0 <= j < i ==> !month_matches(#[trigger] months@[j], user_id, year, month),
        decreases months.len() - i,
    {
        let m = months[i];
        if m.user_id == user_id && m.year == year && m.month == month {
            return MonthResolution::Existing(m);
        }
        i = i + 1;
    }
    MonthResolution::Create { user_id, year, month }
}

/// Finds or plans `user_id`'s record of the present calendar month.
pub fn resolve_current_month(months: &Vec<Month>, user_id: i64) -> (r: MonthResolution)
    ensures
        exists|year: i32, month: i32|
            1 <= month <= 12 && #[trigger] resolves_to(months@, user_id, year, month, r),
{
    let (year, month) = current_year_month();
    let r = resolve_month(months, user_id, year, month as i32);
    assert(resolves_to(months@, user_id, year, month as i32, r));
    r
}

/// The open record that a planned creation becomes once the store gave it `id`.
pub fn created_month(id: i64, user_id: i64, year: i32, month: i32) -> (r: Month)
    ensures
        r == opened(id, user_id, year, month),
{
    Month { id, user_id, year, month, is_closed: false, closed_at: None }
}

/// Resolving the same month twice, with the first resolution carried out in
/// between, finds the record that the first one stood for.
pub proof fn lemma_resolve_idempotent(
    months: Seq<Month>,
    user_id: i64,
    year: i32,
    month: i32,
    fresh_id: i64,
    first: MonthResolution,
    second: MonthResolution,
)
    requires
        resolves_to(months, user_id, year, month, first),
        resolves_to(after_resolution(months, first, fresh_id), user_id, year, month, second),
    ensures
        second is Existing,
        second->Existing_0.id == resolved_id(first, fresh_id),
{
    let months2 = after_resolution(months, first, fresh_id);
    match first {
        MonthResolution::Existing(m1) => {
            let i1 = choose|i: int|
                0 <= i < months.len() && months[i] == m1 && month_matches(m1, user_id, year, month)
                    && forall|j: int|
                    0 <= j < i ==> !month_matches(#[trigger] months[j], user_id, year, month);
            match second {
                MonthResolution::Existing(m2) => {
                    let i2 = choose|i: int|
                        0 <= i < months2.len() && months2[i] == m2 && month_matches(
                            m2,
                            user_id,
                            year,
                            month,
                        ) && forall|j: int|
                            0 <= j < i ==> !month_matches(
                                #[trigger] months2[j],
                                user_id,
                                year,
                                month,
                            );
                    if i1 < i2 {
                        assert(!month_matches(months2[i1], user_id, year, month));
                    } else if i2 < i1 {
                        assert(!month_matches(months[i2], user_id, year, month));
                    }
                },
                MonthResolution::Create { .. } => {
                    assert(!month_matches(months2[i1], user_id, year, month));
                },
            }
        },
        MonthResolution::Create { .. } => {
            let last = months.len() as int;
            assert(months2[last] == opened(fresh_id, user_id, year, month));
            match second {
                MonthResolution::Existing(m2) => {
                    let i2 = choose|i: int|
                        0 <= i < months2.len() && months2[i] == m2 && month_matches(
                            m2,
                            user_id,
                            year,
                            month,
                        ) && forall|j: int|
                            0 <= j < i ==> !month_matches(
                                #[trigger] months2[j],
                                user_id,
                                year,
                                month,
                            );
                    if i2 < last {
                        assert(months2[i2] == months[i2]);
                        assert(!month_matches(months[i2], user_id, year, month));
                    }
                },
                MonthResolution::Create { .. } => {
                    assert(!month_matches(months2[last], user_id, year, month));
                },
            }
        },
    }
}

/// A budget row to be inserted: the allocation of a category in a month.
#[derive(Clone, Copy, Debug, PartialEq, Eq, Structural)]
pub struct BudgetSeed {
    pub month_id: i64,
    pub category_id: i64,
    pub allocated_amount: i64,
}

/// The row that gives category `c` its default allocation in month `month_id`.
pub open spec fn seed_of(month_id: i64, c: BudgetCategory) -> BudgetSeed {
    BudgetSeed { month_id, category_id: c.id, allocated_amount: c.default_amount }
}

/// The rows that seed a new month: one per category of the user, in order.
pub fn month_seed_plan(month_id: i64, categories: &Vec<BudgetCategory>) -> (r: Vec<BudgetSeed>)
    ensures
        r@ == categories@.map_values(|c: BudgetCategory| seed_of(month_id, c)),
{
    let mut out: Vec<BudgetSeed> = Vec::new();
    let mut i: usize = 0;
    while i < categories.len()
        invariant
            i <= categories.len(),
            out@ == categories@.subrange(0, i as int).map_values(
                |c: BudgetCategory| seed_of(month_id, c),
            ),
        decreases categories.len() - i,
    {
        let c = &categories[i];
        out.push(BudgetSeed { month_id, category_id: c.id, allocated_amount: c.default_amount });
        assert(categories@.subrange(0, i + 1).map_values(|c: BudgetCategory| seed_of(month_id, c))
            =~= out@);
        i = i + 1;
    }
    assert(categories@.subrange(0, categories@.len() as int) =~= categories@);
    out
}

/// The rows of `plan` whose insertion outcome in `inserted` is `keep`, in order.
pub open spec fn seeded_rows(plan: Seq<BudgetSeed>, inserted: Seq<bool>, keep: bool) -> Seq<BudgetSeed>
    decreases plan.len(),
{
    if plan.len() == 0 || inserted.len() != plan.len() {
        Seq::empty()
    } else {
        let rest = seeded_rows(plan.drop_last(), inserted.drop_last(), keep);
        if inserted.last() == keep {
            rest.push(plan.last())
        } else {
            rest
        }
    }
}

/// The outcome of a best-effort seeding pass: the rows that were inserted and
/// the rows that the store refused, each in the order of the plan.
#[derive(Clone, Debug, PartialEq, Eq)]
pub struct SeedReport {
    pub seeded: Vec<BudgetSeed>,
    pub skipped: Vec<BudgetSeed>,
}

/// Sorts the rows of a seeding pass by whether the store took them, so that
/// a refused row is reported rather than lost.
pub fn record_seeding(plan: &Vec<BudgetSeed>, inserted: &Vec<bool>) -> (r: SeedReport)
    requires
        inserted.len() == plan.len(),
    ensures
        r.seeded@ == seeded_rows(plan@, inserted@, true),
        r.skipped@ == seeded_rows(plan@, inserted@, false),
        r.seeded@.len() + r.skipped@.len() == plan.len(),
{
    let mut seeded: Vec<BudgetSeed> = Vec::new();
    let mut skipped: Vec<BudgetSeed> = Vec::new();
    let mut i: usize = 0;
    while i < plan.len()
        invariant
            i <= plan.len() == inserted.len(),
            seeded@ == seeded_rows(plan@.subrange(0, i as int), inserted@.subrange(0, i as int), true),
            skipped@ == seeded_rows(plan@.subrange(0, i as int), inserted@.subrange(0, i as int), false),
            seeded@.len() + skipped@.len() == i,
        decreases plan.len() - i,
    {
        assert(plan@.subrange(0, i + 1).drop_last() =~= plan@.subrange(0, i as int));
        assert(inserted@.subrange(0, i + 1).drop_last() =~= inserted@.subrange(0, i as int));
        if inserted[i] {
            seeded.push(plan[i]);
        } else {
            skipped.push(plan[i]);
        }
        i = i + 1;
    }
    assert(plan@.subrange(0, plan.len() as int) =~= plan@);
    assert(inserted@.subrange(0, plan.len() as int) =~= inserted@);
    SeedReport { seeded, skipped }
}

/// `m` is an open month of the user who owns `c`.
pub open spec fn takes_new_category(m: Month, c: BudgetCategory) -> bool {
    m.user_id == c.user_id && !m.is_closed
}

/// The rows that push a new category into its owner's open months, in the
/// order of `months`.
pub open spec fn category_seeds(months: Seq<Month>, c: BudgetCategory) -> Seq<BudgetSeed>
    decreases months.len(),
{
    if months.len() == 0 {
        Seq::empty()
    } else {
        let rest = category_seeds(months.drop_last(), c);
        if takes_new_category(months.last(), c) {
            rest.push(seed_of(months.last().id, c))
        } else {
            rest
        }
    }
}

/// The rows that give a newly created category its default allocation in
/// every open month of its owner, and in no other month.
pub fn category_seed_plan(months: &Vec<Month>, category: &BudgetCategory) -> (r: Vec<BudgetSeed>)
    ensures
        r@ == category_seeds(months@, *category),
{
    let mut out: Vec<BudgetSeed> = Vec::new();
    let mut i: usize = 0;
    while i < months.len()
        invariant
            i <= months.len(),
            out@ == category_seeds(months@.subrange(0, i as int), *category),
        decreases months.len() - i,
    {
        let m = months[i];
        assert(months@.subrange(0, i + 1).drop_last() =~= months@.subrange(0, i as int));
        if m.user_id == category.user_id && !m.is_closed {
            out.push(
                BudgetSeed {
                    month_id: m.id,
                    category_id: category.id,
                    allocated_amount: category.default_amount,
                },
            );
        }
        i = i + 1;
    }
    assert(months@.subrange(0, months@.len() as int) =~= months@);
    out
}

/// Every open month of the category's owner gets a row with the category's
/// default allocation.
pub proof fn lemma_category_seeds_cover_open_months(months: Seq<Month>, c: BudgetCategory, k: int)
    requires
        0 <= k < months.len(),
        takes_new_category(months[k], c),
    ensures
        category_seeds(months, c).contains(seed_of(months[k].id, c)),
    decreases months.len(),
{
    let rest = category_seeds(months.drop_last(), c);
    if k == months.len() - 1 {
        assert(category_seeds(months, c).last() == seed_of(months[k].id, c));
    } else {
        lemma_category_seeds_cover_open_months(months.drop_last(), c, k);
        let j = choose|j: int| 0 <= j < rest.len() && rest[j] == seed_of(months[k].id, c);
        if takes_new_category(months.last(), c) {
            assert(category_seeds(months, c)[j] == rest[j]);
        }
    }
}

/// Every row is the category's default allocation in an open month of its owner.
pub proof fn lemma_category_seeds_only_open_months(months: Seq<Month>, c: BudgetCategory, i: int)
    requires
        0 <= i < category_seeds(months, c).len(),
    ensures
        exists|k: int|
            0 <= k < months.len() && takes_new_category(months[k], c) && category_seeds(months, c)[i]
                == seed_of(#[trigger] months[k].id, c),
    decreases months.len(),
{
    let rest = category_seeds(months.drop_last(), c);
    let last = months.len() - 1;
    if i < rest.len() {
        lemma_category_seeds_only_open_months(months.drop_last(), c, i);
        let k = choose|k: int|
            0 <= k < months.drop_last().len() && takes_new_category(months.drop_last()[k], c)
                && rest[i] == seed_of(#[trigger] months.drop_last()[k].id, c);
        assert(months[k] == months.drop_last()[k]);
        assert(category_seeds(months, c)[i] == rest[i]);
    } else {
        assert(takes_new_category(months[last], c));
        assert(category_seeds(months, c)[i] == seed_of(months[last].id, c));
    }
}

/// Creating a category seeds each open month of its owner with the category's
/// default allocation, and adds no row to a closed month.
pub proof fn lemma_category_seeding(months: Seq<Month>, c: BudgetCategory, k: int)
    requires
        0 <= k < months.len(),
        months[k].user_id == c.user_id,
        forall|a: int, b: int|
            0 <= a < months.len() && 0 <= b < months.len() && #[trigger] months[a].id
                == #[trigger] months[b].id ==> a == b,
    ensures
        !months[k].is_closed ==> category_seeds(months, c).contains(seed_of(months[k].id, c)),
        months[k].is_closed ==> forall|i: int|
            0 <= i < category_seeds(months, c).len() ==> #[trigger] category_seeds(months, c)[i].month_id
                != months[k].id,
{
    if !months[k].is_closed {
        lemma_category_seeds_cover_open_months(months, c, k);
    } else {
        assert forall|i: int| 0 <= i < category_seeds(months, c).len() implies #[trigger] category_seeds(
            months,
            c,
        )[i].month_id != months[k].id by {
            lemma_category_seeds_only_open_months(months, c, i);
        }
    }
}

/// The report frozen when a month was closed.
#[derive(Clone, Debug, PartialEq, Eq)]
pub struct MonthlySnapshot {
    pub month_id: i64,
    pub pdf_data: Vec<u8>,
}

/// Whether `user_id` may close `month`: it must exist, be theirs, and be open.
pub open spec fn close_check(month: Option<Month>, user_id: i64) -> Result<Month, PaymeError> {
    match month {
        None => Err(PaymeError::NotFound),
        Some(m) => if m.user_id != user_id {
            Err(PaymeError::NotFound)
        } else if m.is_closed {
            Err(PaymeError::Conflict)
        } else {
            Ok(m)
        },
    }
}

/// The record of `m` once closed at `at`.
pub open spec fn closed(m: Month, at: i64) -> Month {
    Month { is_closed: true, closed_at: Some(at), ..m }
}

/// The first step of closing a month: the month to close, or why it cannot be.
/// A month that is already closed is refused with a conflict, so no second
/// report is rendered or stored for it.
pub fn begin_close(month: Option<Month>, user_id: i64) -> (r: Result<Month, PaymeError>)
    ensures
        r == close_check(month, user_id),
{
    match month {
        None => Err(PaymeError::NotFound),
        Some(m) => if m.user_id != user_id {
            Err(PaymeError::NotFound)
        } else if m.is_closed {
            Err(PaymeError::Conflict)
        } else {
            Ok(m)
        },
    }
}

/// The snapshot to store for `month` once its report was rendered; a failed
/// rendering aborts the close.
pub fn snapshot_of(month: &Month, rendered: Result<Vec<u8>, String>) -> (r: Result<
    MonthlySnapshot,
    PaymeError,
>)
    ensures
        match rendered {
            Ok(bytes) => r == Ok::<MonthlySnapshot, PaymeError>(
                MonthlySnapshot { month_id: month.id, pdf_data: bytes },
            ),
            Err(e) => r == Err::<MonthlySnapshot, PaymeError>(PaymeError::Internal(e)),
        },
{
    match rendered {
        Ok(bytes) => Ok(MonthlySnapshot { month_id: month.id, pdf_data: bytes }),
        Err(e) => Err(PaymeError::Internal(e)),
    }
}

/// The last step of closing a month, once the store answered on its snapshot:
/// the closed record, stamped with the present time, or the store's failure,
/// in which case the month stays open.
pub fn finish_close(month: Month, stored: Result<(), String>) -> (r: Result<Month, PaymeError>)
    requires
        !month.is_closed,
    ensures
        match stored {
            Ok(_) => exists|at: i64|
                at >= 0 && r == Ok::<Month, PaymeError>(#[trigger] closed(month, at)),
            Err(e) => r == Err::<Month, PaymeError>(PaymeError::Internal(e)),
        },
{
    match stored {
        Ok(_) => {
            let at = now_unix_seconds();
            let r = Month { is_closed: true, closed_at: Some(at), ..month };
            assert(r == closed(month, at));
            Ok(r)
        },
        Err(e) => Err(PaymeError::Internal(e)),
    }
}

/// Closing is one way: a closed month of the caller, whether found closed or
/// just closed, is refused with a conflict on every further attempt.
pub proof fn lemma_close_is_one_way(m: Month, at: i64)
    ensures
        m.is_closed ==> close_check(Some(m), m.user_id) == Err::<Month, PaymeError>(
            PaymeError::Conflict,
        ),
        close_check(Some(closed(m, at)), m.user_id) == Err::<Month, PaymeError>(
            PaymeError::Conflict,
        ),
{
}

/// The report of a month about to be closed, computed from its rows, or why
/// the month cannot be closed.
pub fn prepare_close(
    month: Option<Month>,
    user_id: i64,
    income_entries: Vec<IncomeEntry>,
    fixed_expenses: Vec<FixedExpense>,
    budgets: Vec<MonthlyBudgetWithCategory>,
    items: Vec<ItemWithCategory>,
) -> (r: Result<ReportLayout, PaymeError>)
    requires
        income_entries.len() <= MAX_ROWS,
        fixed_expenses.len() <= MAX_ROWS,
        budgets.len() <= MAX_ROWS,
        items.len() <= MAX_ROWS,
        forall|k: int| 0 <= k < items.len() ==> (#[trigger] items@[k]).spent_on.wf(),
    ensures
        match close_check(month, user_id) {
            Err(e) => r == Err::<ReportLayout, PaymeError>(e),
            Ok(m) => r is Ok && exists|s: MonthSummary|
                #[trigger] summarizes(s, m, income_entries@, fixed_expenses@, budgets@, items@)
                    && lines_spec(r->Ok_0.lines@) == report_spec(s) && r->Ok_0.title@ == title_text(s),
        },
{
    let m = match begin_close(month, user_id) {
        Ok(m) => m,
        Err(e) => return Err(e),
    };
    let s = summarize(m, income_entries, fixed_expenses, budgets, items);
    let layout = layout_report(&s);
    Ok(layout)
}

/// Whether rows of `month` may be created, changed or deleted by `user_id`.
pub fn ensure_month_open(month: Option<Month>, user_id: i64) -> (r: Result<(), PaymeError>)
    ensures
        r == match month {
            None => Err(PaymeError::NotFound),
            Some(m) => if m.user_id != user_id {
                Err(PaymeError::NotFound)
            } else if m.is_closed {
                Err(PaymeError::MonthClosed)
            } else {
                Ok(())
            },
        },
{
    match month {
        None => Err(PaymeError::NotFound),
        Some(m) => if m.user_id != user_id {
            Err(PaymeError::NotFound)
        } else if m.is_closed {
            Err(PaymeError::MonthClosed)
        } else {
            Ok(())
        },
    }
}

/// The stored report of a closed month of `user_id`. An absent, foreign or
/// open month has none; a closed month without its snapshot is an internal
/// inconsistency.
pub fn stored_report(month: Option<Month>, user_id: i64, snapshot: Option<MonthlySnapshot>) -> (r:
    Result<Vec<u8>, PaymeError>)
    ensures
        match month {
            None => r == Err::<Vec<u8>, PaymeError>(PaymeError::NotFound),
            Some(m) => if m.user_id != user_id || !m.is_closed {
                r == Err::<Vec<u8>, PaymeError>(PaymeError::NotFound)
            } else {
                match snapshot {
                    Some(s) => if s.month_id == m.id {
                        r == Ok::<Vec<u8>, PaymeError>(s.pdf_data)
                    } else {
                        r is Err && r->Err_0 is Internal
                    },
                    None => r is Err && r->Err_0 is Internal,
                }
            },
        },
{
    match month {
        None => Err(PaymeError::NotFound),
        Some(m) => if m.user_id != user_id || !m.is_closed {
            Err(PaymeError::NotFound)
        } else {
            match snapshot {
                Some(s) => if s.month_id == m.id {
                    Ok(s.pdf_data)
                } else {
                    Err(PaymeError::Internal(String::from_str("snapshot missing for closed month")))
                },
                None => Err(PaymeError::Internal(String::from_str("snapshot missing for closed month"))),
            }
        },
    }
}

} // verus!
