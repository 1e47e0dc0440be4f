use vstd::multiset::Multiset;
use vstd::prelude::*;

use crate::model::{BudgetCategory, FixedExpense, IncomeEntry, ItemWithCategory};
use crate::money::{
    lemma_rows_bound, lemma_total_full, lemma_total_prefix_step, lemma_total_reorder,
    rows_total_bound, total, Ratio, MAX_ROWS,
};
use crate::summary::{
    fixed_amounts, income_amounts, item_amounts, lemma_insert_to_multiset, spent_for_category,
    spent_in, sum_fixed, sum_income, sum_items,
};

verus! {

/// The rows of one month that the statistics read.
#[derive(Clone, Debug, PartialEq, Eq)]
pub struct MonthActivity {
    pub year: i32,
    pub month: i32,
    pub income_entries: Vec<IncomeEntry>,
    pub items: Vec<ItemWithCategory>,
}

/// One month's totals in the trend.
#[derive(Clone, Copy, Debug, PartialEq, Eq, Structural)]
pub struct MonthlyStats {
    pub year: i32,
    pub month: i32,
    pub total_income: i128,
    pub total_spent: i128,
    pub total_fixed: i128,
    pub net: i128,
}

/// What a category cost in the latest month against the month before it.
/// `change_percent` is the change in percent of the earlier month's spending,
/// present only when that spending is positive.
#[derive(Clone, Debug, PartialEq, Eq)]
pub struct CategoryStats {
    pub category_id: i64,
    pub category_label: String,
    pub current_month_spent: i128,
    pub previous_month_spent: i128,
    pub change_amount: i128,
    pub change_percent: Option<Ratio>,
}

/// Trends over all months of a user and the latest month-over-month comparison.
#[derive(Clone, Debug, PartialEq, Eq)]
pub struct StatsResponse {
    pub category_comparisons: Vec<CategoryStats>,
    pub monthly_trends: Vec<MonthlyStats>,
    pub average_monthly_spending: Ratio,
    pub average_monthly_income: Ratio,
}

/// Every list in the month is of a size that a computation accepts.
pub open spec fn activity_fits(a: MonthActivity) -> bool {
    a.income_entries.len() <= MAX_ROWS && a.items.len() <= MAX_ROWS
}

/// A month's income: the sum of its entries.
pub open spec fn month_income(a: MonthActivity) -> int {
    total(income_amounts(a.income_entries@))
}

/// A month's spending: the sum of its items.
pub open spec fn month_spent(a: MonthActivity) -> int {
    total(item_amounts(a.items@))
}

/// `t` holds the totals of month `a`, with `fixed` as the fixed costs.
pub open spec fn trend_of(t: MonthlyStats, a: MonthActivity, fixed: int) -> bool {
    &&& t.year == a.year
    &&& t.month == a.month
    &&& t.total_income == month_income(a)
    &&& t.total_spent == month_spent(a)
    &&& t.total_fixed == fixed
    &&& t.net == month_income(a) - fixed - month_spent(a)
}

/// The comparison of category `c` between `current` and the month before it,
/// `previous` (zero spending where there is none).
pub open spec fn comparison_of(
    s: CategoryStats,
    c: BudgetCategory,
    current: MonthActivity,
    previous: Option<MonthActivity>,
) -> bool {
    let now = spent_in(current.items@, c.id);
    let before = match previous {
        Some(p) => spent_in(p.items@, c.id),
        None => 0,
    };
    &&& s.category_id == c.id
    &&& s.category_label == c.label
    &&& s.current_month_spent == now
    &&& s.previous_month_spent == before
    &&& s.change_amount == now - before
    &&& if before > 0 {
        s.change_percent == Some(Ratio { numer: ((now - before) * 100) as i128, denom: before as i128 })
    } else {
        s.change_percent is None
    }
}

/// The month before the latest one, where there is one.
pub open spec fn previous_of(months: Seq<MonthActivity>) -> Option<MonthActivity> {
    if months.len() > 1 {
        Some(months[1])
    } else {
        None
    }
}

/// Spending summed over all months.
pub open spec fn spending_over(months: Seq<MonthActivity>) -> int {
    total(months.map_values(|a: MonthActivity| month_spent(a)))
}

/// Income summed over all months.
pub open spec fn income_over(months: Seq<MonthActivity>) -> int {
    total(months.map_values(|a: MonthActivity| month_income(a)))
}

/// Compares category `c` between the latest month and the one before it.
pub fn compare_category(
    c: &BudgetCategory,
    current: &MonthActivity,
    previous: Option<&MonthActivity>,
) -> (r: CategoryStats)
    requires
        activity_fits(*current),
        match previous {
            Some(p) => activity_fits(*p),
            None => true,
        },
    ensures
        comparison_of(
            r,
            *c,
            *current,
            match previous {
                Some(p) => Some(*p),
                None => None,
            },
        ),
{
    let now = spent_for_category(&current.items, c.id);
    let before: i128 = match previous {
        Some(p) => spent_for_category(&p.items, c.id),
        None => 0,
    };
    let change = now - before;
    let change_percent = if before > 0 {
        Some(Ratio { numer: change * 100, denom: before })
    } else {
        None
    };
    CategoryStats {
        category_id: c.id,
        category_label: c.label.clone(),
        current_month_spent: now,
        previous_month_spent: before,
        change_amount: change,
        change_percent,
    }
}

/// `r` holds the statistics of `months`, taken in that order: the first is
/// the latest month and the second the one before it.
pub open spec fn describes_stats(
    r: StatsResponse,
    months: Seq<MonthActivity>,
    fixed_expenses: Seq<FixedExpense>,
    categories: Seq<BudgetCategory>,
) -> bool {
    &&& r.monthly_trends@.len() == months.len()
    &&& forall|k: int|
        0 <= k < months.len() ==> #[trigger] trend_of(
            r.monthly_trends@[k],
            months[k],
            total(fixed_amounts(fixed_expenses)),
        )
    &&& months.len() == 0 ==> {
        &&& r.category_comparisons@.len() == 0
        &&& r.average_monthly_spending == Ratio { numer: 0, denom: 1 }
        &&& r.average_monthly_income == Ratio { numer: 0, denom: 1 }
    }
    &&& months.len() > 0 ==> {
        &&& r.average_monthly_spending == Ratio {
            numer: spending_over(months) as i128,
            denom: months.len() as i128,
        }
        &&& r.average_monthly_income == Ratio {
            numer: income_over(months) as i128,
            denom: months.len() as i128,
        }
        &&& r.category_comparisons@.len() == categories.len()
        &&& forall|k: int|
            0 <= k < categories.len() ==> #[trigger] comparison_of(
                r.category_comparisons@[k],
                categories[k],
                months[0],
                previous_of(months),
            )
    }
}

/// Where a month falls in time: by year, then by month.
pub open spec fn month_key(a: MonthActivity) -> int {
    a.year as int * 0x1_0000_0000 + a.month as int
}

/// Months run from the latest to the earliest.
pub open spec fn months_newest_first(s: Seq<MonthActivity>) -> bool {
    forall|i: int, j: int|
        0 <= i < j < s.len() ==> month_key(#[trigger] s[i]) >= month_key(#[trigger] s[j])
}

/// Orders months from the latest to the earliest.
pub fn order_months_newest_first(months: Vec<MonthActivity>) -> (r: Vec<MonthActivity>)
    ensures
        months_newest_first(r@),
        r@.to_multiset() == months@.to_multiset(),
{
    broadcast use vstd::seq_lib::group_to_multiset_ensures;

    let ghost original = months@;
    let mut rest = months;
    let mut out: Vec<MonthActivity> = Vec::new();
    while rest.len() > 0
        invariant
            rest@ == original.subrange(0, rest@.len() as int),
            rest@.len() <= original.len(),
            months_newest_first(out@),
            out@.to_multiset().add(rest@.to_multiset()) == original.to_multiset(),
        decreases rest.len(),
    {
        let ghost before = rest@;
        let item = rest.pop().unwrap();
        assert(rest@ =~= original.subrange(0, rest@.len() as int));
        proof {
            rest@.to_multiset_ensures();
        }
        assert(rest@.push(item) =~= before);
        assert(before.to_multiset() =~= rest@.to_multiset().insert(item));
        let mut p: usize = 0;
        while p < out.len() && (out[p].year > item.year || (out[p].year == item.year
            && out[p].month > item.month))
            invariant
                p <= out.len(),
                forall|k: int| 0 <= k < p ==> month_key(#[trigger] out@[k]) > month_key(item),
            decreases out.len() - p,
        {
            p = p + 1;
        }
        let ghost old_out = out@;
        proof {
            lemma_insert_to_multiset(old_out, p as int, item);
            old_out.insert_ensures(p as int, item);
        }
        out.insert(p, item);
        assert(months_newest_first(out@)) by {
            assert forall|i: int, j: int| 0 <= i < j < out@.len() implies month_key(#[trigger] out@[i])
                >= month_key(#[trigger] out@[j]) by {
                if p < old_out.len() {
                    assert(month_key(old_out[p as int]) <= month_key(item));
                }
                if i < p as int && j == p as int {
                } else if i < p as int && j > p as int {
                    assert(out@[j] == old_out[j - 1]);
                } else if i == p as int && j > p as int {
                    assert(out@[j] == old_out[j - 1]);
                    assert(month_key(old_out[p as int]) >= month_key(old_out[j - 1]));
                } else if i > p as int {
                    assert(out@[i] == old_out[i - 1]);
                    assert(out@[j] == old_out[j - 1]);
                }
            }
        }
        assert(out@.to_multiset() =~= old_out.to_multiset().insert(item));
        assert(out@.to_multiset().add(rest@.to_multiset()) =~= old_out.to_multiset().add(
            before.to_multiset(),
        ));
    }
    assert(rest@.to_multiset() =~= Multiset::empty());
    assert(out@.to_multiset().add(Multiset::empty()) =~= out@.to_multiset());
    out
}

/// Computes the statistics of months given newest first.
///
/// Each month gets its income, its spending, the user's fixed costs (the same
/// for every month) and the net that remains. The averages are the exact
/// means over all months. Categories are compared between the first month and
/// the second, or a month without spending where there is no second. Without
/// months everything is zero or empty.
pub fn stats_of_ordered(
    months: &Vec<MonthActivity>,
    fixed_expenses: &Vec<FixedExpense>,
    categories: &Vec<BudgetCategory>,
) -> (r: StatsResponse)
    requires
        months.len() <= MAX_ROWS,
        fixed_expenses.len() <= MAX_ROWS,
        forall|k: int| 0 <= k < months.len() ==> #[trigger] activity_fits(months@[k]),
    ensures
        describes_stats(r, months@, fixed_expenses@, categories@),
{
    let fixed = sum_fixed(fixed_expenses);
    proof {
        lemma_rows_bound(fixed_expenses.len() as int);
    }
    let mut trends: Vec<MonthlyStats> = Vec::new();
    let mut spending: i128 = 0;
    let mut income_all: i128 = 0;
    let ghost spent_seq = months@.map_values(|a: MonthActivity| month_spent(a));
    let ghost income_seq = months@.map_values(|a: MonthActivity| month_income(a));
    let mut i: usize = 0;
    while i < months.len()
        invariant
            i <= months.len() <= MAX_ROWS,
            fixed == total(fixed_amounts(fixed_expenses@)),
            -rows_total_bound() <= fixed <= rows_total_bound(),
            forall|k: int| 0 <= k < months.len() ==> #[trigger] activity_fits(months@[k]),
            spent_seq == months@.map_values(|a: MonthActivity| month_spent(a)),
            income_seq == months@.map_values(|a: MonthActivity| month_income(a)),
            trends@.len() == i,
            forall|k: int| 0 <= k < i ==> #[trigger] trend_of(trends@[k], months@[k], fixed as int),
            spending == total(spent_seq.subrange(0, i as int)),
            income_all == total(income_seq.subrange(0, i as int)),
            -(i as int) * rows_total_bound() <= spending <= i as int * rows_total_bound(),
            -(i as int) * rows_total_bound() <= income_all <= i as int * rows_total_bound(),
        decreases months.len() - i,
    {
        let a = &months[i];
        assert(activity_fits(months@[i as int]));
        let income = sum_income(&a.income_entries);
        let spent = sum_items(&a.items);
        proof {
            lemma_total_prefix_step(spent_seq, i as int);
            lemma_total_prefix_step(income_seq, i as int);
            lemma_rows_bound(a.income_entries.len() as int);
            lemma_rows_bound(a.items.len() as int);
        }
        spending = spending + spent;
        income_all = income_all + income;
        trends.push(
            MonthlyStats {
                year: a.year,
                month: a.month,
                total_income: income,
                total_spent: spent,
                total_fixed: fixed,
                net: income - fixed - spent,
            },
        );
        assert(trend_of(trends@[i as int], months@[i as int], fixed as int));
        i = i + 1;
    }
    proof {
        lemma_total_full(spent_seq);
        lemma_total_full(income_seq);
    }
    if months.len() == 0 {
        return StatsResponse {
            category_comparisons: Vec::new(),
            monthly_trends: trends,
            average_monthly_spending: Ratio::zero(),
            average_monthly_income: Ratio::zero(),
        };
    }
    let count = months.len() as i128;
    let current = &months[0];
    let previous: Option<&MonthActivity> = if months.len() > 1 {
        Some(&months[1])
    } else {
        None
    };
    let mut comparisons: Vec<CategoryStats> = Vec::new();
    let mut j: usize = 0;
    while j < categories.len()
        invariant
            j <= categories.len(),
            months.len() > 0,
            forall|k: int| 0 <= k < months.len() ==> #[trigger] activity_fits(months@[k]),
            *current == months@[0],
            previous == (if months.len() > 1 {
                Some(&months@[1])
            } else {
                None
            }),
            comparisons@.len() == j,
            forall|k: int|
                0 <= k < j ==> #[trigger] comparison_of(
                    comparisons@[k],
                    categories@[k],
                    months@[0],
                    previous_of(months@),
                ),
        decreases categories.len() - j,
    {
        let s = compare_category(&categories[j], current, previous);
        comparisons.push(s);
        j = j + 1;
    }
    StatsResponse {
        category_comparisons: comparisons,
        monthly_trends: trends,
        average_monthly_spending: Ratio { numer: spending, denom: count },
        average_monthly_income: Ratio { numer: income_all, denom: count },
    }
}

/// Computes the statistics of a user's months, in whatever order they come:
/// they are first ordered from the latest to the earliest. The averages are
/// those of the months as given, whatever their order.
pub fn compute_stats(
    months: Vec<MonthActivity>,
    fixed_expenses: &Vec<FixedExpense>,
    categories: &Vec<BudgetCategory>,
) -> (r: StatsResponse)
    requires
        months.len() <= MAX_ROWS,
        fixed_expenses.len() <= MAX_ROWS,
        forall|k: int| 0 <= k < months.len() ==> #[trigger] activity_fits(months@[k]),
    ensures
        exists|ordered: Seq<MonthActivity>|
            #[trigger] ordered.to_multiset() == months@.to_multiset() && months_newest_first(ordered)
                && describes_stats(r, ordered, fixed_expenses@, categories@),
        months.len() > 0 ==> {
            &&& r.average_monthly_spending == Ratio {
                numer: spending_over(months@) as i128,
                denom: months.len() as i128,
            }
            &&& r.average_monthly_income == Ratio {
                numer: income_over(months@) as i128,
                denom: months.len() as i128,
            }
        },
{
    let ghost given = months@;
    let ordered = order_months_newest_first(months);
    proof {
        given.to_multiset_ensures();
        ordered@.to_multiset_ensures();
        assert forall|k: int| 0 <= k < ordered.len() implies #[trigger] activity_fits(ordered@[k]) by {
            assert(ordered@.to_multiset().count(ordered@[k]) > 0);
            assert(given.contains(ordered@[k]));
        }
    }
    let r = stats_of_ordered(&ordered, fixed_expenses, categories);
    proof {
        lemma_total_reorder(ordered@, given, |a: MonthActivity| month_spent(a));
        lemma_total_reorder(ordered@, given, |a: MonthActivity| month_income(a));
        assert(ordered@.len() == given.len());
    }
    assert(ordered@.to_multiset() == given.to_multiset() && months_newest_first(ordered@)
        && describes_stats(r, ordered@, fixed_expenses@, categories@));
    r
}

} // verus!
