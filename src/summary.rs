use vstd::multiset::Multiset;
use vstd::prelude::*;

use crate::model::{
    FixedExpense, IncomeEntry, ItemWithCategory, Month, MonthSummary, MonthlyBudgetWithCategory,
};
use crate::money::{
    amount_bound, lemma_rows_bound, lemma_total_full, lemma_total_prefix_step, rows_total_bound,
    total, MAX_ROWS,
};
use crate::report::summary_fits;

verus! {

/// The amounts of a month's income entries, in order.
pub open spec fn income_amounts(s: Seq<IncomeEntry>) -> Seq<int> {
    s.map_values(|e: IncomeEntry| e.amount as int)
}

/// The amounts of a user's fixed expenses, in order.
pub open spec fn fixed_amounts(s: Seq<FixedExpense>) -> Seq<int> {
    s.map_values(|e: FixedExpense| e.amount as int)
}

/// The allocations of a month's budgets, in order.
pub open spec fn allocated_amounts(s: Seq<MonthlyBudgetWithCategory>) -> Seq<int> {
    s.map_values(|b: MonthlyBudgetWithCategory| b.allocated_amount as int)
}

/// The amounts of a month's items, in order.
pub open spec fn item_amounts(s: Seq<ItemWithCategory>) -> Seq<int> {
    s.map_values(|i: ItemWithCategory| i.amount as int)
}

/// Each item's amount where it belongs to `category_id`, zero elsewhere.
pub open spec fn category_amounts(s: Seq<ItemWithCategory>, category_id: i64) -> Seq<int> {
    s.map_values(
        |i: ItemWithCategory|
            if i.category_id == category_id {
                i.amount as int
            } else {
                0
            },
    )
}

/// What was spent in one category: the sum of its items' amounts.
pub open spec fn spent_in(items: Seq<ItemWithCategory>, category_id: i64) -> int {
    total(category_amounts(items, category_id))
}

/// `out` is the budget row `b` with its spent amount taken from `items`.
pub open spec fn budget_with_spent(
    b: MonthlyBudgetWithCategory,
    items: Seq<ItemWithCategory>,
    out: MonthlyBudgetWithCategory,
) -> bool {
    &&& out.id == b.id
    &&& out.month_id == b.month_id
    &&& out.category_id == b.category_id
    &&& out.category_label == b.category_label
    &&& out.allocated_amount == b.allocated_amount
    &&& out.spent_amount == spent_in(items, b.category_id)
}

/// Items run from the newest spending date to the oldest.
pub open spec fn newest_first(s: Seq<ItemWithCategory>) -> bool {
    forall|i: int, j: int|
        0 <= i < j < s.len() ==> (#[trigger] s[i]).spent_on.ordinal() >= (
        #[trigger] s[j]).spent_on.ordinal()
}

/// Inserting an element adds it to the multiset of a sequence.
pub(crate) proof fn lemma_insert_to_multiset<A>(s: Seq<A>, pos: int, x: A)
    requires
        0 <= pos <= s.len(),
    ensures
        s.insert(pos, x).to_multiset() =~= s.to_multiset().insert(x),
{
    broadcast use vstd::seq_lib::group_to_multiset_ensures;

    let t = s.insert(pos, x);
    assert(t.remove(pos) =~= s);
    assert(t[pos] == x);
    assert(t.to_multiset().count(x) > 0);
    assert(t.to_multiset().remove(x) =~= s.to_multiset());
}

/// Orders items from the newest spending date to the oldest; items of the
/// same date keep their order.
pub fn order_newest_first(items: Vec<ItemWithCategory>) -> (r: Vec<ItemWithCategory>)
    requires
        forall|k: int| 0 <= k < items.len() ==> (#[trigger] items@[k]).spent_on.wf(),
    ensures
        newest_first(r@),
        r@.to_multiset() == items@.to_multiset(),
        forall|k: int| 0 <= k < r.len() ==> (#[trigger] r@[k]).spent_on.wf(),
{
    broadcast use vstd::seq_lib::group_to_multiset_ensures;

    let ghost original = items@;
    let mut rest = items;
    let mut out: Vec<ItemWithCategory> = Vec::new();
    while rest.len() > 0
        invariant
            rest@ == original.subrange(0, rest@.len() as int),
            rest@.len() <= original.len(),
            forall|k: int| 0 <= k < original.len() ==> (#[trigger] original[k]).spent_on.wf(),
            forall|k: int| 0 <= k < out.len() ==> (#[trigger] out@[k]).spent_on.wf(),
            newest_first(out@),
            out@.to_multiset().add(rest@.to_multiset()) == original.to_multiset(),
        decreases rest.len(),
    {
        let ghost before = rest@;
        let item = rest.pop().unwrap();
        assert(before.drop_last().push(item) =~= before);
        assert(rest@.push(item) =~= before);
        proof {
            rest@.to_multiset_ensures();
        }
        assert(rest@.push(item).to_multiset() =~= rest@.to_multiset().insert(item));
        assert(before.to_multiset() =~= rest@.to_multiset().insert(item));
        assert(rest@ =~= original.subrange(0, rest@.len() as int));
        assert(item == original[rest@.len() as int]);
        let mut p: usize = 0;
        while p < out.len() && !out[p].spent_on.is_before(&item.spent_on) && !(out[p].spent_on
            == item.spent_on)
            invariant
                p <= out.len(),
                item.spent_on.wf(),
                forall|k: int| 0 <= k < out.len() ==> (#[trigger] out@[k]).spent_on.wf(),
                forall|k: int|
                    0 <= k < p ==> (#[trigger] out@[k]).spent_on.ordinal() > item.spent_on.ordinal(),
            decreases out.len() - p,
        {
            p = p + 1;
        }
        let ghost old_out = out@;
        proof {
            lemma_insert_to_multiset(old_out, p as int, item);
            old_out.insert_ensures(p as int, item);
        }
        out.insert(p, item);
        assert(newest_first(out@)) by {
            assert forall|i: int, j: int| 0 <= i < j < out@.len() implies (
            #[trigger] out@[i]).spent_on.ordinal() >= (#[trigger] out@[j]).spent_on.ordinal() by {
                if p < old_out.len() {
                    assert(old_out[p as int].spent_on.ordinal() <= item.spent_on.ordinal());
                }
                if i < p as int && j == p as int {
                } else if i < p as int && j > p as int {
                    assert(out@[j] == old_out[j - 1]);
                } else if i == p as int && j > p as int {
                    assert(out@[j] == old_out[j - 1]);
                    assert(old_out[p as int].spent_on.ordinal() >= old_out[j - 1].spent_on.ordinal());
                } else if i > p as int {
                    assert(out@[i] == old_out[i - 1]);
                    assert(out@[j] == old_out[j - 1]);
                }
            }
        }
        assert(out@.to_multiset() =~= old_out.to_multiset().insert(item));
        assert(out@.to_multiset().add(rest@.to_multiset()) =~= old_out.to_multiset().add(
            before.to_multiset(),
        ));
    }
    assert(rest@.to_multiset() =~= Multiset::empty());
    assert(out@.to_multiset().add(Multiset::empty()) =~= out@.to_multiset());
    out
}

/// The balance left after income pays fixed costs and spending.
pub open spec fn balance(summary: MonthSummary) -> int {
    summary.total_income - summary.total_fixed - summary.total_spent
}

/// `r` is the summary of `month` computed from the given rows.
pub open spec fn summarizes(
    r: MonthSummary,
    month: Month,
    income_entries: Seq<IncomeEntry>,
    fixed_expenses: Seq<FixedExpense>,
    budgets: Seq<MonthlyBudgetWithCategory>,
    items: Seq<ItemWithCategory>,
) -> bool {
    &&& r.month == month
    &&& r.income_entries@ == income_entries
    &&& r.fixed_expenses@ == fixed_expenses
    &&& r.items@.to_multiset() == items.to_multiset()
    &&& newest_first(r.items@)
    &&& r.budgets@.len() == budgets.len()
    &&& forall|k: int|
        0 <= k < budgets.len() ==> #[trigger] budget_with_spent(budgets[k], items, r.budgets@[k])
    &&& r.total_income == total(income_amounts(income_entries))
    &&& r.total_fixed == total(fixed_amounts(fixed_expenses))
    &&& r.total_budgeted == total(allocated_amounts(budgets))
    &&& r.total_spent == total(item_amounts(items))
    &&& r.remaining == balance(r)
}

pub(crate) fn sum_income(entries: &Vec<IncomeEntry>) -> (r: i128)
    requires
        entries.len() <= MAX_ROWS,
    ensures
        r == total(income_amounts(entries@)),
        -(entries.len() as int) * amount_bound() <= r <= entries.len() as int * amount_bound(),
{
    let mut acc: i128 = 0;
    let mut i: usize = 0;
    while i < entries.len()
        invariant
            i <= entries.len() <= MAX_ROWS,
            acc == total(income_amounts(entries@).subrange(0, i as int)),
            -(i as int) * amount_bound() <= acc <= i as int * amount_bound(),
        decreases entries.len() - i,
    {
        proof {
            lemma_total_prefix_step(income_amounts(entries@), i as int);
        }
        acc = acc + entries[i].amount as i128;
        i = i + 1;
    }
    proof {
        lemma_total_full(income_amounts(entries@));
    }
    acc
}

pub(crate) fn sum_fixed(expenses: &Vec<FixedExpense>) -> (r: i128)
    requires
        expenses.len() <= MAX_ROWS,
    ensures
        r == total(fixed_amounts(expenses@)),
        -(expenses.len() as int) * amount_bound() <= r <= expenses.len() as int * amount_bound(),
{
    let mut acc: i128 = 0;
    let mut i: usize = 0;
    while i < expenses.len()
        invariant
            i <= expenses.len() <= MAX_ROWS,
            acc == total(fixed_amounts(expenses@).subrange(0, i as int)),
            -(i as int) * amount_bound() <= acc <= i as int * amount_bound(),
        decreases expenses.len() - i,
    {
        proof {
            lemma_total_prefix_step(fixed_amounts(expenses@), i as int);
        }
        acc = acc + expenses[i].amount as i128;
        i = i + 1;
    }
    proof {
        lemma_total_full(fixed_amounts(expenses@));
    }
    acc
}

fn sum_allocated(budgets: &Vec<MonthlyBudgetWithCategory>) -> (r: i128)
    requires
        budgets.len() <= MAX_ROWS,
    ensures
        r == total(allocated_amounts(budgets@)),
        -(budgets.len() as int) * amount_bound() <= r <= budgets.len() as int * amount_bound(),
{
    let mut acc: i128 = 0;
    let mut i: usize = 0;
    while i < budgets.len()
        invariant
            i <= budgets.len() <= MAX_ROWS,
            acc == total(allocated_amounts(budgets@).subrange(0, i as int)),
            -(i as int) * amount_bound() <= acc <= i as int * amount_bound(),
        decreases budgets.len() - i,
    {
        proof {
            lemma_total_prefix_step(allocated_amounts(budgets@), i as int);
        }
        acc = acc + budgets[i].allocated_amount as i128;
        i = i + 1;
    }
    proof {
        lemma_total_full(allocated_amounts(budgets@));
    }
    acc
}

pub(crate) fn sum_items(items: &Vec<ItemWithCategory>) -> (r: i128)
    requires
        items.len() <= MAX_ROWS,
    ensures
        r == total(item_amounts(items@)),
        -(items.len() as int) * amount_bound() <= r <= items.len() as int * amount_bound(),
{
    let mut acc: i128 = 0;
    let mut i: usize = 0;
    while i < items.len()
        invariant
            i <= items.len() <= MAX_ROWS,
            acc == total(item_amounts(items@).subrange(0, i as int)),
            -(i as int) * amount_bound() <= acc <= i as int * amount_bound(),
        decreases items.len() - i,
    {
        proof {
            lemma_total_prefix_step(item_amounts(items@), i as int);
        }
        acc = acc + items[i].amount as i128;
        i = i + 1;
    }
    proof {
        lemma_total_full(item_amounts(items@));
    }
    acc
}

/// Sum of the amounts of the items that belong to `category_id`.
pub fn spent_for_category(items: &Vec<ItemWithCategory>, category_id: i64) -> (r: i128)
    requires
        items.len() <= MAX_ROWS,
    ensures
        r == spent_in(items@, category_id),
        -(items.len() as int) * amount_bound() <= r <= items.len() as int * amount_bound(),
{
    let mut acc: i128 = 0;
    let mut i: usize = 0;
    while i < items.len()
        invariant
            i <= items.len() <= MAX_ROWS,
            acc == total(category_amounts(items@, category_id).subrange(0, i as int)),
            -(i as int) * amount_bound() <= acc <= i as int * amount_bound(),
        decreases items.len() - i,
    {
        proof {
            lemma_total_prefix_step(category_amounts(items@, category_id), i as int);
        }
        if items[i].category_id == category_id {
            acc = acc + items[i].amount as i128;
        }
        i = i + 1;
    }
    proof {
        lemma_total_full(category_amounts(items@, category_id));
    }
    acc
}

/// Each budget row of the month with what its category's items add up to.
pub fn budgets_with_spent(
    budgets: &Vec<MonthlyBudgetWithCategory>,
    items: &Vec<ItemWithCategory>,
) -> (r: Vec<MonthlyBudgetWithCategory>)
    requires
        items.len() <= MAX_ROWS,
    ensures
        r@.len() == budgets@.len(),
        forall|k: int|
            0 <= k < budgets@.len() ==> #[trigger] budget_with_spent(budgets@[k], items@, r@[k]),
        forall|k: int|
            0 <= k < budgets@.len() ==> -rows_total_bound() <= #[trigger] r@[k].spent_amount
                <= rows_total_bound(),
{
    let mut out: Vec<MonthlyBudgetWithCategory> = Vec::new();
    let mut i: usize = 0;
    while i < budgets.len()
        invariant
            i <= budgets.len(),
            items.len() <= MAX_ROWS,
            out@.len() == i,
            forall|k: int| 0 <= k < i ==> #[trigger] budget_with_spent(budgets@[k], items@, out@[k]),
            forall|k: int|
                0 <= k < i ==> -rows_total_bound() <= #[trigger] out@[k].spent_amount
                    <= rows_total_bound(),
        decreases budgets.len() - i,
    {
        let b = &budgets[i];
        let spent = spent_for_category(items, b.category_id);
        proof {
            lemma_rows_bound(items.len() as int);
        }
        out.push(
            MonthlyBudgetWithCategory {
                id: b.id,
                month_id: b.month_id,
                category_id: b.category_id,
                category_label: b.category_label.clone(),
                allocated_amount: b.allocated_amount,
                spent_amount: spent,
            },
        );
        assert(budget_with_spent(budgets@[i as int], items@, out@[i as int]));
        i = i + 1;
    }
    out
}

/// Computes the summary of a month from its rows: each total is the sum of
/// its rows' amounts, each budget row carries what its category's items add
/// up to, `remaining` is income less fixed costs less spending, and the items
/// are listed newest first. Empty rows give zero totals.
pub fn summarize(
    month: Month,
    income_entries: Vec<IncomeEntry>,
    fixed_expenses: Vec<FixedExpense>,
    budgets: Vec<MonthlyBudgetWithCategory>,
    items: Vec<ItemWithCategory>,
) -> (r: MonthSummary)
    requires
        income_entries.len() <= MAX_ROWS,
        fixed_expenses.len() <= MAX_ROWS,
        budgets.len() <= MAX_ROWS,
        items.len() <= MAX_ROWS,
        forall|k: int| 0 <= k < items.len() ==> (#[trigger] items@[k]).spent_on.wf(),
    ensures
        summarizes(r, month, income_entries@, fixed_expenses@, budgets@, items@),
        summary_fits(r),
{
    let total_income = sum_income(&income_entries);
    let total_fixed = sum_fixed(&fixed_expenses);
    let total_budgeted = sum_allocated(&budgets);
    let total_spent = sum_items(&items);
    let with_spent = budgets_with_spent(&budgets, &items);
    let ghost item_rows = items@;
    proof {
        lemma_rows_bound(income_entries.len() as int);
        lemma_rows_bound(fixed_expenses.len() as int);
        lemma_rows_bound(items.len() as int);
    }
    let remaining = total_income - total_fixed - total_spent;
    let items = order_newest_first(items);
    proof {
        item_rows.to_multiset_ensures();
        items@.to_multiset_ensures();
    }
    MonthSummary {
        month,
        income_entries,
        fixed_expenses,
        budgets: with_spent,
        items,
        total_income,
        total_fixed,
        total_budgeted,
        total_spent,
        remaining,
    }
}

/// A month without income, fixed expenses, budgets or items summarizes to
/// zero totals and empty lists.
pub proof fn lemma_empty_month_is_zero(r: MonthSummary, month: Month)
    requires
        summarizes(r, month, Seq::empty(), Seq::empty(), Seq::empty(), Seq::empty()),
    ensures
        r.total_income == 0,
        r.total_fixed == 0,
        r.total_budgeted == 0,
        r.total_spent == 0,
        r.remaining == 0,
        r.income_entries@.len() == 0,
        r.fixed_expenses@.len() == 0,
        r.budgets@.len() == 0,
        r.items@.len() == 0,
{
    assert(income_amounts(Seq::empty()) =~= Seq::<int>::empty());
    assert(fixed_amounts(Seq::empty()) =~= Seq::<int>::empty());
    assert(allocated_amounts(Seq::empty()) =~= Seq::<int>::empty());
    assert(item_amounts(Seq::empty()) =~= Seq::<int>::empty());
    r.items@.to_multiset_ensures();
    Seq::<ItemWithCategory>::empty().to_multiset_ensures();
}

} // verus!
