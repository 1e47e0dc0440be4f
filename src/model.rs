use vstd::prelude::*;

verus! {

/// A calendar day.
#[derive(Clone, Copy, Debug, PartialEq, Eq, Structural)]
pub struct Date {
    pub year: i32,
    pub month: u32,
    pub day: u32,
}

impl Date {
    /// A four-digit year, a month of the year and a day of at most 31.
    pub open spec fn wf(self) -> bool {
        &&& 0 <= self.year <= 9999
        &&& 1 <= self.month <= 12
        &&& 1 <= self.day <= 31
    }

    /// Days ordered by year, then month, then day.
    pub open spec fn ordinal(self) -> int {
        self.year as int * 512 + self.month as int * 32 + self.day as int
    }

    /// True when `self` falls strictly before `other`.
    pub fn is_before(&self, other: &Date) -> (r: bool)
        requires
            self.wf(),
            other.wf(),
        ensures
            r == (self.ordinal() < other.ordinal()),
    {
        if self.year != other.year {
            self.year < other.year
        } else if self.month != other.month {
            self.month < other.month
        } else {
            self.day < other.day
        }
    }
}

/// A user's budgeting period. `closed_at` is a Unix time in seconds.
#[derive(Clone, Copy, Debug, PartialEq, Eq, Structural)]
pub struct Month {
    pub id: i64,
    pub user_id: i64,
    pub year: i32,
    pub month: i32,
    pub is_closed: bool,
    pub closed_at: Option<i64>,
}

/// A recurring cost of a user, counted in every month.
#[derive(Clone, Debug, PartialEq, Eq)]
pub struct FixedExpense {
    pub id: i64,
    pub user_id: i64,
    pub label: String,
    pub amount: i64,
}

/// A spending bucket of a user with its default allocation.
#[derive(Clone, Debug, PartialEq, Eq)]
pub struct BudgetCategory {
    pub id: i64,
    pub user_id: i64,
    pub label: String,
    pub default_amount: i64,
}

/// An income line of a month.
#[derive(Clone, Debug, PartialEq, Eq)]
pub struct IncomeEntry {
    pub id: i64,
    pub month_id: i64,
    pub label: String,
    pub amount: i64,
}

/// The allocation of one category in one month.
#[derive(Clone, Copy, Debug, PartialEq, Eq, Structural)]
pub struct MonthlyBudget {
    pub id: i64,
    pub month_id: i64,
    pub category_id: i64,
    pub allocated_amount: i64,
}

/// A discrete spend of a month.
#[derive(Clone, Debug, PartialEq, Eq)]
pub struct Item {
    pub id: i64,
    pub month_id: i64,
    pub category_id: i64,
    pub description: String,
    pub amount: i64,
    pub spent_on: Date,
}

/// A month's allocation joined with its category label, and what was spent in it.
#[derive(Clone, Debug, PartialEq, Eq)]
pub struct MonthlyBudgetWithCategory {
    pub id: i64,
    pub month_id: i64,
    pub category_id: i64,
    pub category_label: String,
    pub allocated_amount: i64,
    pub spent_amount: i128,
}

/// An item joined with its category label.
#[derive(Clone, Debug, PartialEq, Eq)]
pub struct ItemWithCategory {
    pub id: i64,
    pub month_id: i64,
    pub category_id: i64,
    pub category_label: String,
    pub description: String,
    pub amount: i64,
    pub spent_on: Date,
}

/// The computed state of a month.
#[derive(Clone, Debug, PartialEq, Eq)]
pub struct MonthSummary {
    pub month: Month,
    pub income_entries: Vec<IncomeEntry>,
    pub fixed_expenses: Vec<FixedExpense>,
    pub budgets: Vec<MonthlyBudgetWithCategory>,
    pub items: Vec<ItemWithCategory>,
    pub total_income: i128,
    pub total_fixed: i128,
    pub total_budgeted: i128,
    pub total_spent: i128,
    pub remaining: i128,
}

} // verus!
