use payme::model::{BudgetCategory, Date, FixedExpense, IncomeEntry, ItemWithCategory};
use payme::money::Ratio;
use payme::stats::{compute_stats, MonthActivity};

fn groceries(month_id: i64, amount: i64, month: u32) -> ItemWithCategory {
    ItemWithCategory {
        id: month_id,
        month_id,
        category_id: 1,
        category_label: "Food".to_string(),
        description: "Groceries".to_string(),
        amount,
        spent_on: Date { year: 2024, month, day: 15 },
    }
}

fn activity(month: i32, salary: i64, items: Vec<ItemWithCategory>) -> MonthActivity {
    MonthActivity {
        year: 2024,
        month,
        income_entries: vec![IncomeEntry {
            id: month as i64,
            month_id: month as i64,
            label: "Salary".to_string(),
            amount: salary,
        }],
        items,
    }
}

/// Rent of 1000.00 and a Food category of 500.00.
fn setup() -> (Vec<FixedExpense>, Vec<BudgetCategory>) {
    (
        vec![FixedExpense { id: 1, user_id: 1, label: "Rent".to_string(), amount: 100000 }],
        vec![BudgetCategory { id: 1, user_id: 1, label: "Food".to_string(), default_amount: 50000 }],
    )
}

/// May, then June, as the months were created.
fn may_and_june(salary: i64, may_spent: i64, june_spent: i64) -> Vec<MonthActivity> {
    vec![
        activity(5, salary, vec![groceries(1, may_spent, 5)]),
        activity(6, salary, vec![groceries(2, june_spent, 6)]),
    ]
}

#[test]
fn test_stats_empty() {
    let (fixed, cats) = setup();
    let r = compute_stats(vec![], &fixed, &cats);
    assert_eq!(r.average_monthly_spending, Ratio { numer: 0, denom: 1 });
    assert_eq!(r.average_monthly_income, Ratio { numer: 0, denom: 1 });
    assert!(r.monthly_trends.is_empty());
    assert!(r.category_comparisons.is_empty());
}

#[test]
fn test_stats_with_data() {
    let (fixed, cats) = setup();
    let r = compute_stats(may_and_june(500000, 30000, 40000), &fixed, &cats);
    let avg = r.average_monthly_spending;
    assert_eq!(avg.numer, 35000 * avg.denom);
    let income = r.average_monthly_income;
    assert_eq!(income.numer, 500000 * income.denom);
    assert_eq!(r.monthly_trends.len(), 2);
}

#[test]
fn test_stats_category_comparison() {
    let (fixed, cats) = setup();
    let r = compute_stats(may_and_june(300000, 30000, 45000), &fixed, &cats);
    assert_eq!(r.category_comparisons.len(), 1);
    let food = &r.category_comparisons[0];
    assert_eq!(food.category_label, "Food");
    assert_eq!(food.current_month_spent, 45000);
    assert_eq!(food.previous_month_spent, 30000);
    assert_eq!(food.change_amount, 15000);
}

#[test]
fn test_stats_change_percent() {
    let (fixed, cats) = setup();
    let r = compute_stats(may_and_june(300000, 20000, 30000), &fixed, &cats);
    let p = r.category_comparisons[0].change_percent.unwrap();
    assert_eq!(p.numer, 50 * p.denom);
}

#[test]
fn trends_run_newest_first_with_net() {
    let (fixed, cats) = setup();
    let r = compute_stats(may_and_june(500000, 30000, 40000), &fixed, &cats);
    assert_eq!(r.monthly_trends[0].month, 6);
    assert_eq!(r.monthly_trends[0].total_spent, 40000);
    assert_eq!(r.monthly_trends[0].total_fixed, 100000);
    assert_eq!(r.monthly_trends[0].net, 500000 - 100000 - 40000);
    assert_eq!(r.monthly_trends[1].month, 5);
    assert_eq!(r.monthly_trends[1].total_spent, 30000);
    assert_eq!(r.monthly_trends[1].net, 370000);
}

#[test]
fn change_percent_absent_without_previous_spending() {
    let (fixed, cats) = setup();
    let months = vec![
        activity(6, 300000, vec![groceries(2, 30000, 6)]),
        activity(5, 300000, vec![]),
    ];
    let r = compute_stats(months, &fixed, &cats);
    assert_eq!(r.category_comparisons[0].previous_month_spent, 0);
    assert_eq!(r.category_comparisons[0].change_amount, 30000);
    assert_eq!(r.category_comparisons[0].change_percent, None);
    let single = compute_stats(vec![activity(6, 0, vec![groceries(2, 100, 6)])], &fixed, &cats);
    assert_eq!(single.category_comparisons[0].previous_month_spent, 0);
    assert_eq!(single.category_comparisons[0].change_percent, None);
    assert_eq!(single.average_monthly_spending, Ratio { numer: 100, denom: 1 });
}

#[test]
fn months_are_compared_latest_first_whatever_their_order() {
    let (fixed, cats) = setup();
    let months = vec![
        activity(5, 300000, vec![groceries(1, 20000, 5)]),
        MonthActivity { year: 2023, ..activity(12, 100000, vec![]) },
        activity(6, 300000, vec![groceries(2, 30000, 6)]),
    ];
    let r = compute_stats(months, &fixed, &cats);
    let order: Vec<(i32, i32)> = r.monthly_trends.iter().map(|t| (t.year, t.month)).collect();
    assert_eq!(order, vec![(2024, 6), (2024, 5), (2023, 12)]);
    assert_eq!(r.category_comparisons[0].current_month_spent, 30000);
    assert_eq!(r.category_comparisons[0].previous_month_spent, 20000);
    assert_eq!(r.average_monthly_income, Ratio { numer: 700000, denom: 3 });
}
