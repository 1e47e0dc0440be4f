use payme::error::PaymeError;
use payme::lifecycle::{
    begin_close, category_seed_plan, created_month, ensure_month_open, finish_close,
    month_seed_plan, prepare_close, resolve_current_month, resolve_month, snapshot_of,
    record_seeding, stored_report, BudgetSeed, MonthResolution, MonthlySnapshot, SeedReport,
};
use payme::model::{BudgetCategory, Month};

fn month(id: i64, user_id: i64, year: i32, m: i32, is_closed: bool) -> Month {
    Month { id, user_id, year, month: m, is_closed, closed_at: if is_closed { Some(1) } else { None } }
}

fn category(id: i64, user_id: i64, label: &str, default_amount: i64) -> BudgetCategory {
    BudgetCategory { id, user_id, label: label.to_string(), default_amount }
}

#[test]
fn resolver_creates_then_finds_the_same_month() {
    let mut months = vec![month(1, 2, 2024, 6, false)];
    let first = resolve_month(&months, 1, 2024, 6);
    assert_eq!(first, MonthResolution::Create { user_id: 1, year: 2024, month: 6 });
    months.push(created_month(9, 1, 2024, 6));
    let second = resolve_month(&months, 1, 2024, 6);
    assert_eq!(second, MonthResolution::Existing(month(9, 1, 2024, 6, false)));
    let third = resolve_month(&months, 1, 2024, 6);
    assert_eq!(third, second);
}

#[test]
fn resolver_finds_existing_month_of_the_user() {
    let months = vec![
        month(1, 1, 2024, 5, true),
        month(2, 2, 2024, 6, false),
        month(3, 1, 2024, 6, false),
    ];
    assert_eq!(resolve_month(&months, 1, 2024, 6), MonthResolution::Existing(months[2]));
    assert_eq!(resolve_month(&months, 1, 2024, 5), MonthResolution::Existing(months[0]));
}

#[test]
fn current_month_is_resolved_twice_to_the_same_record() {
    let mut months: Vec<Month> = vec![];
    let first = resolve_current_month(&months, 4);
    let (year, m) = match first {
        MonthResolution::Create { user_id, year, month } => {
            assert_eq!(user_id, 4);
            assert!((1..=12).contains(&month));
            (year, month)
        }
        MonthResolution::Existing(_) => panic!("no month existed"),
    };
    months.push(created_month(17, 4, year, m));
    match resolve_current_month(&months, 4) {
        MonthResolution::Existing(found) => assert_eq!(found.id, 17),
        MonthResolution::Create { .. } => panic!("the month exists now"),
    }
}

#[test]
fn new_month_is_seeded_from_category_defaults() {
    let cats = vec![category(1, 1, "Food", 50000), category(2, 1, "Transport", 20000)];
    let plan = month_seed_plan(5, &cats);
    assert_eq!(
        plan,
        vec![
            BudgetSeed { month_id: 5, category_id: 1, allocated_amount: 50000 },
            BudgetSeed { month_id: 5, category_id: 2, allocated_amount: 20000 },
        ]
    );
    assert!(month_seed_plan(5, &vec![]).is_empty());
}

#[test]
fn new_category_reaches_open_months_only() {
    let months = vec![
        month(1, 1, 2024, 5, true),
        month(2, 1, 2024, 6, false),
        month(3, 2, 2024, 6, false),
        month(4, 1, 2024, 7, false),
    ];
    let c = category(8, 1, "Entertainment", 30000);
    let plan = category_seed_plan(&months, &c);
    assert_eq!(
        plan,
        vec![
            BudgetSeed { month_id: 2, category_id: 8, allocated_amount: 30000 },
            BudgetSeed { month_id: 4, category_id: 8, allocated_amount: 30000 },
        ]
    );
    assert!(plan.iter().all(|s| s.month_id != 1));
}

#[test]
fn close_is_one_way() {
    let open = month(3, 1, 2024, 6, false);
    assert_eq!(begin_close(Some(open), 1), Ok(open));
    let closed = finish_close(open, Ok(())).unwrap();
    assert!(closed.is_closed);
    assert!(closed.closed_at.is_some());
    assert_eq!(closed.id, 3);
    assert_eq!(begin_close(Some(closed), 1), Err(PaymeError::Conflict));
    assert_eq!(begin_close(Some(closed), 1), Err(PaymeError::Conflict));
    assert_eq!(begin_close(Some(open), 2), Err(PaymeError::NotFound));
    assert_eq!(begin_close(None, 1), Err(PaymeError::NotFound));
}

#[test]
fn failed_store_leaves_month_open() {
    let open = month(3, 1, 2024, 6, false);
    assert_eq!(
        finish_close(open, Err("disk full".to_string())),
        Err(PaymeError::Internal("disk full".to_string()))
    );
    assert_eq!(
        snapshot_of(&open, Err("font".to_string())),
        Err(PaymeError::Internal("font".to_string()))
    );
    assert_eq!(
        snapshot_of(&open, Ok(b"%PDF-1.3".to_vec())),
        Ok(MonthlySnapshot { month_id: 3, pdf_data: b"%PDF-1.3".to_vec() })
    );
}

#[test]
fn prepare_close_refuses_closed_month() {
    let closed = month(3, 1, 2024, 6, true);
    assert_eq!(
        prepare_close(Some(closed), 1, vec![], vec![], vec![], vec![]).unwrap_err(),
        PaymeError::Conflict
    );
    let open = month(3, 1, 2024, 6, false);
    let layout = prepare_close(Some(open), 1, vec![], vec![], vec![], vec![]).unwrap();
    assert_eq!(layout.title, "Financial Summary - 6/2024");
}

#[test]
fn report_fetch_needs_a_closed_month() {
    let open = month(3, 1, 2024, 6, false);
    let closed = month(3, 1, 2024, 6, true);
    let snap = MonthlySnapshot { month_id: 3, pdf_data: b"%PDF-1.3 body".to_vec() };
    assert_eq!(stored_report(Some(open), 1, None), Err(PaymeError::NotFound));
    assert_eq!(stored_report(None, 1, None), Err(PaymeError::NotFound));
    assert_eq!(stored_report(Some(closed), 2, Some(snap.clone())), Err(PaymeError::NotFound));
    let bytes = stored_report(Some(closed), 1, Some(snap)).unwrap();
    assert!(bytes.starts_with(b"%PDF"));
    assert!(matches!(stored_report(Some(closed), 1, None), Err(PaymeError::Internal(_))));
}

#[test]
fn closed_month_rejects_mutation() {
    assert_eq!(ensure_month_open(Some(month(1, 1, 2024, 6, false)), 1), Ok(()));
    assert_eq!(ensure_month_open(Some(month(1, 1, 2024, 6, true)), 1), Err(PaymeError::MonthClosed));
    assert_eq!(ensure_month_open(Some(month(1, 1, 2024, 6, false)), 2), Err(PaymeError::NotFound));
    assert_eq!(ensure_month_open(None, 1), Err(PaymeError::NotFound));
}

#[test]
fn seeding_reports_skipped_rows() {
    let cats = vec![
        category(1, 1, "Food", 50000),
        category(2, 1, "Transport", 20000),
        category(3, 1, "Fun", 9000),
    ];
    let plan = month_seed_plan(5, &cats);
    let report = record_seeding(&plan, &vec![true, false, true]);
    assert_eq!(
        report,
        SeedReport {
            seeded: vec![plan[0], plan[2]],
            skipped: vec![plan[1]],
        }
    );
    let none = record_seeding(&plan, &vec![false, false, false]);
    assert!(none.seeded.is_empty());
    assert_eq!(none.skipped, plan);
}

#[test]
fn test_get_or_create_current_month_creates() {
    let cats = vec![category(1, 1, "Food", 50000)];
    let (year, m) = match resolve_current_month(&vec![], 1) {
        MonthResolution::Create { year, month, .. } => (year, month),
        MonthResolution::Existing(_) => panic!("no month existed"),
    };
    let created = created_month(1, 1, year, m);
    assert!(!created.is_closed);
    assert_eq!(created.closed_at, None);
    let plan = month_seed_plan(created.id, &cats);
    assert_eq!(plan.len(), 1);
    assert_eq!(plan[0].category_id, 1);
    assert_eq!(plan[0].allocated_amount, 50000);
}

#[test]
fn test_get_or_create_current_month_returns_existing() {
    let mut months: Vec<Month> = vec![];
    let month_id1 = match resolve_current_month(&months, 1) {
        MonthResolution::Create { user_id, year, month } => {
            months.push(created_month(1, user_id, year, month));
            1
        }
        MonthResolution::Existing(m) => m.id,
    };
    let month_id2 = match resolve_current_month(&months, 1) {
        MonthResolution::Existing(m) => m.id,
        MonthResolution::Create { .. } => panic!("the month exists now"),
    };
    assert_eq!(month_id1, month_id2);
}

#[test]
fn test_close_month_success() {
    let open = month(1, 1, 2024, 6, false);
    let m = begin_close(Some(open), 1).unwrap();
    let closed = finish_close(m, Ok(())).unwrap();
    assert!(closed.is_closed);
    assert!(closed.closed_at.is_some());
}

#[test]
fn test_close_month_already_closed() {
    let closed = month(1, 1, 2024, 6, true);
    let err = begin_close(Some(closed), 1).unwrap_err();
    assert_eq!(err, PaymeError::Conflict);
    assert_eq!(err.status_code(), 409);
}

#[test]
fn test_get_month_pdf_not_closed() {
    let open = month(1, 1, 2024, 6, false);
    let err = stored_report(Some(open), 1, None).unwrap_err();
    assert_eq!(err, PaymeError::NotFound);
    assert_eq!(err.status_code(), 404);
}

#[test]
fn test_create_category() {
    let months = vec![month(1, 1, 2024, 6, false)];
    let c = category(2, 1, "Entertainment", 30000);
    let plan = category_seed_plan(&months, &c);
    assert_eq!(plan, vec![BudgetSeed { month_id: 1, category_id: 2, allocated_amount: 30000 }]);
}

#[test]
fn test_update_monthly_budget_closed_month() {
    let closed = month(1, 1, 2024, 6, true);
    assert_eq!(ensure_month_open(Some(closed), 1), Err(PaymeError::MonthClosed));
    assert_eq!(PaymeError::MonthClosed.status_code(), 400);
}

#[test]
fn test_create_income_closed_month() {
    let closed = month(1, 1, 2024, 6, true);
    assert_eq!(ensure_month_open(Some(closed), 1), Err(PaymeError::MonthClosed));
}

#[test]
fn test_create_item_closed_month() {
    let closed = month(1, 1, 2024, 6, true);
    assert_eq!(ensure_month_open(Some(closed), 1), Err(PaymeError::MonthClosed));
}

#[test]
fn test_income_wrong_user_month() {
    let other = month(1, 2, 2024, 6, false);
    assert_eq!(ensure_month_open(Some(other), 1), Err(PaymeError::NotFound));
}
