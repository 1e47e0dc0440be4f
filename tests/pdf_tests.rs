use payme::model::{
    Date, FixedExpense, IncomeEntry, ItemWithCategory, Month, MonthSummary,
    MonthlyBudgetWithCategory,
};
use payme::lifecycle::{begin_close, finish_close, prepare_close, snapshot_of, stored_report};
use payme::report::{layout_report, ReportLayout, LEFT_MARGIN_MM};
use printpdf::{BuiltinFont, Mm, PdfDocument};

fn render(layout: &ReportLayout) -> Result<Vec<u8>, printpdf::Error> {
    let (doc, page, layer) = PdfDocument::new(&layout.title, Mm(210.0), Mm(297.0), "Layer 1");
    let layer = doc.get_page(page).get_layer(layer);
    let font = doc.add_builtin_font(BuiltinFont::Helvetica)?;
    let bold = doc.add_builtin_font(BuiltinFont::HelveticaBold)?;
    for line in &layout.lines {
        let f = if line.bold { &bold } else { &font };
        layer.use_text(&line.text, line.size as f32, Mm(LEFT_MARGIN_MM as f32), Mm(line.y as f32), f);
    }
    doc.save_to_bytes()
}

fn create_test_summary() -> MonthSummary {
    MonthSummary {
        month: Month { id: 1, user_id: 1, year: 2024, month: 6, is_closed: false, closed_at: None },
        income_entries: vec![IncomeEntry { id: 1, month_id: 1, label: "Salary".to_string(), amount: 500000 }],
        fixed_expenses: vec![FixedExpense { id: 1, user_id: 1, label: "Rent".to_string(), amount: 150000 }],
        budgets: vec![MonthlyBudgetWithCategory {
            id: 1,
            month_id: 1,
            category_id: 1,
            category_label: "Food".to_string(),
            allocated_amount: 50000,
            spent_amount: 30000,
        }],
        items: vec![ItemWithCategory {
            id: 1,
            month_id: 1,
            category_id: 1,
            category_label: "Food".to_string(),
            description: "Groceries".to_string(),
            amount: 15000,
            spent_on: Date { year: 2024, month: 6, day: 15 },
        }],
        total_income: 500000,
        total_fixed: 150000,
        total_budgeted: 50000,
        total_spent: 30000,
        remaining: 320000,
    }
}

fn texts(layout: &ReportLayout) -> Vec<String> {
    layout.lines.iter().map(|l| l.text.clone()).collect()
}

#[test]
fn test_generate_pdf_basic() {
    let summary = create_test_summary();
    let layout = layout_report(&summary);
    let result = render(&layout);
    assert!(result.is_ok());
    let pdf_data = result.unwrap();
    assert!(!pdf_data.is_empty());
    assert!(pdf_data.starts_with(b"%PDF"));
    assert_eq!(
        texts(&layout),
        vec![
            "Financial Summary - 6/2024",
            "INCOME",
            "  Salary - $5000.00",
            "Total Income: $5000.00",
            "FIXED EXPENSES",
            "  Rent - $1500.00",
            "Total Fixed: $1500.00",
            "BUDGET VS ACTUAL",
            "  Food: $300.00 / $500.00 ($200.00 remaining)",
            "SPENDING ITEMS",
            "  2024-06-15 - Groceries - $150.00 (Food)",
            "SUMMARY",
            "Total Spent: $300.00",
            "Remaining: $3200.00",
        ]
    );
    let ys: Vec<i64> = layout.lines.iter().map(|l| l.y).collect();
    assert_eq!(ys, vec![270, 258, 252, 246, 234, 228, 222, 210, 204, 192, 186, 174, 168, 162]);
    assert_eq!(layout.lines[0].size, 16);
    assert!(layout.lines[0].bold);
    assert_eq!(layout.lines[10].size, 9);
    assert!(!layout.lines[10].bold);
}

#[test]
fn test_generate_pdf_empty_summary() {
    let summary = MonthSummary {
        month: Month { id: 1, user_id: 1, year: 2024, month: 6, is_closed: false, closed_at: None },
        income_entries: vec![],
        fixed_expenses: vec![],
        budgets: vec![],
        items: vec![],
        total_income: 0,
        total_fixed: 0,
        total_budgeted: 0,
        total_spent: 0,
        remaining: 0,
    };
    let layout = layout_report(&summary);
    let result = render(&layout);
    assert!(result.is_ok());
    assert_eq!(layout.title, "Financial Summary - 6/2024");
    assert_eq!(layout.lines.last().unwrap().text, "Remaining: $0.00");
}

#[test]
fn test_generate_pdf_with_deficit() {
    let mut summary = create_test_summary();
    summary.remaining = -50000;
    let layout = layout_report(&summary);
    let result = render(&layout);
    assert!(result.is_ok());
    assert_eq!(layout.lines.last().unwrap().text, "Deficit: -$500.00");
}

#[test]
fn test_generate_pdf_over_budget() {
    let mut summary = create_test_summary();
    summary.budgets[0].spent_amount = 60000;
    let layout = layout_report(&summary);
    let result = render(&layout);
    assert!(result.is_ok());
    assert_eq!(layout.lines[8].text, "  Food: $600.00 / $500.00 (OVER by $100.00)");
}

#[test]
fn items_below_the_page_are_left_out() {
    let mut summary = create_test_summary();
    let one = summary.items[0].clone();
    summary.items = (0..100).map(|k| ItemWithCategory { id: k, ..one.clone() }).collect();
    let layout = layout_report(&summary);
    let shown = layout.lines.iter().filter(|l| l.text.contains("Groceries")).count();
    // the first item stands at 186 mm; the last one that fits at 24 mm
    assert_eq!(shown, 28);
    assert!(layout.lines.iter().filter(|l| l.size == 9).all(|l| l.y >= 20));
    assert_eq!(layout.lines.last().unwrap().text, "Remaining: $3200.00");
}

#[test]
fn amounts_keep_their_cents() {
    let mut summary = create_test_summary();
    summary.income_entries[0].amount = 123456;
    summary.fixed_expenses[0].amount = -7;
    let layout = layout_report(&summary);
    assert_eq!(layout.lines[2].text, "  Salary - $1234.56");
    assert_eq!(layout.lines[5].text, "  Rent - $-0.07");
    let again = layout_report(&summary);
    assert_eq!(layout, again);
}

#[test]
fn test_get_month_pdf_success() {
    let s = create_test_summary();
    let open = s.month;
    let m = begin_close(Some(open), 1).unwrap();
    let layout = prepare_close(Some(m), 1, s.income_entries, s.fixed_expenses, vec![], s.items).unwrap();
    let rendered = render(&layout).map_err(|e| e.to_string());
    let snapshot = snapshot_of(&m, rendered).unwrap();
    let closed = finish_close(m, Ok(())).unwrap();
    assert!(stored_report(Some(open), 1, Some(snapshot.clone())).is_err());
    let bytes = stored_report(Some(closed), 1, Some(snapshot)).unwrap();
    assert!(bytes.starts_with(b"%PDF"));
}
