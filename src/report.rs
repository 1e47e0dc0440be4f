use vstd::prelude::*;

use crate::money::MAX_ROWS;
use crate::model::{FixedExpense, IncomeEntry, ItemWithCategory, MonthSummary, MonthlyBudgetWithCategory};
use crate::text::{cents_text, date_text, decimal, push_cents, push_date, push_decimal};

verus! {

/// Vertical position of the first line, in millimetres from the page's bottom.
pub const TOP_MM: i64 = 270;

/// Left margin of every line, in millimetres.
pub const LEFT_MARGIN_MM: i64 = 20;

/// Distance between two lines, in millimetres.
pub const LINE_HEIGHT_MM: i64 = 6;

/// Lowest position at which a spending item is still written.
pub const BOTTOM_MM: i64 = 20;

/// One line of text placed on the report's single page.
#[derive(Clone, Debug, PartialEq, Eq)]
pub struct ReportLine {
    pub text: String,
    /// Font size in points.
    pub size: u32,
    pub bold: bool,
    /// Vertical position in millimetres from the page's bottom.
    pub y: i64,
}

/// The content of a month's report: its title and its lines, top to bottom.
#[derive(Clone, Debug, PartialEq, Eq)]
pub struct ReportLayout {
    pub title: String,
    pub lines: Vec<ReportLine>,
}

/// A line as the contracts see it.
pub struct LineSpec {
    pub text: Seq<char>,
    pub size: u32,
    pub bold: bool,
    pub y: int,
}

/// A line with the given text, style and position.
pub open spec fn line_spec(text: Seq<char>, size: u32, bold: bool, y: int) -> LineSpec {
    LineSpec { text, size, bold, y }
}

impl ReportLine {
    /// The line as the contracts see it.
    pub open spec fn spec(self) -> LineSpec {
        line_spec(self.text@, self.size, self.bold, self.y as int)
    }
}

/// Lines as the contracts see them.
pub open spec fn lines_spec(lines: Seq<ReportLine>) -> Seq<LineSpec> {
    lines.map_values(|l: ReportLine| l.spec())
}

/// An amount of cents after a dollar sign: `$12.34`.
pub open spec fn money(v: int) -> Seq<char> {
    "$"@ + cents_text(v)
}

/// The report's title: `Financial Summary - month/year`.
pub open spec fn title_text(s: MonthSummary) -> Seq<char> {
    "Financial Summary - "@ + signed_decimal(s.month.month as int) + "/"@ + signed_decimal(
        s.month.year as int,
    )
}

/// A whole number in decimal, with a minus sign when negative.
pub open spec fn signed_decimal(v: int) -> Seq<char> {
    if v < 0 {
        "-"@ + decimal((-v) as nat)
    } else {
        decimal(v as nat)
    }
}

/// An income entry's line: its label and amount.
pub open spec fn income_text(e: IncomeEntry) -> Seq<char> {
    "  "@ + e.label@ + " - "@ + money(e.amount as int)
}

/// A fixed expense's line: its label and amount.
pub open spec fn fixed_text(e: FixedExpense) -> Seq<char> {
    "  "@ + e.label@ + " - "@ + money(e.amount as int)
}

/// How a category stands: over its allocation by how much, or what is left.
pub open spec fn budget_status(b: MonthlyBudgetWithCategory) -> Seq<char> {
    if b.spent_amount > b.allocated_amount {
        "OVER by "@ + money(b.spent_amount - b.allocated_amount)
    } else {
        money(b.allocated_amount - b.spent_amount) + " remaining"@
    }
}

/// A budget's line: its category, what was spent against what was allocated,
/// and how the category stands.
pub open spec fn budget_text(b: MonthlyBudgetWithCategory) -> Seq<char> {
    "  "@ + b.category_label@ + ": "@ + money(b.spent_amount as int) + " / "@ + money(
        b.allocated_amount as int,
    ) + " ("@ + budget_status(b) + ")"@
}

/// A spending item's line: its date, description, amount and category.
pub open spec fn item_text(i: ItemWithCategory) -> Seq<char> {
    "  "@ + date_text(i.spent_on) + " - "@ + i.description@ + " - "@ + money(i.amount as int) + " ("@
        + i.category_label@ + ")"@
}

/// The closing balance: what remains, or the deficit as a positive amount.
pub open spec fn remaining_text(v: int) -> Seq<char> {
    if v >= 0 {
        "Remaining: "@ + money(v)
    } else {
        "Deficit: -"@ + money(-v)
    }
}

/// How many of `n` items fit when the first stands at `y` and each further
/// one a line lower, none below the bottom limit.
pub open spec fn items_shown(y: int, n: int) -> int
    decreases n,
{
    if n <= 0 || y < BOTTOM_MM as int {
        0
    } else {
        1 + items_shown(y - LINE_HEIGHT_MM as int, n - 1)
    }
}

/// Rows of `texts` placed one line apart from `y0` downwards.
pub open spec fn block(texts: Seq<Seq<char>>, size: u32, bold: bool, y0: int) -> Seq<LineSpec> {
    Seq::new(texts.len(), |k: int| line_spec(texts[k], size, bold, y0 - LINE_HEIGHT_MM * k))
}

/// Number of lines of the three sections with one line per row.
pub open spec fn row_count(s: MonthSummary) -> int {
    s.income_entries@.len() + s.fixed_expenses@.len() + s.budgets@.len() as int
}

/// Where the first spending item stands.
pub open spec fn items_top(s: MonthSummary) -> int {
    TOP_MM - LINE_HEIGHT_MM * (11 + row_count(s))
}

/// How many spending items the report shows.
pub open spec fn shown_items(s: MonthSummary) -> int {
    items_shown(items_top(s), s.items@.len() as int)
}

/// The title and the heading of the income section.
pub open spec fn report_head(s: MonthSummary) -> Seq<LineSpec> {
    seq![
        line_spec(title_text(s), 16, true, TOP_MM as int),
        line_spec("INCOME"@, 12, true, TOP_MM - LINE_HEIGHT_MM * 2),
    ]
}

/// One line per income entry.
pub open spec fn income_block(s: MonthSummary) -> Seq<LineSpec> {
    block(
        s.income_entries@.map_values(|e: IncomeEntry| income_text(e)),
        10,
        false,
        TOP_MM - LINE_HEIGHT_MM * 3,
    )
}

/// The income total and the heading of the fixed expenses.
pub open spec fn income_footer(s: MonthSummary) -> Seq<LineSpec> {
    let ni = s.income_entries@.len() as int;
    seq![
        line_spec(
            "Total Income: "@ + money(s.total_income as int),
            10,
            true,
            TOP_MM - LINE_HEIGHT_MM * (3 + ni),
        ),
        line_spec("FIXED EXPENSES"@, 12, true, TOP_MM - LINE_HEIGHT_MM * (5 + ni)),
    ]
}

/// One line per fixed expense.
pub open spec fn fixed_block(s: MonthSummary) -> Seq<LineSpec> {
    block(
        s.fixed_expenses@.map_values(|e: FixedExpense| fixed_text(e)),
        10,
        false,
        TOP_MM - LINE_HEIGHT_MM * (6 + s.income_entries@.len() as int),
    )
}

/// The fixed total and the heading of the budgets.
pub open spec fn fixed_footer(s: MonthSummary) -> Seq<LineSpec> {
    let nif = s.income_entries@.len() + s.fixed_expenses@.len() as int;
    seq![
        line_spec(
            "Total Fixed: "@ + money(s.total_fixed as int),
            10,
            true,
            TOP_MM - LINE_HEIGHT_MM * (6 + nif),
        ),
        line_spec("BUDGET VS ACTUAL"@, 12, true, TOP_MM - LINE_HEIGHT_MM * (8 + nif)),
    ]
}

/// One line per budget.
pub open spec fn budget_block(s: MonthSummary) -> Seq<LineSpec> {
    block(
        s.budgets@.map_values(|b: MonthlyBudgetWithCategory| budget_text(b)),
        10,
        false,
        TOP_MM - LINE_HEIGHT_MM * (9 + s.income_entries@.len() as int + s.fixed_expenses@.len() as int),
    )
}

/// The heading of the spending items.
pub open spec fn items_header(s: MonthSummary) -> Seq<LineSpec> {
    seq![line_spec("SPENDING ITEMS"@, 12, true, TOP_MM - LINE_HEIGHT_MM * (10 + row_count(s)))]
}

/// One line per spending item that fits on the page.
pub open spec fn item_block(s: MonthSummary) -> Seq<LineSpec> {
    block(
        s.items@.subrange(0, shown_items(s)).map_values(|i: ItemWithCategory| item_text(i)),
        9,
        false,
        items_top(s),
    )
}

/// The closing section: the total spent and the remaining balance.
pub open spec fn closing_block(s: MonthSummary) -> Seq<LineSpec> {
    let end = TOP_MM - LINE_HEIGHT_MM * (12 + row_count(s) + shown_items(s));
    seq![
        line_spec("SUMMARY"@, 12, true, end),
        line_spec("Total Spent: "@ + money(s.total_spent as int), 10, false, end - LINE_HEIGHT_MM),
        line_spec(remaining_text(s.remaining as int), 10, true, end - LINE_HEIGHT_MM * 2),
    ]
}

/// The report of a summary, line by line: the title; the income entries and
/// their total; the fixed expenses and their total; each budget against what
/// was spent; the spending items, newest first, as many as fit above the
/// bottom limit; then the total spent and the remaining balance.
pub open spec fn report_spec(s: MonthSummary) -> Seq<LineSpec> {
    report_head(s) + income_block(s) + income_footer(s) + fixed_block(s) + fixed_footer(s)
        + budget_block(s) + items_header(s) + item_block(s) + closing_block(s)
}

/// An amount small enough that differences of two such amounts stay in `i128`:
/// within 2^100 of zero.
pub open spec fn printable(v: int) -> bool {
    -0x10_0000_0000_0000_0000_0000_0000int <= v <= 0x10_0000_0000_0000_0000_0000_0000int
}

/// Amounts and counts of a summary that the report can place and print.
pub open spec fn summary_fits(s: MonthSummary) -> bool {
    &&& s.income_entries@.len() <= MAX_ROWS
    &&& s.fixed_expenses@.len() <= MAX_ROWS
    &&& s.budgets@.len() <= MAX_ROWS
    &&& s.items@.len() <= MAX_ROWS
    &&& printable(s.remaining as int)
    &&& forall|k: int|
        0 <= k < s.budgets@.len() ==> printable(#[trigger] s.budgets@[k].spent_amount as int)
    &&& forall|k: int| 0 <= k < s.items@.len() ==> (#[trigger] s.items@[k]).spent_on.wf()
}

proof fn lemma_push_line(lines: Seq<ReportLine>, l: ReportLine)
    ensures
        lines_spec(lines.push(l)) == lines_spec(lines).push(l.spec()),
{
    assert(lines_spec(lines.push(l)) =~= lines_spec(lines).push(l.spec()));
}

fn push_line(out: &mut Vec<ReportLine>, text: String, size: u32, bold: bool, y: i64)
    ensures
        lines_spec(final(out)@) == lines_spec(old(out)@).push(line_spec(text@, size, bold, y as int)),
{
    proof {
        lemma_push_line(out@, ReportLine { text, size, bold, y });
    }
    out.push(ReportLine { text, size, bold, y });
}

fn push_money(out: &mut String, v: i128)
    ensures
        final(out)@ == old(out)@ + money(v as int),
{
    let ghost before = out@;
    out.append("$");
    push_cents(out, v);
    assert(out@ =~= before + money(v as int));
}

fn push_signed(out: &mut String, v: i32)
    ensures
        final(out)@ == old(out)@ + signed_decimal(v as int),
{
    let ghost before = out@;
    if v < 0 {
        out.append("-");
        push_decimal(out, (-(v as i64)) as u128);
        assert(out@ =~= before + signed_decimal(v as int));
    } else {
        push_decimal(out, v as u128);
    }
}

fn title_line(s: &MonthSummary) -> (r: String)
    ensures
        r@ == title_text(*s),
{
    let mut t = String::from_str("Financial Summary - ");
    push_signed(&mut t, s.month.month);
    t.append("/");
    push_signed(&mut t, s.month.year);
    assert(t@ =~= title_text(*s));
    t
}

fn labelled_amount(label: &String, amount: i64) -> (r: String)
    ensures
        r@ == "  "@ + label@ + " - "@ + money(amount as int),
{
    let mut t = String::from_str("  ");
    t.append(label.as_str());
    t.append(" - ");
    push_money(&mut t, amount as i128);
    assert(t@ =~= "  "@ + label@ + " - "@ + money(amount as int));
    t
}

fn total_line(caption: &str, v: i128) -> (r: String)
    ensures
        r@ == caption@ + money(v as int),
{
    let mut t = String::from_str(caption);
    push_money(&mut t, v);
    t
}

fn budget_line(b: &MonthlyBudgetWithCategory) -> (r: String)
    requires
        printable(b.spent_amount as int),
    ensures
        r@ == budget_text(*b),
{
    let mut t = String::from_str("  ");
    t.append(b.category_label.as_str());
    t.append(": ");
    push_money(&mut t, b.spent_amount);
    t.append(" / ");
    push_money(&mut t, b.allocated_amount as i128);
    t.append(" (");
    let ghost mid = t@;
    if b.spent_amount > b.allocated_amount as i128 {
        t.append("OVER by ");
        push_money(&mut t, b.spent_amount - b.allocated_amount as i128);
    } else {
        push_money(&mut t, b.allocated_amount as i128 - b.spent_amount);
        t.append(" remaining");
    }
    assert(t@ =~= mid + budget_status(*b));
    t.append(")");
    assert(t@ =~= budget_text(*b));
    t
}

fn item_line(i: &ItemWithCategory) -> (r: String)
    requires
        i.spent_on.wf(),
    ensures
        r@ == item_text(*i),
{
    let mut t = String::from_str("  ");
    push_date(&mut t, &i.spent_on);
    t.append(" - ");
    t.append(i.description.as_str());
    t.append(" - ");
    push_money(&mut t, i.amount as i128);
    t.append(" (");
    t.append(i.category_label.as_str());
    t.append(")");
    assert(t@ =~= item_text(*i));
    t
}

fn closing_line(v: i128) -> (r: String)
    requires
        printable(v as int),
    ensures
        r@ == remaining_text(v as int),
{
    if v >= 0 {
        total_line("Remaining: ", v)
    } else {
        total_line("Deficit: -", -v)
    }
}

proof fn lemma_items_shown_bounds(y: int, n: int)
    requires
        n >= 0,
    ensures
        0 <= items_shown(y, n) <= n,
    decreases n,
{
    if n > 0 && y >= BOTTOM_MM as int {
        lemma_items_shown_bounds(y - LINE_HEIGHT_MM as int, n - 1);
    }
}

proof fn lemma_block_step(
    prefix: Seq<LineSpec>,
    texts: Seq<Seq<char>>,
    size: u32,
    bold: bool,
    y0: int,
    k: int,
)
    requires
        0 <= k < texts.len(),
    ensures
        prefix + block(texts, size, bold, y0).subrange(0, k + 1) == (prefix + block(
            texts,
            size,
            bold,
            y0,
        ).subrange(0, k)).push(line_spec(texts[k], size, bold, y0 - LINE_HEIGHT_MM * k)),
{
    let b = block(texts, size, bold, y0);
    assert(prefix + b.subrange(0, k + 1) =~= (prefix + b.subrange(0, k)).push(
        line_spec(texts[k], size, bold, y0 - LINE_HEIGHT_MM * k),
    ));
}

/// Positions that a report of at most `MAX_ROWS` rows per section can reach.
pub open spec fn y_in_range(y: int) -> bool {
    -0x100_0000_0000 <= y <= TOP_MM as int
}

fn push_income_block(out: &mut Vec<ReportLine>, entries: &Vec<IncomeEntry>, y0: i64)
    requires
        entries.len() <= MAX_ROWS,
        y_in_range(y0 as int),
    ensures
        lines_spec(final(out)@) == lines_spec(old(out)@) + block(
            entries@.map_values(|e: IncomeEntry| income_text(e)),
            10,
            false,
            y0 as int,
        ),
{
    let ghost p = lines_spec(out@);
    let ghost texts = entries@.map_values(|e: IncomeEntry| income_text(e));
    let mut k: usize = 0;
    while k < entries.len()
        invariant
            k <= entries.len() <= MAX_ROWS,
            y_in_range(y0 as int),
            texts == entries@.map_values(|e: IncomeEntry| income_text(e)),
            lines_spec(out@) == p + block(texts, 10, false, y0 as int).subrange(0, k as int),
        decreases entries.len() - k,
    {
        let e = &entries[k];
        let t = labelled_amount(&e.label, e.amount);
        proof {
            lemma_block_step(p, texts, 10, false, y0 as int, k as int);
        }
        push_line(out, t, 10, false, y0 - LINE_HEIGHT_MM * (k as i64));
        k = k + 1;
    }
    let ghost b = block(texts, 10, false, y0 as int);
    assert(b.subrange(0, k as int) =~= b);
}

fn push_fixed_block(out: &mut Vec<ReportLine>, expenses: &Vec<FixedExpense>, y0: i64)
    requires
        expenses.len() <= MAX_ROWS,
        y_in_range(y0 as int),
    ensures
        lines_spec(final(out)@) == lines_spec(old(out)@) + block(
            expenses@.map_values(|e: FixedExpense| fixed_text(e)),
            10,
            false,
            y0 as int,
        ),
{
    let ghost p = lines_spec(out@);
    let ghost texts = expenses@.map_values(|e: FixedExpense| fixed_text(e));
    let mut k: usize = 0;
    while k < expenses.len()
        invariant
            k <= expenses.len() <= MAX_ROWS,
            y_in_range(y0 as int),
            texts == expenses@.map_values(|e: FixedExpense| fixed_text(e)),
            lines_spec(out@) == p + block(texts, 10, false, y0 as int).subrange(0, k as int),
        decreases expenses.len() - k,
    {
        let e = &expenses[k];
        let t = labelled_amount(&e.label, e.amount);
        proof {
            lemma_block_step(p, texts, 10, false, y0 as int, k as int);
        }
        push_line(out, t, 10, false, y0 - LINE_HEIGHT_MM * (k as i64));
        k = k + 1;
    }
    let ghost b = block(texts, 10, false, y0 as int);
    assert(b.subrange(0, k as int) =~= b);
}

fn push_budget_block(out: &mut Vec<ReportLine>, budgets: &Vec<MonthlyBudgetWithCategory>, y0: i64)
    requires
        budgets.len() <= MAX_ROWS,
        y_in_range(y0 as int),
        forall|k: int|
            0 <= k < budgets@.len() ==> printable(#[trigger] budgets@[k].spent_amount as int),
    ensures
        lines_spec(final(out)@) == lines_spec(old(out)@) + block(
            budgets@.map_values(|b: MonthlyBudgetWithCategory| budget_text(b)),
            10,
            false,
            y0 as int,
        ),
{
    let ghost p = lines_spec(out@);
    let ghost texts = budgets@.map_values(|b: MonthlyBudgetWithCategory| budget_text(b));
    let mut k: usize = 0;
    while k < budgets.len()
        invariant
            k <= budgets.len() <= MAX_ROWS,
            y_in_range(y0 as int),
            forall|j: int|
                0 <= j < budgets@.len() ==> printable(#[trigger] budgets@[j].spent_amount as int),
            texts == budgets@.map_values(|b: MonthlyBudgetWithCategory| budget_text(b)),
            lines_spec(out@) == p + block(texts, 10, false, y0 as int).subrange(0, k as int),
        decreases budgets.len() - k,
    {
        let b = &budgets[k];
        assert(printable(budgets@[k as int].spent_amount as int));
        let t = budget_line(b);
        proof {
            lemma_block_step(p, texts, 10, false, y0 as int, k as int);
        }
        push_line(out, t, 10, false, y0 - LINE_HEIGHT_MM * (k as i64));
        k = k + 1;
    }
    let ghost b = block(texts, 10, false, y0 as int);
    assert(b.subrange(0, k as int) =~= b);
}

/// Writes the leading items that fit above the bottom limit; returns how many.
fn push_item_block(out: &mut Vec<ReportLine>, items: &Vec<ItemWithCategory>, y0: i64) -> (shown: usize)
    requires
        items.len() <= MAX_ROWS,
        y_in_range(y0 as int),
        forall|k: int| 0 <= k < items@.len() ==> (#[trigger] items@[k]).spent_on.wf(),
    ensures
        shown == items_shown(y0 as int, items@.len() as int),
        shown <= items@.len(),
        lines_spec(final(out)@) == lines_spec(old(out)@) + block(
            items@.subrange(0, shown as int).map_values(|i: ItemWithCategory| item_text(i)),
            9,
            false,
            y0 as int,
        ),
{
    let ghost p = lines_spec(out@);
    let n = items.len();
    let ghost total_shown = items_shown(y0 as int, n as int);
    proof {
        lemma_items_shown_bounds(y0 as int, n as int);
    }
    let ghost texts = items@.subrange(0, total_shown).map_values(|i: ItemWithCategory| item_text(i));
    let mut y: i64 = y0;
    let mut k: usize = 0;
    while k < n && y >= BOTTOM_MM
        invariant
            k <= n == items@.len() <= MAX_ROWS,
            y_in_range(y0 as int),
            forall|j: int| 0 <= j < items@.len() ==> (#[trigger] items@[j]).spent_on.wf(),
            y == y0 - LINE_HEIGHT_MM * k,
            0 <= total_shown <= n,
            k + items_shown(y as int, n - k) == total_shown,
            texts == items@.subrange(0, total_shown).map_values(|i: ItemWithCategory| item_text(i)),
            lines_spec(out@) == p + block(texts, 9, false, y0 as int).subrange(0, k as int),
        decreases n - k,
    {
        let it = &items[k];
        assert(items@[k as int].spent_on.wf());
        let t = item_line(it);
        proof {
            lemma_items_shown_bounds(y - LINE_HEIGHT_MM, n - k - 1);
            assert(k < total_shown);
            lemma_block_step(p, texts, 9, false, y0 as int, k as int);
        }
        push_line(out, t, 9, false, y);
        y = y - LINE_HEIGHT_MM;
        k = k + 1;
    }
    let ghost b = block(texts, 9, false, y0 as int);
    assert(b.subrange(0, k as int) =~= b);
    k
}

/// Lays out the report of a month: the title, then each section top to
/// bottom as the report's specification gives it. Spending items that would
/// fall below the bottom limit are left out: the report has one page.
pub fn layout_report(s: &MonthSummary) -> (r: ReportLayout)
    requires
        summary_fits(*s),
    ensures
        r.title@ == title_text(*s),
        lines_spec(r.lines@) == report_spec(*s),
{
    let ni = s.income_entries.len() as i64;
    let nf = s.fixed_expenses.len() as i64;
    let n = ni + nf + s.budgets.len() as i64;
    let mut out: Vec<ReportLine> = Vec::new();
    let title = title_line(s);
    push_line(&mut out, title.clone(), 16, true, TOP_MM);
    push_line(&mut out, String::from_str("INCOME"), 12, true, TOP_MM - LINE_HEIGHT_MM * 2);
    assert(lines_spec(out@) =~= report_head(*s));
    let ghost a0 = lines_spec(out@);
    push_income_block(&mut out, &s.income_entries, TOP_MM - LINE_HEIGHT_MM * 3);
    let ghost a1 = lines_spec(out@);
    assert(a1 == a0 + income_block(*s));
    let total_income = total_line("Total Income: ", s.total_income);
    push_line(&mut out, total_income, 10, true, TOP_MM - LINE_HEIGHT_MM * (3 + ni));
    let heading = String::from_str("FIXED EXPENSES");
    push_line(&mut out, heading, 12, true, TOP_MM - LINE_HEIGHT_MM * (5 + ni));
    assert(lines_spec(out@) =~= a1 + income_footer(*s));
    let ghost a2 = lines_spec(out@);
    push_fixed_block(&mut out, &s.fixed_expenses, TOP_MM - LINE_HEIGHT_MM * (6 + ni));
    let ghost a3 = lines_spec(out@);
    assert(a3 == a2 + fixed_block(*s));
    let total_fixed = total_line("Total Fixed: ", s.total_fixed);
    push_line(&mut out, total_fixed, 10, true, TOP_MM - LINE_HEIGHT_MM * (6 + ni + nf));
    let heading = String::from_str("BUDGET VS ACTUAL");
    push_line(&mut out, heading, 12, true, TOP_MM - LINE_HEIGHT_MM * (8 + ni + nf));
    assert(lines_spec(out@) =~= a3 + fixed_footer(*s));
    let ghost a4 = lines_spec(out@);
    push_budget_block(&mut out, &s.budgets, TOP_MM - LINE_HEIGHT_MM * (9 + ni + nf));
    let ghost a5 = lines_spec(out@);
    assert(a5 == a4 + budget_block(*s));
    let heading = String::from_str("SPENDING ITEMS");
    push_line(&mut out, heading, 12, true, TOP_MM - LINE_HEIGHT_MM * (10 + n));
    assert(lines_spec(out@) =~= a5 + items_header(*s));
    let ghost a6 = lines_spec(out@);
    let shown = push_item_block(&mut out, &s.items, TOP_MM - LINE_HEIGHT_MM * (11 + n));
    let ghost a7 = lines_spec(out@);
    assert(a7 == a6 + item_block(*s));
    let end: i64 = TOP_MM - LINE_HEIGHT_MM * (12 + n + shown as i64);
    push_line(&mut out, String::from_str("SUMMARY"), 12, true, end);
    push_line(&mut out, total_line("Total Spent: ", s.total_spent), 10, false, end - LINE_HEIGHT_MM);
    push_line(&mut out, closing_line(s.remaining), 10, true, end - LINE_HEIGHT_MM * 2);
    assert(lines_spec(out@) =~= a7 + closing_block(*s));
    ReportLayout { title, lines: out }
}

} // verus!
