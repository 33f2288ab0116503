use finance_cli::category::Category;
use finance_cli::csv_import::parse_amount;
use finance_cli::date::Date;
use finance_cli::models::{Transaction, TransactionBuilder};
use finance_cli::money::{checked_add, checked_sub, Money};
use finance_cli::report::{
    compare_schedules, count_uncategorized, count_unmapped, display_line, line_in_schedule,
    line_total, parse_years, schedule_coverage, schedule_line_labels, schedule_line_totals,
    schedule_title, schedule_totals, year_change,
};

fn tx(amount: &str, category: Option<u128>, line: Option<&str>) -> Transaction {
    let mut t = TransactionBuilder::new()
        .account_id(1)
        .date(Date { year: 2024, month: 6, day: 1 })
        .amount(parse_amount(amount).unwrap())
        .description(format!("tx {}", amount))
        .build()
        .unwrap();
    t.category_id = category;
    t.schedule_c_line = line.map(|s| s.to_string());
    t
}

fn cat(id: u128, name: &str, line: Option<&str>) -> Category {
    let mut c = Category::expense(name);
    c.id = id;
    if let Some(l) = line {
        c = c.with_schedule_c(l);
    }
    c
}

#[test]
fn labels_per_schedule() {
    assert_eq!(schedule_line_labels("A").len(), 10);
    assert_eq!(schedule_line_labels("C").len(), 13);
    assert_eq!(schedule_line_labels("E").len(), 16);
    assert!(schedule_line_labels("B").is_empty());
    assert_eq!(schedule_line_labels("C")[6], ("L18", "Office expense"));
    assert_eq!(schedule_line_labels("A")[1], ("A-5a", "State/local income taxes"));
}

#[test]
fn lines_belong_to_schedules() {
    assert!(line_in_schedule("L18", "C"));
    assert!(!line_in_schedule("A-1", "C"));
    assert!(line_in_schedule("A-5a", "A"));
    assert!(!line_in_schedule("E-3", "A"));
    assert!(line_in_schedule("E-3", "E"));
}

#[test]
fn shown_line_numbers() {
    assert_eq!(display_line("A-5a", "A"), "L5a");
    assert_eq!(display_line("E-19", "E"), "L19");
    assert_eq!(display_line("L24b", "C"), "L24b");
    assert_eq!(display_line("X-1", "A"), "X-1");
}

#[test]
fn schedule_c_totals() {
    let cats = vec![cat(10, "Office Expense", Some("L18")), cat(11, "Travel", Some("L24a")), cat(12, "Groceries", None)];
    let txs = vec![
        tx("-20.00", Some(10), None),
        tx("-5.50", Some(10), None),
        tx("-100", Some(11), None),
        tx("-7.00", Some(12), Some("L18")),
        tx("-3.00", None, Some("L18")),
        tx("-1.00", None, None),
    ];
    let totals = schedule_line_totals(&txs, &cats, "C").unwrap();
    assert_eq!(totals.len(), 13);
    assert_eq!(totals[6].0.to_decimal_string(), "-28.50");
    assert_eq!(totals[6].1, 3);
    assert_eq!(totals[9].0.to_decimal_string(), "-100");
    assert_eq!(totals[9].1, 1);
    assert_eq!(totals[0].1, 0);
    let one = line_total(&txs, &cats, "C", "L18").unwrap();
    assert_eq!(one.1, 3);

    let (income, expense, all) = schedule_totals(&totals).unwrap();
    assert_eq!(income.to_decimal_string(), "0");
    assert_eq!(expense.to_decimal_string(), "-128.50");
    assert_eq!(all.to_decimal_string(), "-128.50");

    assert_eq!(count_uncategorized(&txs), 2);
    assert_eq!(count_unmapped(&txs), 1);
    assert_eq!(schedule_coverage(&cats, &txs, "L"), 3);
    assert_eq!(schedule_coverage(&cats, &txs, "A-"), 0);
}

#[test]
fn schedule_e_income_and_expense() {
    let cats = vec![cat(1, "Rental Income", Some("E-3")), cat(2, "Rental - Repairs", Some("E-14"))];
    let txs = vec![tx("1500.00", Some(1), None), tx("-200.00", Some(2), None)];
    let totals = schedule_line_totals(&txs, &cats, "E").unwrap();
    let (income, expense, all) = schedule_totals(&totals).unwrap();
    assert_eq!(income.to_decimal_string(), "1500.00");
    assert_eq!(expense.to_decimal_string(), "-200.00");
    assert_eq!(all.to_decimal_string(), "1300.00");
}

#[test]
fn totals_overflow_is_reported() {
    let big = Money { negative: false, units: (1u128 << 96) - 1, scale: 0 };
    assert!(checked_add(&big, &big).is_none());
    let one = parse_amount("1.50").unwrap();
    let two = parse_amount("2.25").unwrap();
    assert_eq!(checked_add(&one, &two).unwrap().to_decimal_string(), "3.75");
    assert_eq!(checked_sub(&one, &two).unwrap().to_decimal_string(), "-0.75");
    let mut t1 = tx("1", None, Some("L8"));
    t1.amount = big;
    let mut t2 = tx("1", None, Some("L8"));
    t2.amount = big;
    assert!(schedule_line_totals(&vec![t1, t2], &vec![], "C").is_none());
}

#[test]
fn year_comparison_helpers() {
    assert_eq!(parse_years("2023, 2024,abc,,2025"), vec![2023, 2024, 2025]);
    assert!(parse_years("").is_empty());
    assert_eq!(compare_schedules("all"), vec!["A".to_string(), "C".to_string(), "E".to_string()]);
    assert_eq!(compare_schedules("c"), vec!["C".to_string()]);
    assert_eq!(compare_schedules("a"), vec!["A".to_string()]);
    assert_eq!(compare_schedules("E"), vec!["E".to_string()]);
    assert_eq!(compare_schedules("x"), vec!["x".to_string()]);
    assert_eq!(schedule_line_labels(&compare_schedules("c")[0]).len(), 13);
    assert_eq!(schedule_title("E"), "Schedule E - Rental Real Estate");
    assert_eq!(schedule_title("Z"), "Unknown Schedule");
    let amounts = vec![parse_amount("-10.00").unwrap(), parse_amount("5").unwrap(), parse_amount("-25.00").unwrap()];
    assert_eq!(year_change(&amounts).unwrap().to_decimal_string(), "-15.00");
}

#[test]
fn abs_clears_sign() {
    let m = parse_amount("-4.20").unwrap();
    assert_eq!(m.abs().to_decimal_string(), "4.20");
    assert!(m.is_expense());
    assert!(m.negate().is_income());
}

#[test]
fn each_line_belongs_to_one_schedule() {
    for code in ["A-1", "A-16", "L8", "L27a", "E-3", "E-19"] {
        let n = ["A", "C", "E"].iter().filter(|s| line_in_schedule(code, s)).count();
        assert_eq!(n, 1, "{}", code);
    }
    let txs = vec![tx("-9.99", None, Some("L18"))];
    let cats: Vec<Category> = vec![];
    assert_eq!(line_total(&txs, &cats, "C", "L18").unwrap().1, 1);
    assert_eq!(line_total(&txs, &cats, "C", "L8").unwrap().1, 0);
    assert_eq!(line_total(&txs, &cats, "A", "L18").unwrap().1, 0);
}

#[test]
fn years_parse_like_integers() {
    assert_eq!(parse_years("+2024,-5,2147483648,-2147483648, 7 ,1 2,+,-,0x10"), vec![2024, -5, i32::MIN, 7]);
    assert_eq!(parse_years("2147483647"), vec![i32::MAX]);
    assert_eq!(parse_years("-0"), vec![0]);
}
