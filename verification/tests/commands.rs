use finance_cli::category::{Category, CategoryType};
use finance_cli::cli::{
    bulk_fetch, bulk_outcome, categorize_menu, children_sorted, chosen_category, confidence_text, rule_defaults, conditions_display, roots_of_type, schedule_suffix, delete_target, list_footer, list_range,
    missing_account_error, option_label, order_by_type, parse_category_type, report_range,
    rules_footer, rules_for_category, select_for_list, truncate, truncate_str, BulkFetch,
    DeleteTarget, ImportTally,
};
use finance_cli::date::Date;
use finance_cli::db::row_to_rule;
use finance_cli::error::{Error, ParseError};
use finance_cli::models::{
    ConditionField, LogicalOperator, RuleCondition, RuleConditions, RuleOperator, Transaction,
    TransactionBuilder,
};

fn tx(id: u128, category: Option<u128>) -> Transaction {
    let mut t = TransactionBuilder::new()
        .account_id(1)
        .date(Date { year: 2024, month: 1, day: 2 })
        .amount(finance_cli::csv_import::parse_amount("-1.00").unwrap())
        .description("x".to_string())
        .build()
        .unwrap();
    t.id = id;
    t.category_id = category;
    t
}

#[test]
fn truncation() {
    assert_eq!(truncate_str("hello world", 5), "hell…");
    assert_eq!(truncate_str("hello", 5), "hello");
    assert_eq!(truncate("ünïcödé", 4), "ünï…");
    assert_eq!(truncate("", 0), "");
}

#[test]
fn rule_conditions_render() {
    let c = RuleConditions {
        operator: LogicalOperator::Or,
        conditions: vec![
            RuleCondition { field: ConditionField::MerchantName, operator: RuleOperator::StartsWith, value: "AMZN".to_string() },
            RuleCondition { field: ConditionField::Amount, operator: RuleOperator::GreaterThan, value: "100".to_string() },
        ],
    };
    assert_eq!(conditions_display(&c), "merchant starts with 'AMZN' OR amount > '100'");
    let one = RuleConditions::all(vec![RuleCondition { field: ConditionField::Description, operator: RuleOperator::Contains, value: "coffee".to_string() }]);
    assert_eq!(conditions_display(&one), "description contains 'coffee'");
    assert_eq!(conditions_display(&RuleConditions::all(vec![])), "");
}

#[test]
fn category_type_names() {
    assert_eq!(parse_category_type("Income"), Some(CategoryType::Income));
    assert_eq!(parse_category_type("PERSONAL"), Some(CategoryType::Personal));
    assert_eq!(parse_category_type("other"), None);
}

#[test]
fn periods() {
    assert!(list_range(None, None).unwrap().is_none());
    let r = list_range(Some(2024), Some(2)).unwrap().unwrap();
    assert_eq!(r.end, Date { year: 2024, month: 2, day: 29 });
    match list_range(Some(2024), Some(13)) {
        Err(Error::InvalidInput(m)) => assert_eq!(m, "Invalid year/month: 2024/13"),
        _ => panic!("expected an error"),
    }
    match report_range(300000) {
        Err(Error::InvalidInput(m)) => assert_eq!(m, "Invalid year: 300000"),
        _ => panic!("expected an error"),
    }
    match list_range(Some(-300000), None) {
        Err(Error::InvalidInput(m)) => assert_eq!(m, "Invalid year: -300000"),
        _ => panic!("expected an error"),
    }
    assert!(matches!(bulk_fetch(false, None, None), Ok(BulkFetch::Uncategorized)));
    assert!(matches!(bulk_fetch(true, None, None), Ok(BulkFetch::All)));
    assert!(matches!(bulk_fetch(false, Some(2024), None), Ok(BulkFetch::Period { uncategorized_only: true, .. })));
}

#[test]
fn listing_selection() {
    let txs = vec![tx(1, None), tx(2, Some(9)), tx(3, None), tx(4, None)];
    let (shown, total) = select_for_list(&txs, true, 2);
    assert_eq!(shown, vec![0, 2]);
    assert_eq!(total, 3);
    let (shown, total) = select_for_list(&txs, false, 10);
    assert_eq!(shown, vec![0, 1, 2, 3]);
    assert_eq!(total, 4);
    assert_eq!(list_footer(2, 3, 2), "Showing 2 of 3 transactions (use --limit to see more)");
    assert_eq!(list_footer(4, 4, 10), "Total: 4 transactions");
}

#[test]
fn delete_checks() {
    match delete_target(None, None) {
        Err(Error::InvalidInput(m)) => assert_eq!(m, "Must provide either --id <ID> or --account <NAME>"),
        _ => panic!(),
    }
    match delete_target(Some("x".to_string()), Some("y".to_string())) {
        Err(Error::InvalidInput(m)) => assert_eq!(m, "Cannot use both --id and --account"),
        _ => panic!(),
    }
    match delete_target(Some("nope".to_string()), None) {
        Err(Error::InvalidInput(m)) => assert_eq!(m, "Invalid UUID: nope"),
        _ => panic!(),
    }
    match delete_target(Some("67e55044-10b1-426f-9247-bb680e5fe0c8".to_string()), None) {
        Ok(DeleteTarget::Transaction(id)) => assert_eq!(id, 0x67e5504410b1426f9247bb680e5fe0c8),
        _ => panic!(),
    }
    assert!(matches!(delete_target(None, Some("Chase".to_string())), Ok(DeleteTarget::Account(a)) if a == "Chase"));
}

#[test]
fn import_tally() {
    let mut t = ImportTally::new();
    assert!(t.record(false, false));
    assert!(!t.record(false, true));
    assert!(t.record(true, true));
    assert_eq!(t.imported, 2);
    assert_eq!(t.skipped_dupes, 1);
    assert!(matches!(missing_account_error(), Error::InvalidInput(m) if m.starts_with("--account is required.")));
}

#[test]
fn bulk_tally() {
    let txs = vec![tx(1, None), tx(2, Some(7)), tx(3, Some(8))];
    let results = vec![(1, Some(7)), (2, Some(7)), (3, Some(7)), (4, None), (5, Some(7))];
    let out = bulk_outcome(&results, &txs);
    assert_eq!(out.matched, 4);
    assert_eq!(out.no_match, 1);
    assert_eq!(out.changes, vec![(1, 7), (3, 7)]);
}

#[test]
fn menu_order_and_labels() {
    let cats = vec![
        Category::expense("Rent"),
        Category::personal("Gym"),
        Category::income("Sales"),
        Category::expense("Ads").with_schedule_c("L8"),
    ];
    assert_eq!(order_by_type(&cats), vec![2, 0, 3, 1]);
    assert_eq!(option_label(&cats[3]), "Ads (L8)");
    assert_eq!(option_label(&cats[0]), "Rent");
}

#[test]
fn rule_listing() {
    let r1 = row_to_rule("67e55044-10b1-426f-9247-bb680e5fe0c8", "00000000-0000-0000-0000-000000000007", "a".to_string(), None, 1, None, true, 0);
    let r2 = row_to_rule("67e55044-10b1-426f-9247-bb680e5fe0c9", "00000000-0000-0000-0000-000000000008", "b".to_string(), None, 2, None, true, 0);
    let rules = vec![r1, r2];
    assert_eq!(rules_for_category(&rules, 8), vec![1]);
    assert_eq!(rules_footer(1), "1 rule");
    assert_eq!(rules_footer(3), "3 rules");
}

#[test]
fn category_tree_order() {
    let mut parent = Category::personal("Healthcare - Personal");
    parent.id = 100;
    let mut cats = vec![parent];
    for (name, order) in [("Vitamins", 3), ("Co-pays", 1), ("Dental", 3), ("Acupuncture", 3)] {
        let mut c = Category::expense(name).with_parent(100).with_sort_order(order);
        c.id = cats.len() as u128;
        cats.push(c);
    }
    cats.push(Category::income("Sales"));
    assert_eq!(children_sorted(&cats, 100), vec![2, 4, 3, 1]);
    assert!(children_sorted(&cats, 7).is_empty());
    assert_eq!(roots_of_type(&cats, CategoryType::Personal), vec![0]);
    assert_eq!(roots_of_type(&cats, CategoryType::Expense), Vec::<usize>::new());
    assert_eq!(roots_of_type(&cats, CategoryType::Income), vec![5]);
    let ads = Category::expense("Ads").with_schedule_c("L8");
    assert_eq!(schedule_suffix(&ads), " [L8]");
    assert_eq!(schedule_suffix(&cats[0]), "");
}

#[test]
fn categorize_menu_and_choice() {
    let cats = vec![Category::expense("Rent"), Category::income("Sales").with_schedule_c("E-3")];
    let ordered = order_by_type(&cats);
    let menu = categorize_menu(&cats, &ordered, Some(0));
    let labels: Vec<&str> = menu.iter().map(|(l, _)| l.as_str()).collect();
    assert_eq!(labels, vec!["[Suggested] Rent (via rule)", "Sales (E-3)", "Rent", "Skip"]);
    assert_eq!(chosen_category(&menu, Some(0)), Some(0));
    assert_eq!(chosen_category(&menu, Some(1)), Some(1));
    assert_eq!(chosen_category(&menu, Some(3)), None);
    assert_eq!(chosen_category(&menu, None), None);
    assert_eq!(confidence_text(5, Some(5)), "1");
    assert_eq!(confidence_text(5, Some(6)), "0.9");
    assert_eq!(confidence_text(5, None), "0.9");
    let mut t = tx(1, None);
    t.description = "STARBUCKS 123".to_string();
    let (pattern, name) = rule_defaults(&t, "Meals");
    assert_eq!(pattern, "STARBUCKS 123");
    assert_eq!(name, "STARBUCKS 123 → Meals");
    t.merchant_name = Some("Starbucks".to_string());
    assert_eq!(rule_defaults(&t, "Meals").1, "Starbucks → Meals");
}

#[test]
fn error_messages() {
    assert_eq!(Error::InvalidInput("bad".to_string()).message(), "Invalid input: bad");
    assert_eq!(Error::Parse(ParseError::InvalidAmount("'x'".to_string())).message(), "Parse error: Invalid amount: 'x'");
    assert_eq!(Error::Parse(ParseError::MissingField("date".to_string())).message(), "Parse error: Missing required field: date");
    assert_eq!(Error::Io { path: "a.csv".to_string(), message: "gone".to_string() }.message(), "I/O error on a.csv: gone");
    assert_eq!(Error::Database("locked".to_string()).message(), "Database error: locked");
    assert_eq!(Error::Report("x".to_string()).message(), "Report error: x");
    assert_eq!(Error::Internal("y".to_string()).message(), "Internal error: y");
}

#[test]
fn default_output_format_is_table() {
    assert_eq!(finance_cli::cli::OutputFormat::default(), finance_cli::cli::OutputFormat::Table);
}
