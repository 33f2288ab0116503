use finance_cli::category::{Category, CategoryType};
use finance_cli::date::DateRange;
use finance_cli::db::{
    count_from_row, row_to_account, row_to_category, row_to_rule, row_to_transaction,
    AccountRepository, CategoryRepository, RuleRepository, TransactionRepository,
};
use finance_cli::ids::uuid_string;
use finance_cli::models::{
    Account, AccountType, CategorizedBy, ConditionField, LogicalOperator, RuleCondition,
    RuleBuilder, RuleConditions, RuleOperator, TransactionBuilder,
};
use finance_cli::sql::{
    account_type_from_string, account_type_to_string, categorized_by_from_string,
    categorized_by_to_string, category_type_from_string, category_type_to_string,
};

const ID: u128 = 0x67e5504410b1426f9247bb680e5fe0c8;
const ID_TEXT: &str = "67e55044-10b1-426f-9247-bb680e5fe0c8";

#[test]
fn test_account_crud() {
    let repo = AccountRepository::new();
    let account = Account::new("Test Account", "Test Bank", AccountType::Checking).with_last_four("1234");

    let insert = repo.insert(&account);
    assert!(insert.starts_with("INSERT INTO accounts (id, name, bank, account_type, last_four_digits, is_active) VALUES ('"));
    assert!(insert.ends_with("', 'Test Account', 'Test Bank', 'checking', '1234', true)"));

    // reading the row back
    assert_eq!(
        repo.find_by_id(account.id),
        format!("SELECT id, name, bank, account_type, last_four_digits, is_active FROM accounts WHERE id = '{}'", uuid_string(account.id))
    );
    let found = row_to_account(&uuid_string(account.id), "Test Account".to_string(), "Test Bank".to_string(), "checking", Some("1234".to_string()), true);
    assert_eq!(found.id, account.id);
    assert_eq!(found.name, "Test Account");
}

#[test]
fn account_statements() {
    let repo = AccountRepository::new();
    assert_eq!(
        repo.find_all(),
        "SELECT id, name, bank, account_type, last_four_digits, is_active FROM accounts ORDER BY name"
    );
    assert_eq!(
        repo.find_active(),
        "SELECT id, name, bank, account_type, last_four_digits, is_active FROM accounts WHERE is_active = TRUE ORDER BY name"
    );
    assert_eq!(
        repo.find_by_name("O'Brien's"),
        "SELECT id, name, bank, account_type, last_four_digits, is_active FROM accounts WHERE LOWER(name) = LOWER('O''Brien''s')"
    );
    let mut account = Account::new("Joint", "Bank", AccountType::Savings);
    account.id = ID;
    assert_eq!(
        repo.update(&account),
        format!("UPDATE accounts SET name = 'Joint', bank = 'Bank', account_type = 'savings', last_four_digits = NULL, is_active = true, updated_at = CURRENT_TIMESTAMP WHERE id = '{}'", ID_TEXT)
    );
}

#[test]
fn category_statements() {
    let repo = CategoryRepository::new();
    assert_eq!(repo.count(), "SELECT COUNT(*) FROM categories");
    assert_eq!(
        repo.find_by_id(ID),
        format!("SELECT id, parent_id, name, description, category_type, schedule_c_line, is_tax_deductible, is_active, sort_order FROM categories WHERE id = '{}'", ID_TEXT)
    );
    assert_eq!(
        repo.find_by_name("Office Expense"),
        "SELECT id, parent_id, name, description, category_type, schedule_c_line, is_tax_deductible, is_active, sort_order FROM categories WHERE name = 'Office Expense'"
    );
    let mut c = Category::expense("Kid's Toys").with_schedule_c("L27a").with_sort_order(-3);
    c.id = ID;
    assert_eq!(
        repo.insert(&c),
        format!("INSERT INTO categories (id, parent_id, name, description, category_type, schedule_c_line, is_tax_deductible, is_active, sort_order) VALUES ('{}', NULL, 'Kid''s Toys', NULL, 'expense', 'L27a', true, true, -3)", ID_TEXT)
    );
}

#[test]
fn transaction_statements() {
    let repo = TransactionRepository::new();
    let range = DateRange::year(2024).unwrap();
    let sql = repo.find_by_date_range(&range);
    assert!(sql.ends_with("FROM transactions WHERE transaction_date >= '2024-01-01' AND transaction_date <= '2024-12-31' ORDER BY transaction_date ASC"));
    assert!(repo.find_uncategorized(25).ends_with("WHERE category_id IS NULL ORDER BY transaction_date DESC LIMIT 25"));
    assert_eq!(repo.hash_exists("a'b"), "SELECT 1 FROM transactions WHERE transaction_hash = 'a''b'");
    assert_eq!(repo.count(), "SELECT COUNT(*) FROM transactions");
    assert_eq!(repo.count_uncategorized(), "SELECT COUNT(*) FROM transactions WHERE category_id IS NULL");
    assert!(TransactionRepository::hash_found(Some(1)));
    assert!(!TransactionRepository::hash_found(None));
    assert_eq!(
        repo.update_category(ID, ID, "0.9"),
        format!("UPDATE transactions SET category_id = '{}', categorized_by = 'manual', confidence_score = 0.9, updated_at = CURRENT_TIMESTAMP WHERE id = '{}'", ID_TEXT, ID_TEXT)
    );
}

#[test]
fn transaction_insert_statement() {
    let repo = TransactionRepository::new();
    let tx = TransactionBuilder::new()
        .account_id(ID)
        .date(finance_cli::date::Date { year: 2024, month: 3, day: 5 })
        .amount(finance_cli::csv_import::parse_amount("-12.50").unwrap())
        .description("Joe's Diner".to_string())
        .build()
        .unwrap();
    let sql = repo.insert(&tx);
    assert!(sql.contains(&format!("', '{}', NULL, NULL, '2024-03-05', -12.50, 'Joe''s Diner', NULL, NULL, NULL, NULL, '", ID_TEXT)));
    assert!(sql.ends_with("', NULL, false, false, false, NULL, NULL, NULL)"));
}

#[test]
fn rule_statements() {
    let repo = RuleRepository::new();
    assert_eq!(repo.count(), "SELECT COUNT(*) FROM rules");
    let rule = row_to_rule(ID_TEXT, ID_TEXT, "Coffee".to_string(), None, 10, None, true, 0);
    assert_eq!(rule.id, ID);
    assert_eq!(rule.conditions.operator, LogicalOperator::And);
    assert!(rule.conditions.conditions.is_empty());
    assert_eq!(
        repo.insert(&rule, "{\"a\":\"it's\"}"),
        format!("INSERT INTO rules (id, target_category_id, name, description, priority, conditions, is_active) VALUES ('{}', '{}', 'Coffee', NULL, 10, '{{\"a\":\"it''s\"}}', true)", ID_TEXT, ID_TEXT)
    );
}

#[test]
fn rows_read_with_fallbacks() {
    let c = row_to_category("not-a-uuid", Some("bad".to_string()), "X".to_string(), None, "mystery", None, false, true, 7);
    assert_eq!(c.parent_id, None);
    assert_eq!(c.category_type, CategoryType::Expense);
    let a = row_to_account(ID_TEXT, "A".to_string(), "B".to_string(), "unknown", None, false);
    assert_eq!(a.account_type, AccountType::Checking);
    let t = row_to_transaction(
        ID_TEXT, ID_TEXT, None, None, "garbage", "oops", "D".to_string(), None, None, None, None,
        "h".to_string(), None, false, false, false, None, Some("weird".to_string()), None,
    );
    assert_eq!(t.transaction_date.to_iso_string(), "2000-01-01");
    assert_eq!(t.amount.to_decimal_string(), "0");
    assert_eq!(t.categorized_by, Some(CategorizedBy::Default));
    let t = row_to_transaction(
        ID_TEXT, ID_TEXT, Some(ID_TEXT.to_string()), None, "2024-02-29", "-3.10", "D".to_string(), None, None, None, None,
        "h".to_string(), None, true, false, false, None, Some("rule".to_string()), Some("0.8".to_string()),
    );
    assert_eq!(t.category_id, Some(ID));
    assert_eq!(t.transaction_date.to_iso_string(), "2024-02-29");
    assert_eq!(t.amount.to_decimal_string(), "-3.10");
    assert_eq!(t.categorized_by, Some(CategorizedBy::Rule));
    assert_eq!(count_from_row(None), 0);
    assert_eq!(count_from_row(Some(12)), 12);
}

#[test]
fn stored_names_round_trip() {
    for t in [
        AccountType::Checking, AccountType::Savings, AccountType::CreditCard,
        AccountType::BusinessChecking, AccountType::BusinessSavings, AccountType::BusinessCredit,
    ] {
        assert_eq!(account_type_from_string(account_type_to_string(&t)), t);
    }
    for t in [CategoryType::Income, CategoryType::Expense, CategoryType::Personal] {
        assert_eq!(category_type_from_string(category_type_to_string(&t)), t);
    }
    for c in [CategorizedBy::Rule, CategorizedBy::Manual, CategorizedBy::Default, CategorizedBy::Ml] {
        assert_eq!(categorized_by_from_string(categorized_by_to_string(&c)), c);
    }
    assert_eq!(account_type_to_string(&AccountType::CreditCard), "credit_card");
}

#[test]
fn conditions_any_and_all() {
    let c = RuleCondition { field: ConditionField::Description, operator: RuleOperator::Contains, value: "x".to_string() };
    let any = RuleConditions::any(vec![c]);
    assert_eq!(any.operator, LogicalOperator::Or);
    assert_eq!(any.conditions.len(), 1);
}

#[test]
fn rules_built_for_a_description() {
    let rule = RuleBuilder::new("Coffee → Meals".to_string(), ID).description_contains("STARBUCKS".to_string()).build();
    assert_eq!(rule.target_category_id, ID);
    assert_eq!(rule.priority, 100);
    assert!(rule.is_active);
    assert_eq!(rule.conditions.operator, LogicalOperator::And);
    assert_eq!(rule.conditions.conditions.len(), 1);
    assert_eq!(rule.conditions.conditions[0].field, ConditionField::Description);
    assert_eq!(rule.conditions.conditions[0].operator, RuleOperator::Contains);
    assert_eq!(rule.conditions.conditions[0].value, "STARBUCKS");
}
