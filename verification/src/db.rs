//! The statements that the store runs for each repository, the reading of
//! its rows into domain values, and the plan for seeding default
//! categories. The connection that runs a statement lives with the caller.

use vstd::prelude::*;
use crate::category::{
    Category, built_from_row, default_categories, default_spec,
};
use crate::date::{Date, DateRange, chrono_parse_date, date_chars, date_text, date_triple, parse_naive_date};
use crate::ids::{EntityMetadata, new_uuid, parse_uuid, uuid_parse, uuid_text};
use crate::models::{
    Account, CategorizedBy, Rule, RuleConditions, Transaction, opt_view,
};
use crate::money::{Money, decimal_parse, money_chars, money_text, money_triple, nat_text, parse_decimal, text_of};
use crate::sql::{
    account_type_from_string, account_type_of_text, account_type_text, account_type_to_string,
    bool_text, categorized_by_from_string, categorized_by_of_text, categorized_by_text,
    categorized_by_to_string, category_type_from_string, category_type_of_text,
    category_type_text, category_type_to_string, int_text, opt_literal, opt_uuid_literal,
    push_bool, push_int, push_literal, push_opt_literal, push_opt_uuid_literal, push_uuid,
    sql_literal,
};
use crate::text::{chars_of, eq_chars, push_all, push_str, string_from_chars};

verus! {

/// Columns read for an account.
pub open spec fn account_select() -> Seq<char> {
    "SELECT id, name, bank, account_type, last_four_digits, is_active FROM accounts"@
}

/// Columns read for a category.
pub open spec fn category_select() -> Seq<char> {
    "SELECT id, parent_id, name, description, category_type, schedule_c_line, is_tax_deductible, is_active, sort_order FROM categories"@
}

/// Columns read for a transaction, with its date and amount as text.
pub open spec fn transaction_select() -> Seq<char> {
    "SELECT id, account_id, category_id, import_batch_id, CAST(transaction_date AS VARCHAR), CAST(amount AS VARCHAR), description, raw_category, merchant_name, location, reference_number, transaction_hash, schedule_c_line, is_business_expense, is_tax_deductible, is_recurring, expense_type, categorized_by, confidence_score FROM transactions"@
}

/// A value quoted without doubling its quotes, or `NULL`.
pub open spec fn opt_raw_literal(o: Option<Seq<char>>) -> Seq<char> {
    match o {
        Some(s) => seq!['\''] + s + seq!['\''],
        None => "NULL"@,
    }
}

/// A value written as it is, or `NULL`.
pub open spec fn opt_raw(o: Option<Seq<char>>) -> Seq<char> {
    match o {
        Some(s) => s,
        None => "NULL"@,
    }
}

fn push_opt_raw_literal(dst: &mut Vec<char>, o: &Option<String>)
    ensures
        final(dst)@ == old(dst)@ + opt_raw_literal(opt_view(*o)),
{
    match o {
        Some(s) => {
            dst.push('\'');
            push_str(dst, s.as_str());
            dst.push('\'');
        },
        None => push_str(dst, "NULL"),
    }
}

fn push_opt_raw(dst: &mut Vec<char>, o: &Option<String>)
    ensures
        final(dst)@ == old(dst)@ + opt_raw(opt_view(*o)),
{
    match o {
        Some(s) => push_str(dst, s.as_str()),
        None => push_str(dst, "NULL"),
    }
}

fn text(v: Vec<char>) -> (r: String)
    ensures
        r@ == v@,
{
    string_from_chars(v.as_slice())
}

/// A count read from a `COUNT(*)` row; no row counts as zero.
pub fn count_from_row(row: Option<i64>) -> (r: i64)
    ensures
        r == match row {
            Some(v) => v,
            None => 0,
        },
{
    match row {
        Some(v) => v,
        None => 0,
    }
}

/// Statements for accounts.
pub struct AccountRepository {}

impl AccountRepository {
    pub fn new() -> AccountRepository {
        AccountRepository {  }
    }

    /// Get all accounts.
    pub fn find_all(&self) -> (r: String)
        ensures
            r@ == account_select() + " ORDER BY name"@,
    {
        let mut v = chars_of(
            "SELECT id, name, bank, account_type, last_four_digits, is_active FROM accounts",
        );
        push_str(&mut v, " ORDER BY name");
        text(v)
    }

    /// Get active accounts.
    pub fn find_active(&self) -> (r: String)
        ensures
            r@ == account_select() + " WHERE is_active = TRUE ORDER BY name"@,
    {
        let mut v = chars_of(
            "SELECT id, name, bank, account_type, last_four_digits, is_active FROM accounts",
        );
        push_str(&mut v, " WHERE is_active = TRUE ORDER BY name");
        text(v)
    }

    /// Get account by ID.
    pub fn find_by_id(&self, id: u128) -> (r: String)
        ensures
            r@ == account_select() + " WHERE id = '"@ + uuid_text(id) + "'"@,
    {
        let mut v = chars_of(
            "SELECT id, name, bank, account_type, last_four_digits, is_active FROM accounts",
        );
        push_str(&mut v, " WHERE id = '");
        push_uuid(&mut v, id);
        push_str(&mut v, "'");
        text(v)
    }

    /// Get account by name (case-insensitive).
    pub fn find_by_name(&self, name: &str) -> (r: String)
        ensures
            r@ == account_select() + " WHERE LOWER(name) = LOWER("@ + sql_literal(name@) + ")"@,
    {
        let mut v = chars_of(
            "SELECT id, name, bank, account_type, last_four_digits, is_active FROM accounts",
        );
        push_str(&mut v, " WHERE LOWER(name) = LOWER(");
        push_literal(&mut v, name);
        push_str(&mut v, ")");
        text(v)
    }

    /// Insert a new account.
    pub fn insert(&self, account: &Account) -> (r: String)
        ensures
            r@ == "INSERT INTO accounts (id, name, bank, account_type, last_four_digits, is_active) VALUES ('"@
                + uuid_text(account.id) + "', "@ + sql_literal(account.name@) + ", "@ + sql_literal(
                account.bank@,
            ) + ", '"@ + account_type_text(account.account_type) + "', "@ + opt_literal(
                opt_view(account.last_four_digits),
            ) + ", "@ + bool_text(account.is_active) + ")"@,
    {
        let mut v = chars_of(
            "INSERT INTO accounts (id, name, bank, account_type, last_four_digits, is_active) VALUES ('",
        );
        push_uuid(&mut v, account.id);
        push_str(&mut v, "', ");
        push_literal(&mut v, account.name.as_str());
        push_str(&mut v, ", ");
        push_literal(&mut v, account.bank.as_str());
        push_str(&mut v, ", '");
        push_str(&mut v, account_type_to_string(&account.account_type));
        push_str(&mut v, "', ");
        push_opt_literal(&mut v, &account.last_four_digits);
        push_str(&mut v, ", ");
        push_bool(&mut v, account.is_active);
        push_str(&mut v, ")");
        text(v)
    }

    /// Update an existing account.
    pub fn update(&self, account: &Account) -> (r: String)
        ensures
            r@ == "UPDATE accounts SET name = "@ + sql_literal(account.name@) + ", bank = "@
                + sql_literal(account.bank@) + ", account_type = '"@ + account_type_text(
                account.account_type,
            ) + "', last_four_digits = "@ + opt_literal(opt_view(account.last_four_digits))
                + ", is_active = "@ + bool_text(account.is_active)
                + ", updated_at = CURRENT_TIMESTAMP WHERE id = '"@ + uuid_text(account.id) + "'"@,
    {
        let mut v = chars_of("UPDATE accounts SET name = ");
        push_literal(&mut v, account.name.as_str());
        push_str(&mut v, ", bank = ");
        push_literal(&mut v, account.bank.as_str());
        push_str(&mut v, ", account_type = '");
        push_str(&mut v, account_type_to_string(&account.account_type));
        push_str(&mut v, "', last_four_digits = ");
        push_opt_literal(&mut v, &account.last_four_digits);
        push_str(&mut v, ", is_active = ");
        push_bool(&mut v, account.is_active);
        push_str(&mut v, ", updated_at = CURRENT_TIMESTAMP WHERE id = '");
        push_uuid(&mut v, account.id);
        push_str(&mut v, "'");
        text(v)
    }
}

/// Statements for categories.
pub struct CategoryRepository {}

impl CategoryRepository {
    pub fn new() -> CategoryRepository {
        CategoryRepository {  }
    }

    /// Get all categories.
    pub fn find_all(&self) -> (r: String)
        ensures
            r@ == category_select() + " ORDER BY sort_order, name"@,
    {
        let mut v = chars_of(
            "SELECT id, parent_id, name, description, category_type, schedule_c_line, is_tax_deductible, is_active, sort_order FROM categories",
        );
        push_str(&mut v, " ORDER BY sort_order, name");
        text(v)
    }

    /// Get active categories.
    pub fn find_active(&self) -> (r: String)
        ensures
            r@ == category_select() + " WHERE is_active = TRUE ORDER BY sort_order, name"@,
    {
        let mut v = chars_of(
            "SELECT id, parent_id, name, description, category_type, schedule_c_line, is_tax_deductible, is_active, sort_order FROM categories",
        );
        push_str(&mut v, " WHERE is_active = TRUE ORDER BY sort_order, name");
        text(v)
    }

    /// Get category by ID.
    pub fn find_by_id(&self, id: u128) -> (r: String)
        ensures
            r@ == category_select() + " WHERE id = '"@ + uuid_text(id) + "'"@,
    {
        let mut v = chars_of(
            "SELECT id, parent_id, name, description, category_type, schedule_c_line, is_tax_deductible, is_active, sort_order FROM categories",
        );
        push_str(&mut v, " WHERE id = '");
        push_uuid(&mut v, id);
        push_str(&mut v, "'");
        text(v)
    }

    /// Get category by name.
    pub fn find_by_name(&self, name: &str) -> (r: String)
        ensures
            r@ == category_select() + " WHERE name = "@ + sql_literal(name@),
    {
        let mut v = chars_of(
            "SELECT id, parent_id, name, description, category_type, schedule_c_line, is_tax_deductible, is_active, sort_order FROM categories",
        );
        push_str(&mut v, " WHERE name = ");
        push_literal(&mut v, name);
        text(v)
    }

    /// Insert a new category. The schedule line is quoted as it is.
    pub fn insert(&self, category: &Category) -> (r: String)
        ensures
            r@ == "INSERT INTO categories (id, parent_id, name, description, category_type, schedule_c_line, is_tax_deductible, is_active, sort_order) VALUES ('"@
                + uuid_text(category.id) + "', "@ + opt_uuid_literal(category.parent_id) + ", "@
                + sql_literal(category.name@) + ", "@ + opt_literal(opt_view(category.description))
                + ", '"@ + category_type_text(category.category_type) + "', "@ + opt_raw_literal(
                opt_view(category.schedule_c_line),
            ) + ", "@ + bool_text(category.is_tax_deductible) + ", "@ + bool_text(
                category.is_active,
            ) + ", "@ + int_text(category.sort_order as int) + ")"@,
    {
        let mut v = chars_of(
            "INSERT INTO categories (id, parent_id, name, description, category_type, schedule_c_line, is_tax_deductible, is_active, sort_order) VALUES ('",
        );
        push_uuid(&mut v, category.id);
        push_str(&mut v, "', ");
        push_opt_uuid_literal(&mut v, category.parent_id);
        push_str(&mut v, ", ");
        push_literal(&mut v, category.name.as_str());
        push_str(&mut v, ", ");
        push_opt_literal(&mut v, &category.description);
        push_str(&mut v, ", '");
        push_str(&mut v, category_type_to_string(&category.category_type));
        push_str(&mut v, "', ");
        push_opt_raw_literal(&mut v, &category.schedule_c_line);
        push_str(&mut v, ", ");
        push_bool(&mut v, category.is_tax_deductible);
        push_str(&mut v, ", ");
        push_bool(&mut v, category.is_active);
        push_str(&mut v, ", ");
        push_int(&mut v, category.sort_order as i64);
        push_str(&mut v, ")");
        text(v)
    }

    /// Count categories.
    pub fn count(&self) -> (r: String)
        ensures
            r@ == "SELECT COUNT(*) FROM categories"@,
    {
        "SELECT COUNT(*) FROM categories".to_owned()
    }
}

/// Statements for transactions.
pub struct TransactionRepository {}

impl TransactionRepository {
    pub fn new() -> TransactionRepository {
        TransactionRepository {  }
    }

    /// Get transactions by date range, both ends included, oldest first.
    pub fn find_by_date_range(&self, range: &DateRange) -> (r: String)
        ensures
            r@ == transaction_select() + " WHERE transaction_date >= '"@ + date_text(range.start)
                + "' AND transaction_date <= '"@ + date_text(range.end)
                + "' ORDER BY transaction_date ASC"@,
    {
        let mut v = chars_of(
            "SELECT id, account_id, category_id, import_batch_id, CAST(transaction_date AS VARCHAR), CAST(amount AS VARCHAR), description, raw_category, merchant_name, location, reference_number, transaction_hash, schedule_c_line, is_business_expense, is_tax_deductible, is_recurring, expense_type, categorized_by, confidence_score FROM transactions",
        );
        push_str(&mut v, " WHERE transaction_date >= '");
        push_all(&mut v, &date_chars(&range.start));
        push_str(&mut v, "' AND transaction_date <= '");
        push_all(&mut v, &date_chars(&range.end));
        push_str(&mut v, "' ORDER BY transaction_date ASC");
        text(v)
    }

    /// Get all transactions (no date filter), oldest first.
    pub fn find_all(&self) -> (r: String)
        ensures
            r@ == transaction_select() + " ORDER BY transaction_date ASC"@,
    {
        let mut v = chars_of(
            "SELECT id, account_id, category_id, import_batch_id, CAST(transaction_date AS VARCHAR), CAST(amount AS VARCHAR), description, raw_category, merchant_name, location, reference_number, transaction_hash, schedule_c_line, is_business_expense, is_tax_deductible, is_recurring, expense_type, categorized_by, confidence_score FROM transactions",
        );
        push_str(&mut v, " ORDER BY transaction_date ASC");
        text(v)
    }

    /// Check if a transaction hash already exists: the statement yields a
    /// row exactly when it does.
    pub fn hash_exists(&self, hash: &str) -> (r: String)
        ensures
            r@ == "SELECT 1 FROM transactions WHERE transaction_hash = "@ + sql_literal(hash@),
    {
        let mut v = chars_of("SELECT 1 FROM transactions WHERE transaction_hash = ");
        push_literal(&mut v, hash);
        text(v)
    }

    /// Whether the row read for `hash_exists` says the hash is known.
    pub fn hash_found(row: Option<i64>) -> (r: bool)
        ensures
            r == row is Some,
    {
        row.is_some()
    }

    /// Count transactions.
    pub fn count(&self) -> (r: String)
        ensures
            r@ == "SELECT COUNT(*) FROM transactions"@,
    {
        "SELECT COUNT(*) FROM transactions".to_owned()
    }

    /// Insert a new transaction.
    pub fn insert(&self, tx: &Transaction) -> (r: String)
        ensures
            r@ == "INSERT INTO transactions (id, account_id, category_id, import_batch_id, transaction_date, amount, description, raw_category, merchant_name, location, reference_number, transaction_hash, schedule_c_line, is_business_expense, is_tax_deductible, is_recurring, expense_type, categorized_by, confidence_score) VALUES ('"@
                + uuid_text(tx.id) + "', '"@ + uuid_text(tx.account_id) + "', "@ + opt_uuid_literal(
                tx.category_id,
            ) + ", "@ + opt_uuid_literal(tx.import_batch_id) + ", '"@ + date_text(
                tx.transaction_date,
            ) + "', "@ + money_text(tx.amount) + ", "@ + sql_literal(tx.description@) + ", "@
                + opt_literal(opt_view(tx.raw_category)) + ", "@ + opt_literal(
                opt_view(tx.merchant_name),
            ) + ", "@ + opt_literal(opt_view(tx.location)) + ", "@ + opt_literal(
                opt_view(tx.reference_number),
            ) + ", "@ + sql_literal(tx.transaction_hash@) + ", "@ + opt_literal(
                opt_view(tx.schedule_c_line),
            ) + ", "@ + bool_text(tx.is_business_expense) + ", "@ + bool_text(
                tx.is_tax_deductible,
            ) + ", "@ + bool_text(tx.is_recurring) + ", "@ + opt_literal(opt_view(tx.expense_type))
                + ", "@ + opt_raw_literal(
                match tx.categorized_by {
                    Some(c) => Some(categorized_by_text(c)),
                    None => None,
                },
            ) + ", "@ + opt_raw(opt_view(tx.confidence_score)) + ")"@,
    {
        let mut v = chars_of(
            "INSERT INTO transactions (id, account_id, category_id, import_batch_id, transaction_date, amount, description, raw_category, merchant_name, location, reference_number, transaction_hash, schedule_c_line, is_business_expense, is_tax_deductible, is_recurring, expense_type, categorized_by, confidence_score) VALUES ('",
        );
        push_uuid(&mut v, tx.id);
        push_str(&mut v, "', '");
        push_uuid(&mut v, tx.account_id);
        push_str(&mut v, "', ");
        push_opt_uuid_literal(&mut v, tx.category_id);
        push_str(&mut v, ", ");
        push_opt_uuid_literal(&mut v, tx.import_batch_id);
        push_str(&mut v, ", '");
        push_all(&mut v, &date_chars(&tx.transaction_date));
        push_str(&mut v, "', ");
        push_all(&mut v, &money_chars(&tx.amount));
        push_str(&mut v, ", ");
        push_literal(&mut v, tx.description.as_str());
        push_str(&mut v, ", ");
        push_opt_literal(&mut v, &tx.raw_category);
        push_str(&mut v, ", ");
        push_opt_literal(&mut v, &tx.merchant_name);
        push_str(&mut v, ", ");
        push_opt_literal(&mut v, &tx.location);
        push_str(&mut v, ", ");
        push_opt_literal(&mut v, &tx.reference_number);
        push_str(&mut v, ", ");
        push_literal(&mut v, tx.transaction_hash.as_str());
        push_str(&mut v, ", ");
        push_opt_literal(&mut v, &tx.schedule_c_line);
        push_str(&mut v, ", ");
        push_bool(&mut v, tx.is_business_expense);
        push_str(&mut v, ", ");
        push_bool(&mut v, tx.is_tax_deductible);
        push_str(&mut v, ", ");
        push_bool(&mut v, tx.is_recurring);
        push_str(&mut v, ", ");
        push_opt_literal(&mut v, &tx.expense_type);
        push_str(&mut v, ", ");
        match tx.categorized_by {
            Some(c) => {
                v.push('\'');
                push_str(&mut v, categorized_by_to_string(&c));
                v.push('\'');
            },
            None => push_str(&mut v, "NULL"),
        }
        push_str(&mut v, ", ");
        push_opt_raw(&mut v, &tx.confidence_score);
        push_str(&mut v, ")");
        text(v)
    }

    /// Get uncategorized transactions (no category assigned), most recent
    /// first, at most `limit` of them.
    pub fn find_uncategorized(&self, limit: usize) -> (r: String)
        ensures
            r@ == transaction_select()
                + " WHERE category_id IS NULL ORDER BY transaction_date DESC LIMIT "@ + nat_text(
                limit as nat,
            ),
    {
        let mut v = chars_of(
            "SELECT id, account_id, category_id, import_batch_id, CAST(transaction_date AS VARCHAR), CAST(amount AS VARCHAR), description, raw_category, merchant_name, location, reference_number, transaction_hash, schedule_c_line, is_business_expense, is_tax_deductible, is_recurring, expense_type, categorized_by, confidence_score FROM transactions",
        );
        push_str(&mut v, " WHERE category_id IS NULL ORDER BY transaction_date DESC LIMIT ");
        push_all(&mut v, &text_of(limit as u128));
        text(v)
    }

    /// Assign a category by hand. `confidence` is the decimal text of the
    /// confidence score.
    pub fn update_category(&self, transaction_id: u128, category_id: u128, confidence: &str) -> (r:
        String)
        ensures
            r@ == "UPDATE transactions SET category_id = '"@ + uuid_text(category_id)
                + "', categorized_by = 'manual', confidence_score = "@ + confidence@
                + ", updated_at = CURRENT_TIMESTAMP WHERE id = '"@ + uuid_text(transaction_id)
                + "'"@,
    {
        let mut v = chars_of("UPDATE transactions SET category_id = '");
        push_uuid(&mut v, category_id);
        push_str(&mut v, "', categorized_by = 'manual', confidence_score = ");
        push_str(&mut v, confidence);
        push_str(&mut v, ", updated_at = CURRENT_TIMESTAMP WHERE id = '");
        push_uuid(&mut v, transaction_id);
        push_str(&mut v, "'");
        text(v)
    }

    /// Assign a category with a given method. `confidence` is the decimal
    /// text of the confidence score.
    pub fn update_category_with_method(
        &self,
        transaction_id: u128,
        category_id: u128,
        confidence: &str,
        method: &str,
    ) -> (r: String)
        ensures
            r@ == "UPDATE transactions SET category_id = '"@ + uuid_text(category_id)
                + "', categorized_by = "@ + sql_literal(method@) + ", confidence_score = "@
                + confidence@ + ", updated_at = CURRENT_TIMESTAMP WHERE id = '"@ + uuid_text(
                transaction_id,
            ) + "'"@,
    {
        let mut v = chars_of("UPDATE transactions SET category_id = '");
        push_uuid(&mut v, category_id);
        push_str(&mut v, "', categorized_by = ");
        push_literal(&mut v, method);
        push_str(&mut v, ", confidence_score = ");
        push_str(&mut v, confidence);
        push_str(&mut v, ", updated_at = CURRENT_TIMESTAMP WHERE id = '");
        push_uuid(&mut v, transaction_id);
        push_str(&mut v, "'");
        text(v)
    }

    /// Count uncategorized transactions.
    pub fn count_uncategorized(&self) -> (r: String)
        ensures
            r@ == "SELECT COUNT(*) FROM transactions WHERE category_id IS NULL"@,
    {
        "SELECT COUNT(*) FROM transactions WHERE category_id IS NULL".to_owned()
    }
}

/// Statements for rules.
pub struct RuleRepository {}

impl RuleRepository {
    pub fn new() -> RuleRepository {
        RuleRepository {  }
    }

    /// Get all active rules ordered by priority.
    pub fn find_active(&self) -> (r: String)
        ensures
            r@
                == "SELECT id, target_category_id, name, description, priority, CAST(conditions AS VARCHAR), is_active, effectiveness_count FROM rules WHERE is_active = TRUE ORDER BY priority ASC"@,
    {
        "SELECT id, target_category_id, name, description, priority, CAST(conditions AS VARCHAR), is_active, effectiveness_count FROM rules WHERE is_active = TRUE ORDER BY priority ASC".to_owned()
    }

    /// Insert a new rule; `conditions_json` is the JSON text of its
    /// conditions.
    pub fn insert(&self, rule: &Rule, conditions_json: &str) -> (r: String)
        ensures
            r@ == "INSERT INTO rules (id, target_category_id, name, description, priority, conditions, is_active) VALUES ('"@
                + uuid_text(rule.id) + "', '"@ + uuid_text(rule.target_category_id) + "', "@
                + sql_literal(rule.name@) + ", "@ + opt_literal(opt_view(rule.description)) + ", "@
                + int_text(rule.priority as int) + ", "@ + sql_literal(conditions_json@) + ", "@
                + bool_text(rule.is_active) + ")"@,
    {
        let mut v = chars_of(
            "INSERT INTO rules (id, target_category_id, name, description, priority, conditions, is_active) VALUES ('",
        );
        push_uuid(&mut v, rule.id);
        push_str(&mut v, "', '");
        push_uuid(&mut v, rule.target_category_id);
        push_str(&mut v, "', ");
        push_literal(&mut v, rule.name.as_str());
        push_str(&mut v, ", ");
        push_opt_literal(&mut v, &rule.description);
        push_str(&mut v, ", ");
        push_int(&mut v, rule.priority as i64);
        push_str(&mut v, ", ");
        push_literal(&mut v, conditions_json);
        push_str(&mut v, ", ");
        push_bool(&mut v, rule.is_active);
        push_str(&mut v, ")");
        text(v)
    }

    /// Count rules.
    pub fn count(&self) -> (r: String)
        ensures
            r@ == "SELECT COUNT(*) FROM rules"@,
    {
        "SELECT COUNT(*) FROM rules".to_owned()
    }
}

/// The id a stored text reads as, when it is a UUID.
pub open spec fn uuid_of_text(s: Seq<char>) -> Option<u128> {
    match uuid_parse(s) {
        Some(v) => Some(v as u128),
        None => None,
    }
}

/// An id that may be absent: present when a text is stored and reads as
/// a UUID.
pub open spec fn opt_uuid_of_text(o: Option<String>) -> Option<u128> {
    match o {
        Some(s) => uuid_of_text(s@),
        None => None,
    }
}

fn id_or_fresh(s: &str) -> (r: u128)
    ensures
        uuid_of_text(s@) matches Some(v) ==> r == v,
{
    match parse_uuid(s) {
        Some(v) => v,
        None => new_uuid(),
    }
}

fn opt_id(s: &Option<String>) -> (r: Option<u128>)
    ensures
        r == opt_uuid_of_text(*s),
{
    match s {
        Some(t) => parse_uuid(t.as_str()),
        None => None,
    }
}

/// Convert a database row to an Account. An id that is no UUID is replaced
/// by a fresh one; an unknown account type reads as checking.
pub fn row_to_account(
    id: &str,
    name: String,
    bank: String,
    account_type: &str,
    last_four_digits: Option<String>,
    is_active: bool,
) -> (r: Account)
    ensures
        uuid_of_text(id@) matches Some(v) ==> r.id == v,
        r.name == name,
        r.bank == bank,
        r.account_type == account_type_of_text(account_type@),
        r.last_four_digits == last_four_digits,
        r.is_active == is_active,
{
    Account {
        id: id_or_fresh(id),
        name,
        bank,
        account_type: account_type_from_string(account_type),
        last_four_digits,
        is_active,
        metadata: EntityMetadata::new(),
    }
}

/// Convert a database row to a Category. An id that is no UUID is replaced
/// by a fresh one, a parent id that is no UUID is dropped, and an unknown
/// category type reads as expense.
pub fn row_to_category(
    id: &str,
    parent_id: Option<String>,
    name: String,
    description: Option<String>,
    category_type: &str,
    schedule_c_line: Option<String>,
    is_tax_deductible: bool,
    is_active: bool,
    sort_order: i32,
) -> (r: Category)
    ensures
        uuid_of_text(id@) matches Some(v) ==> r.id == v,
        r.parent_id == opt_uuid_of_text(parent_id),
        r.name == name,
        r.description == description,
        r.category_type == category_type_of_text(category_type@),
        r.schedule_c_line == schedule_c_line,
        r.is_tax_deductible == is_tax_deductible,
        r.is_active == is_active,
        r.sort_order == sort_order,
{
    Category {
        id: id_or_fresh(id),
        parent_id: opt_id(&parent_id),
        name,
        description,
        category_type: category_type_from_string(category_type),
        schedule_c_line,
        is_tax_deductible,
        is_active,
        sort_order,
        metadata: EntityMetadata::new(),
    }
}

/// The date a stored `YYYY-MM-DD` text reads as; one that does not parse
/// reads as 2000-01-01.
pub open spec fn stored_date(s: Seq<char>) -> (int, int, int) {
    match chrono_parse_date(s, "%Y-%m-%d"@) {
        Some(t) => t,
        None => (2000, 1, 1),
    }
}

/// The amount a stored decimal text reads as; one that does not parse
/// reads as zero.
pub open spec fn stored_amount(s: Seq<char>) -> (bool, nat, nat) {
    match decimal_parse(s) {
        Some(t) => t,
        None => (false, 0, 0),
    }
}

/// Convert a database row to a Transaction. Ids that are no UUIDs are
/// replaced by fresh ones (or dropped, for the optional ones); a date or
/// amount that does not parse reads as 2000-01-01 or zero; an unknown
/// categorization method reads as `Default`.
pub fn row_to_transaction(
    id: &str,
    account_id: &str,
    category_id: Option<String>,
    import_batch_id: Option<String>,
    date: &str,
    amount: &str,
    description: String,
    raw_category: Option<String>,
    merchant_name: Option<String>,
    location: Option<String>,
    reference_number: Option<String>,
    transaction_hash: String,
    schedule_c_line: Option<String>,
    is_business_expense: bool,
    is_tax_deductible: bool,
    is_recurring: bool,
    expense_type: Option<String>,
    categorized_by: Option<String>,
    confidence_score: Option<String>,
) -> (r: Transaction)
    ensures
        uuid_of_text(id@) matches Some(v) ==> r.id == v,
        uuid_of_text(account_id@) matches Some(v) ==> r.account_id == v,
        r.category_id == opt_uuid_of_text(category_id),
        r.import_batch_id == opt_uuid_of_text(import_batch_id),
        date_triple(r.transaction_date) == stored_date(date@),
        money_triple(r.amount) == stored_amount(amount@),
        r.amount.wf(),
        r.description == description,
        r.raw_category == raw_category,
        r.merchant_name == merchant_name,
        r.location == location,
        r.reference_number == reference_number,
        r.transaction_hash == transaction_hash,
        r.schedule_c_line == schedule_c_line,
        r.is_business_expense == is_business_expense,
        r.is_tax_deductible == is_tax_deductible,
        r.is_recurring == is_recurring,
        r.expense_type == expense_type,
        r.categorized_by == match categorized_by {
            Some(s) => Some(categorized_by_of_text(s@)),
            None => None,
        },
        r.confidence_score == confidence_score,
{
    let transaction_date = match parse_naive_date(date, "%Y-%m-%d") {
        Some(d) => d,
        None => Date { year: 2000, month: 1, day: 1 },
    };
    let amount = match parse_decimal(amount) {
        Some(m) => m,
        None => Money::zero(),
    };
    let method = match &categorized_by {
        Some(s) => Some(categorized_by_from_string(s.as_str())),
        None => None,
    };
    Transaction {
        id: id_or_fresh(id),
        account_id: id_or_fresh(account_id),
        category_id: opt_id(&category_id),
        import_batch_id: opt_id(&import_batch_id),
        transaction_date,
        amount,
        description,
        raw_category,
        merchant_name,
        location,
        reference_number,
        transaction_hash,
        schedule_c_line,
        is_business_expense,
        is_tax_deductible,
        is_recurring,
        expense_type,
        categorized_by: method,
        confidence_score,
        metadata: EntityMetadata::new(),
    }
}

/// Convert a database row to a Rule. `conditions` is what the stored JSON
/// read as, `None` when it did not read; then the rule has no conditions,
/// combined with AND. Ids that are no UUIDs are replaced by fresh ones.
pub fn row_to_rule(
    id: &str,
    target_category_id: &str,
    name: String,
    description: Option<String>,
    priority: i32,
    conditions: Option<RuleConditions>,
    is_active: bool,
    effectiveness_count: i32,
) -> (r: Rule)
    ensures
        uuid_of_text(id@) matches Some(v) ==> r.id == v,
        uuid_of_text(target_category_id@) matches Some(v) ==> r.target_category_id == v,
        r.name == name,
        r.description == description,
        r.priority == priority,
        match conditions {
            Some(c) => r.conditions == c,
            None => r.conditions.operator == crate::models::LogicalOperator::And
                && r.conditions.conditions@.len() == 0,
        },
        r.is_active == is_active,
        r.effectiveness_count == effectiveness_count,
{
    let conditions = match conditions {
        Some(c) => c,
        None => RuleConditions::all(Vec::new()),
    };
    Rule {
        id: id_or_fresh(id),
        target_category_id: id_or_fresh(target_category_id),
        name,
        description,
        priority,
        conditions,
        is_active,
        effectiveness_count,
    }
}

/// Some stored category has the name `n`.
pub open spec fn name_listed(stored: Seq<String>, n: Seq<char>) -> bool {
    exists|k: int| 0 <= k < stored.len() && (#[trigger] stored[k])@ == n
}

/// Rows of the default catalogue before row `n` whose names are not
/// stored, in catalogue order.
pub open spec fn missing_defaults(stored: Seq<String>, n: nat) -> Seq<int>
    decreases n,
{
    if n == 0 {
        Seq::empty()
    } else {
        let prev = missing_defaults(stored, (n - 1) as nat);
        if name_listed(stored, default_spec(n - 1).name) {
            prev
        } else {
            prev.push(n - 1)
        }
    }
}

/// `missing_defaults(stored, n)` holds each row before `n` whose name is
/// not stored, once, in increasing order, and nothing else.
pub proof fn lemma_missing_defaults(stored: Seq<String>, n: nat)
    ensures
        forall|k: int|
            0 <= k < missing_defaults(stored, n).len() ==> 0 <= #[trigger] missing_defaults(
                stored,
                n,
            )[k] < n && !name_listed(stored, default_spec(missing_defaults(stored, n)[k]).name),
        forall|k1: int, k2: int|
            0 <= k1 < k2 < missing_defaults(stored, n).len() ==> #[trigger] missing_defaults(
                stored,
                n,
            )[k1] < #[trigger] missing_defaults(stored, n)[k2],
        forall|i: int|
            0 <= i < n && !name_listed(stored, #[trigger] default_spec(i).name) ==> exists|k: int|
                0 <= k < missing_defaults(stored, n).len() && #[trigger] missing_defaults(
                    stored,
                    n,
                )[k] == i,
    decreases n,
{
    if n > 0 {
        lemma_missing_defaults(stored, (n - 1) as nat);
        let prev = missing_defaults(stored, (n - 1) as nat);
        let cur = missing_defaults(stored, n);
        assert forall|i: int|
            0 <= i < n && !name_listed(stored, #[trigger] default_spec(i).name) implies exists|k: int|
                0 <= k < cur.len() && #[trigger] cur[k] == i by {
            if i < n - 1 {
                let k = choose|k: int| 0 <= k < prev.len() && #[trigger] prev[k] == i;
                assert(cur[k] == i);
            } else {
                assert(cur[prev.len() as int] == i);
            }
        }
    }
}

/// Seeding the default categories twice adds nothing the second time: once
/// the categories that the first seeding inserted are stored beside those
/// that were there, no default category is missing.
pub proof fn lemma_defaults_seeded_once(existing: Seq<String>, inserted: Seq<String>)
    requires
        forall|k: int|
            0 <= k < missing_defaults(existing, 44).len() ==> name_listed(
                inserted,
                default_spec(#[trigger] missing_defaults(existing, 44)[k]).name,
            ),
    ensures
        missing_defaults(existing + inserted, 44).len() == 0,
{
    let both = existing + inserted;
    lemma_missing_defaults(existing, 44);
    lemma_missing_defaults(both, 44);
    if missing_defaults(both, 44).len() > 0 {
        let i = missing_defaults(both, 44)[0];
        assert(!name_listed(both, default_spec(i).name));
        if name_listed(existing, default_spec(i).name) {
            let k = choose|k: int| 0 <= k < existing.len() && (#[trigger] existing[k])@ == default_spec(i).name;
            assert(both[k] == existing[k]);
        } else {
            let k = choose|k: int| 0 <= k < missing_defaults(existing, 44).len() && #[trigger] missing_defaults(existing, 44)[k] == i;
            assert(name_listed(inserted, default_spec(i).name));
            let j = choose|j: int| 0 <= j < inserted.len() && (#[trigger] inserted[j])@ == default_spec(i).name;
            assert(both[existing.len() + j] == inserted[j]);
        }
    }
}

fn name_in(stored: &Vec<String>, name: &String) -> (r: bool)
    ensures
        r == name_listed(stored@, name@),
{
    let target = chars_of(name.as_str());
    let mut k: usize = 0;
    while k < stored.len()
        invariant
            k <= stored.len(),
            target@ == name@,
            forall|j: int| 0 <= j < k ==> (#[trigger] stored@[j])@ != name@,
        decreases stored.len() - k,
    {
        if eq_chars(&chars_of(stored[k].as_str()), &target) {
            return true;
        }
        k += 1;
    }
    false
}

impl CategoryRepository {
    /// Insert default categories: the default categories, in catalogue
    /// order, whose names are not among the names of the stored categories;
    /// those already stored are skipped.
    pub fn insert_defaults(&self, existing: &Vec<String>) -> (r: Vec<Category>)
        ensures
            r@.len() == missing_defaults(existing@, 44).len(),
            forall|k: int|
                0 <= k < r@.len() ==> built_from_row(
                    #[trigger] r@[k],
                    default_spec(missing_defaults(existing@, 44)[k]),
                ) && r@[k].parent_id is None,
    {
        let mut defaults = default_categories();
        let ghost orig = defaults@;
        let ghost names = existing@;
        let mut out: Vec<Category> = Vec::new();
        let mut i: usize = 0;
        while i < 44
            invariant
                i <= 44,
                orig.len() == 44,
                defaults@ == orig.skip(i as int),
                names == existing@,
                forall|j: int| 0 <= j < 44 ==> built_from_row(#[trigger] orig[j], default_spec(j)),
                forall|j: int| 0 <= j < 44 ==> (#[trigger] orig[j]).parent_id is None,
                out@.len() == missing_defaults(names, i as nat).len(),
                forall|k: int| 0 <= k < out@.len() ==> #[trigger] out@[k] == orig[missing_defaults(names, i as nat)[k]],
            decreases 44 - i,
        {
            proof {
                lemma_missing_defaults(names, i as nat);
            }
            let c = defaults.remove(0);
            assert(c == orig[i as int]);
            let listed = name_in(existing, &c.name);
            proof {
                assert(c.name@ == default_spec(i as int).name);
            }
            if !listed {
                out.push(c);
            }
            proof {
                assert(orig.skip(i as int).skip(1) =~= orig.skip(i as int + 1));
            }
            i += 1;
        }
        proof {
            lemma_missing_defaults(names, 44);
            let m = missing_defaults(names, 44);
            assert forall|k: int| 0 <= k < out@.len() implies built_from_row(
                #[trigger] out@[k],
                default_spec(m[k]),
            ) && out@[k].parent_id is None by {
                assert(out@[k] == orig[m[k]]);
            }
        }
        out
    }
}

} // verus!
