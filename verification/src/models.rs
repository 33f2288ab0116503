//! Domain models: accounts, transactions and their builder, categorization
//! rules, and the result of parsing an import file.

use vstd::prelude::*;
use crate::date::{Date, date_chars, date_text};
use crate::detect::FileFormat;
use crate::ids::{EntityMetadata, new_uuid, sha256_hex, sha256_text, uuid_chars, uuid_text};
use crate::money::{Money, money_chars, money_text};
use crate::text::{push_all, string_from_chars};

verus! {

/// Kind of bank account.
#[derive(Clone, Copy, Debug, PartialEq, Eq, Structural)]
pub enum AccountType {
    Checking,
    Savings,
    CreditCard,
    BusinessChecking,
    BusinessSavings,
    BusinessCredit,
}

/// A bank account that transactions are imported into.
#[derive(Debug)]
pub struct Account {
    pub id: u128,
    pub name: String,
    pub bank: String,
    pub account_type: AccountType,
    pub last_four_digits: Option<String>,
    pub is_active: bool,
    pub metadata: EntityMetadata,
}

impl Account {
    /// A new active account with a fresh id.
    pub fn new(name: &str, bank: &str, account_type: AccountType) -> (r: Account)
        ensures
            r.name@ == name@,
            r.bank@ == bank@,
            r.account_type == account_type,
            r.last_four_digits is None,
            r.is_active,
            r.metadata.created_at == r.metadata.updated_at,
    {
        Account {
            id: new_uuid(),
            name: name.to_owned(),
            bank: bank.to_owned(),
            account_type,
            last_four_digits: None,
            is_active: true,
            metadata: EntityMetadata::new(),
        }
    }

    /// Sets the last four digits of the account number.
    pub fn with_last_four(self, digits: &str) -> (r: Account)
        ensures
            r.last_four_digits matches Some(d) && d@ == digits@,
            r.id == self.id,
            r.name == self.name,
            r.bank == self.bank,
            r.account_type == self.account_type,
            r.is_active == self.is_active,
    {
        Account { last_four_digits: Some(digits.to_owned()), ..self }
    }
}

/// How a transaction got its category.
#[derive(Clone, Copy, Debug, PartialEq, Eq, Structural)]
pub enum CategorizedBy {
    Rule,
    Manual,
    Ml,
    Default,
}

/// One bank transaction.
#[derive(Debug)]
pub struct Transaction {
    pub id: u128,
    pub account_id: u128,
    pub category_id: Option<u128>,
    pub import_batch_id: Option<u128>,
    pub transaction_date: Date,
    pub amount: Money,
    pub description: String,
    pub raw_category: Option<String>,
    pub merchant_name: Option<String>,
    pub location: Option<String>,
    pub reference_number: Option<String>,
    pub transaction_hash: String,
    pub schedule_c_line: Option<String>,
    pub is_business_expense: bool,
    pub is_tax_deductible: bool,
    pub is_recurring: bool,
    pub expense_type: Option<String>,
    pub categorized_by: Option<CategorizedBy>,
    /// The stored confidence score, as the decimal text the store holds.
    pub confidence_score: Option<String>,
    pub metadata: EntityMetadata,
}

impl Transaction {
    pub open spec fn spec_is_categorized(&self) -> bool {
        self.category_id is Some
    }

    /// Whether a category has been assigned.
    pub fn is_categorized(&self) -> (r: bool)
        ensures
            r == self.spec_is_categorized(),
    {
        self.category_id.is_some()
    }
}

pub open spec fn opt_view(o: Option<String>) -> Option<Seq<char>> {
    match o {
        Some(s) => Some(s@),
        None => None,
    }
}

/// The text that identifies a transaction for deduplication: account,
/// date, amount and description, separated by `|`.
pub open spec fn dedupe_key(account_id: u128, date: Date, amount: Money, description: Seq<char>) -> Seq<char> {
    uuid_text(account_id) + seq!['|'] + date_text(date) + seq!['|'] + money_text(amount) + seq!['|']
        + description
}

/// `t` is a freshly built transaction of the given account, date, amount,
/// description and bank category: nothing else is set, and its hash is
/// the SHA-256 of its dedupe key.
pub open spec fn is_new_transaction(
    t: Transaction,
    account_id: u128,
    date: Date,
    amount: Money,
    description: Seq<char>,
    raw_category: Option<Seq<char>>,
) -> bool {
    is_imported_transaction(t, account_id, date, amount, description, raw_category, None)
}

/// The dedupe hash of an imported transaction depends on its account,
/// date, amount and description alone: two transactions that agree on
/// these carry the same hash, whatever their bank category or reference.
pub proof fn lemma_dedupe_hash_determined(
    t1: Transaction,
    t2: Transaction,
    account_id: u128,
    date: Date,
    amount: Money,
    description: Seq<char>,
    raw1: Option<Seq<char>>,
    raw2: Option<Seq<char>>,
    ref1: Option<Seq<char>>,
    ref2: Option<Seq<char>>,
)
    requires
        is_imported_transaction(t1, account_id, date, amount, description, raw1, ref1),
        is_imported_transaction(t2, account_id, date, amount, description, raw2, ref2),
    ensures
        t1.transaction_hash@ == t2.transaction_hash@,
{
}

/// `t` is a freshly built transaction as above that also carries the given
/// reference number.
pub open spec fn is_imported_transaction(
    t: Transaction,
    account_id: u128,
    date: Date,
    amount: Money,
    description: Seq<char>,
    raw_category: Option<Seq<char>>,
    reference_number: Option<Seq<char>>,
) -> bool {
    &&& t.account_id == account_id
    &&& t.transaction_date == date
    &&& t.amount == amount
    &&& t.description@ == description
    &&& opt_view(t.raw_category) == raw_category
    &&& opt_view(t.reference_number) == reference_number
    &&& t.category_id is None
    &&& t.import_batch_id is None
    &&& t.merchant_name is None
    &&& t.location is None
    &&& t.transaction_hash@ == sha256_text(dedupe_key(account_id, date, amount, description))
    &&& t.schedule_c_line is None
    &&& !t.is_business_expense
    &&& !t.is_tax_deductible
    &&& !t.is_recurring
    &&& t.expense_type is None
    &&& t.categorized_by is None
    &&& t.confidence_score is None
}

/// Collects the fields of a new transaction.
pub struct TransactionBuilder {
    pub account_id: Option<u128>,
    pub date: Option<Date>,
    pub amount: Option<Money>,
    pub description: Option<String>,
    pub raw_category: Option<String>,
}

impl TransactionBuilder {
    pub fn new() -> (r: TransactionBuilder)
        ensures
            r.account_id is None,
            r.date is None,
            r.amount is None,
            r.description is None,
            r.raw_category is None,
    {
        TransactionBuilder { account_id: None, date: None, amount: None, description: None, raw_category: None }
    }

    pub fn account_id(self, id: u128) -> (r: TransactionBuilder)
        ensures
            r == (TransactionBuilder { account_id: Some(id), ..self }),
    {
        TransactionBuilder { account_id: Some(id), ..self }
    }

    pub fn date(self, date: Date) -> (r: TransactionBuilder)
        ensures
            r == (TransactionBuilder { date: Some(date), ..self }),
    {
        TransactionBuilder { date: Some(date), ..self }
    }

    pub fn amount(self, amount: Money) -> (r: TransactionBuilder)
        ensures
            r == (TransactionBuilder { amount: Some(amount), ..self }),
    {
        TransactionBuilder { amount: Some(amount), ..self }
    }

    pub fn description(self, description: String) -> (r: TransactionBuilder)
        ensures
            r == (TransactionBuilder { description: Some(description), ..self }),
    {
        TransactionBuilder { description: Some(description), ..self }
    }

    pub fn raw_category(self, raw_category: String) -> (r: TransactionBuilder)
        ensures
            r == (TransactionBuilder { raw_category: Some(raw_category), ..self }),
    {
        TransactionBuilder { raw_category: Some(raw_category), ..self }
    }

    /// The transaction, when account, date, amount and description are set;
    /// otherwise the name of the first missing field.
    pub fn build(self) -> (r: Result<Transaction, String>)
        ensures
            match r {
                Ok(t) => {
                    &&& self.account_id is Some
                    &&& self.date is Some
                    &&& self.amount is Some
                    &&& self.description is Some
                    &&& is_new_transaction(
                        t,
                        self.account_id->0,
                        self.date->0,
                        self.amount->0,
                        self.description->0@,
                        opt_view(self.raw_category),
                    )
                },
                Err(e) => {
                    &&& self.account_id is None ==> e@ == "account_id"@
                    &&& self.account_id is Some && self.date is None ==> e@ == "transaction_date"@
                    &&& self.account_id is Some && self.date is Some && self.amount is None ==> e@
                        == "amount"@
                    &&& self.account_id is Some && self.date is Some && self.amount is Some
                        ==> self.description is None && e@ == "description"@
                },
            },
    {
        let account_id = match self.account_id {
            Some(a) => a,
            None => return Err("account_id".to_owned()),
        };
        let date = match self.date {
            Some(d) => d,
            None => return Err("transaction_date".to_owned()),
        };
        let amount = match self.amount {
            Some(a) => a,
            None => return Err("amount".to_owned()),
        };
        let description = match self.description {
            Some(d) => d,
            None => return Err("description".to_owned()),
        };
        let mut key = uuid_chars(account_id);
        key.push('|');
        push_all(&mut key, &date_chars(&date));
        key.push('|');
        push_all(&mut key, &money_chars(&amount));
        key.push('|');
        push_all(&mut key, &crate::text::chars_of(description.as_str()));
        assert(key@ =~= dedupe_key(account_id, date, amount, description@));
        let key_s = string_from_chars(key.as_slice());
        let hash = sha256_hex(key_s.as_str());
        Ok(
            Transaction {
                id: new_uuid(),
                account_id,
                category_id: None,
                import_batch_id: None,
                transaction_date: date,
                amount,
                description,
                raw_category: self.raw_category,
                merchant_name: None,
                location: None,
                reference_number: None,
                transaction_hash: hash,
                schedule_c_line: None,
                is_business_expense: false,
                is_tax_deductible: false,
                is_recurring: false,
                expense_type: None,
                categorized_by: None,
                confidence_score: None,
                metadata: EntityMetadata::new(),
            },
        )
    }
}

/// The outcome of parsing an import file: the transactions read, one
/// message per row that could not be read, and what was recognised.
#[derive(Debug)]
pub struct ParseResult {
    pub format: FileFormat,
    pub institution: Option<String>,
    pub transactions: Vec<Transaction>,
    pub errors: Vec<String>,
}

impl ParseResult {
    pub fn new(format: FileFormat) -> (r: ParseResult)
        ensures
            r.format == format,
            r.institution is None,
            r.transactions@.len() == 0,
            r.errors@.len() == 0,
    {
        ParseResult { format, institution: None, transactions: Vec::new(), errors: Vec::new() }
    }
}

/// How the conditions of a rule combine.
#[derive(Clone, Copy, Debug, PartialEq, Eq, Structural)]
pub enum LogicalOperator {
    And,
    Or,
}

/// The transaction field a condition reads.
#[derive(Clone, Copy, Debug, PartialEq, Eq, Structural)]
pub enum ConditionField {
    Description,
    MerchantName,
    Amount,
    AccountId,
    RawCategory,
}

/// The comparison a condition makes.
#[derive(Clone, Copy, Debug, PartialEq, Eq, Structural)]
pub enum RuleOperator {
    Contains,
    Equals,
    StartsWith,
    EndsWith,
    Regex,
    GreaterThan,
    LessThan,
    Between,
}

/// One condition of a rule.
#[derive(Debug)]
pub struct RuleCondition {
    pub field: ConditionField,
    pub operator: RuleOperator,
    pub value: String,
}

/// The conditions of a rule and how they combine.
#[derive(Debug)]
pub struct RuleConditions {
    pub operator: LogicalOperator,
    pub conditions: Vec<RuleCondition>,
}

impl RuleConditions {
    /// Conditions that must all hold.
    pub fn all(conditions: Vec<RuleCondition>) -> (r: RuleConditions)
        ensures
            r.operator == LogicalOperator::And,
            r.conditions@ == conditions@,
    {
        RuleConditions { operator: LogicalOperator::And, conditions }
    }

    /// Conditions of which one must hold.
    pub fn any(conditions: Vec<RuleCondition>) -> (r: RuleConditions)
        ensures
            r.operator == LogicalOperator::Or,
            r.conditions@ == conditions@,
    {
        RuleConditions { operator: LogicalOperator::Or, conditions }
    }
}

/// A categorization rule: transactions that meet its conditions go to its
/// target category.
#[derive(Debug)]
pub struct Rule {
    pub id: u128,
    pub target_category_id: u128,
    pub name: String,
    pub description: Option<String>,
    pub priority: i32,
    pub conditions: RuleConditions,
    pub is_active: bool,
    pub effectiveness_count: i32,
}

/// Collects the parts of a new rule.
pub struct RuleBuilder {
    pub name: String,
    pub target_category_id: u128,
    pub conditions: Vec<RuleCondition>,
    pub priority: i32,
}

impl RuleBuilder {
    /// A rule for a target category, with no conditions yet and priority
    /// 100.
    pub fn new(name: String, target_category_id: u128) -> (r: RuleBuilder)
        ensures
            r.name == name,
            r.target_category_id == target_category_id,
            r.conditions@.len() == 0,
            r.priority == 100,
    {
        RuleBuilder { name, target_category_id, conditions: Vec::new(), priority: 100 }
    }

    /// Adds the condition that the description contains `pattern`.
    pub fn description_contains(self, pattern: String) -> (r: RuleBuilder)
        ensures
            r.name == self.name,
            r.target_category_id == self.target_category_id,
            r.priority == self.priority,
            r.conditions@ == self.conditions@.push(
                RuleCondition {
                    field: ConditionField::Description,
                    operator: RuleOperator::Contains,
                    value: pattern,
                },
            ),
    {
        let mut conditions = self.conditions;
        conditions.push(
            RuleCondition { field: ConditionField::Description, operator: RuleOperator::Contains, value: pattern },
        );
        RuleBuilder { name: self.name, target_category_id: self.target_category_id, conditions, priority: self.priority }
    }

    /// The rule: active, never applied yet, its conditions combined with
    /// AND, with a fresh id.
    pub fn build(self) -> (r: Rule)
        ensures
            r.name == self.name,
            r.target_category_id == self.target_category_id,
            r.description is None,
            r.priority == self.priority,
            r.conditions.operator == LogicalOperator::And,
            r.conditions.conditions@ == self.conditions@,
            r.is_active,
            r.effectiveness_count == 0,
    {
        Rule {
            id: new_uuid(),
            target_category_id: self.target_category_id,
            name: self.name,
            description: None,
            priority: self.priority,
            conditions: RuleConditions::all(self.conditions),
            is_active: true,
            effectiveness_count: 0,
        }
    }
}

} // verus!
