//! The commands of the command-line tool and the decisions behind them:
//! which period to read, what to show, what to import or delete, and how
//! rules and categories are rendered.

use vstd::prelude::*;
use crate::category::{Category, CategoryType};
use crate::date::{Date, DateRange, days_in_month};
use crate::error::Error;
use crate::ids::{parse_uuid, uuid_parse};
use crate::models::{ConditionField, LogicalOperator, RuleCondition, RuleConditions, RuleOperator, Rule, Transaction};
use crate::money::nat_text;
use crate::sql::{int_text, push_int};
use crate::text::{chars_of, copy_range, eq_str, join, push_all, push_str, str_lowercase, string_from_chars, to_lowercase};

verus! {

/// Category commands.
pub struct CategoryCommand {
    pub action: CategoryAction,
}

/// What a category command does.
pub enum CategoryAction {
    /// List all categories (inactive ones too with `all`).
    List { all: bool },
    /// Create a new category.
    Create { name: String, category_type: String, schedule_c: Option<String>, parent: Option<String> },
    /// Show category rules.
    Rules { category: Option<String> },
}

/// Report commands.
pub struct ReportCommand {
    pub action: ReportAction,
}

/// How a report is written.
#[derive(Clone, Copy, Debug, PartialEq, Eq, Structural)]
pub enum OutputFormat {
    Table,
    Csv,
    Json,
}

impl Default for OutputFormat {
    /// The default format: a table.
    fn default() -> (r: OutputFormat)
        ensures
            r == OutputFormat::Table,
    {
        OutputFormat::Table
    }
}

/// Which report to produce. `output` is the file to write, if any.
#[allow(inconsistent_fields)]
pub enum ReportAction {
    Pnl { year: Option<i32>, format: OutputFormat, output: Option<String> },
    Cashflow { year: Option<i32>, format: OutputFormat, output: Option<String> },
    ScheduleC { year: i32, format: OutputFormat, output: Option<String> },
    ScheduleA { year: i32, format: OutputFormat, output: Option<String> },
    ScheduleE { year: i32, format: OutputFormat, output: Option<String> },
    TaxCompare { years: String, schedule: String },
    Summary { year: Option<i32>, format: OutputFormat, output: Option<String> },
}

/// Transaction commands.
pub struct TransactionCommand {
    pub action: TransactionAction,
}

/// What a transaction command does.
pub enum TransactionAction {
    Import { file: String, account: Option<String>, no_dedupe: bool, dry_run: bool },
    List { limit: usize, uncategorized: bool, year: Option<i32>, month: Option<u32> },
    Categorize { limit: usize },
    BulkCategorize { dry_run: bool, recategorize: bool, year: Option<i32>, month: Option<u32> },
    Search { query: String },
    Delete { id: Option<String>, account: Option<String>, dry_run: bool },
}

/// `s` cut to `max` characters for display: longer texts keep their first
/// `max - 1` characters and end in `…`.
pub open spec fn truncated(s: Seq<char>, max: nat) -> Seq<char> {
    if s.len() > max {
        s.take(max - 1) + seq!['…']
    } else {
        s
    }
}

/// Truncate a string for display to at most `max` characters.
pub fn truncate_str(s: &str, max: usize) -> (r: String)
    requires
        max > 0 || s@.len() == 0,
    ensures
        r@ == truncated(s@, max as nat),
        r@.len() <= max || s@.len() == 0,
{
    let v = chars_of(s);
    if v.len() > max {
        let mut out = copy_range(&v, 0, max - 1);
        out.push('…');
        assert(out@ =~= truncated(s@, max as nat));
        string_from_chars(out.as_slice())
    } else {
        s.to_owned()
    }
}

/// Truncate a rule's name or conditions to a column width.
pub fn truncate(s: &str, max: usize) -> (r: String)
    requires
        max > 0 || s@.len() == 0,
    ensures
        r@ == truncated(s@, max as nat),
{
    truncate_str(s, max)
}

/// How a condition's field is shown.
pub open spec fn field_text(f: ConditionField) -> Seq<char> {
    match f {
        ConditionField::Description => "description"@,
        ConditionField::MerchantName => "merchant"@,
        ConditionField::Amount => "amount"@,
        ConditionField::AccountId => "account"@,
        ConditionField::RawCategory => "raw_category"@,
    }
}

/// How a condition's comparison is shown.
pub open spec fn operator_text(o: RuleOperator) -> Seq<char> {
    match o {
        RuleOperator::Contains => "contains"@,
        RuleOperator::Equals => "="@,
        RuleOperator::StartsWith => "starts with"@,
        RuleOperator::EndsWith => "ends with"@,
        RuleOperator::Regex => "matches"@,
        RuleOperator::GreaterThan => ">"@,
        RuleOperator::LessThan => "<"@,
        RuleOperator::Between => "between"@,
    }
}

/// One condition as `field op 'value'`.
pub open spec fn condition_text(c: RuleCondition) -> Seq<char> {
    field_text(c.field) + " "@ + operator_text(c.operator) + " '"@ + c.value@ + "'"@
}

/// Conditions joined by ` AND ` or ` OR `.
pub open spec fn conditions_text(c: RuleConditions) -> Seq<char> {
    join(
        Seq::new(c.conditions@.len(), |i: int| condition_text(c.conditions@[i])),
        match c.operator {
            LogicalOperator::And => " AND "@,
            LogicalOperator::Or => " OR "@,
        },
    )
}

fn push_condition(dst: &mut Vec<char>, c: &RuleCondition)
    ensures
        final(dst)@ == old(dst)@ + condition_text(*c),
{
    let field = match c.field {
        ConditionField::Description => "description",
        ConditionField::MerchantName => "merchant",
        ConditionField::Amount => "amount",
        ConditionField::AccountId => "account",
        ConditionField::RawCategory => "raw_category",
    };
    let op = match c.operator {
        RuleOperator::Contains => "contains",
        RuleOperator::Equals => "=",
        RuleOperator::StartsWith => "starts with",
        RuleOperator::EndsWith => "ends with",
        RuleOperator::Regex => "matches",
        RuleOperator::GreaterThan => ">",
        RuleOperator::LessThan => "<",
        RuleOperator::Between => "between",
    };
    let ghost base = dst@;
    push_str(dst, field);
    push_str(dst, " ");
    push_str(dst, op);
    push_str(dst, " '");
    push_str(dst, c.value.as_str());
    push_str(dst, "'");
    assert(dst@ =~= base + condition_text(*c));
}

/// Render RuleConditions as a human-readable string.
pub fn conditions_display(conditions: &RuleConditions) -> (r: String)
    ensures
        r@ == conditions_text(*conditions),
{
    let sep = match conditions.operator {
        LogicalOperator::And => " AND ",
        LogicalOperator::Or => " OR ",
    };
    let ghost parts = Seq::new(
        conditions.conditions@.len(),
        |i: int| condition_text(conditions.conditions@[i]),
    );
    let mut out: Vec<char> = Vec::new();
    let mut i: usize = 0;
    while i < conditions.conditions.len()
        invariant
            i <= conditions.conditions@.len(),
            parts == Seq::new(
                conditions.conditions@.len(),
                |k: int| condition_text(conditions.conditions@[k]),
            ),
            sep@ == match conditions.operator {
                LogicalOperator::And => " AND "@,
                LogicalOperator::Or => " OR "@,
            },
            out@ == join(parts.take(i as int), sep@),
        decreases conditions.conditions@.len() - i,
    {
        let ghost before = out@;
        if i > 0 {
            push_str(&mut out, sep);
        }
        push_condition(&mut out, &conditions.conditions[i]);
        proof {
            let t = parts.take(i + 1);
            assert(t.drop_last() =~= parts.take(i as int));
            assert(t.last() == condition_text(conditions.conditions@[i as int]));
            if i == 0 {
                assert(before =~= Seq::<char>::empty());
                assert(out@ =~= t[0]);
            }
        }
        i += 1;
    }
    assert(parts.take(i as int) =~= parts);
    string_from_chars(out.as_slice())
}

/// The category type a name given on the command line stands for, read
/// case-insensitively.
pub open spec fn category_type_named(s: Seq<char>) -> Option<CategoryType> {
    let l = str_lowercase(s);
    if l == "income"@ {
        Some(CategoryType::Income)
    } else if l == "expense"@ {
        Some(CategoryType::Expense)
    } else if l == "personal"@ {
        Some(CategoryType::Personal)
    } else {
        None
    }
}

/// Parse a category type given on the command line; `None` for an unknown
/// one (use: income, expense, personal).
pub fn parse_category_type(s: &str) -> (r: Option<CategoryType>)
    ensures
        r == category_type_named(s@),
{
    let l = to_lowercase(s);
    let v = chars_of(l.as_str());
    if eq_str(&v, "income") {
        Some(CategoryType::Income)
    } else if eq_str(&v, "expense") {
        Some(CategoryType::Expense)
    } else if eq_str(&v, "personal") {
        Some(CategoryType::Personal)
    } else {
        None
    }
}

/// January 1 to December 31 of a year.
pub open spec fn year_span(y: i32) -> DateRange {
    DateRange { start: Date { year: y, month: 1, day: 1 }, end: Date { year: y, month: 12, day: 31 } }
}

/// The first to the last day of a month.
pub open spec fn month_span(y: i32, m: u32) -> DateRange {
    DateRange {
        start: Date { year: y, month: m, day: 1 },
        end: Date { year: y, month: m, day: days_in_month(y as int, m as int) as u32 },
    }
}

/// A year that the calendar type holds.
pub open spec fn year_in_range(y: i32) -> bool {
    -262143 <= y <= 262142
}

/// The calendar year of a report, or the error for a year with no dates.
pub fn report_range(year: i32) -> (r: Result<DateRange, Error>)
    ensures
        match r {
            Ok(range) => range == year_span(year) && year_in_range(year),
            Err(Error::InvalidInput(m)) => m@ == "Invalid year: "@ + int_text(year as int)
                && !year_in_range(year),
            Err(_) => false,
        },
{
    match DateRange::year(year) {
        Some(range) => Ok(range),
        None => {
            let mut v = chars_of("Invalid year: ");
            push_int(&mut v, year as i64);
            Err(Error::InvalidInput(string_from_chars(v.as_slice())))
        },
    }
}

/// The period a listing reads: a month when a year and a month are given,
/// a year when only a year is, everything (`None`) otherwise; an error for
/// a period with no dates.
pub fn list_range(year: Option<i32>, month: Option<u32>) -> (r: Result<Option<DateRange>, Error>)
    ensures
        match (year, month) {
            (Some(y), Some(m)) => if year_in_range(y) && 1 <= m <= 12 {
                r == Ok::<Option<DateRange>, Error>(Some(month_span(y, m)))
            } else {
                r matches Err(Error::InvalidInput(msg)) && msg@ == "Invalid year/month: "@ + int_text(
                    y as int,
                ) + "/"@ + nat_text(m as nat)
            },
            (Some(y), None) => if year_in_range(y) {
                r == Ok::<Option<DateRange>, Error>(Some(year_span(y)))
            } else {
                r matches Err(Error::InvalidInput(msg)) && msg@ == "Invalid year: "@ + int_text(
                    y as int,
                )
            },
            _ => r == Ok::<Option<DateRange>, Error>(None),
        },
{
    match (year, month) {
        (Some(y), Some(m)) => match DateRange::month(y, m) {
            Some(range) => Ok(Some(range)),
            None => {
                let mut v = chars_of("Invalid year/month: ");
                push_int(&mut v, y as i64);
                push_str(&mut v, "/");
                push_all(&mut v, &crate::money::text_of(m as u128));
                Err(Error::InvalidInput(string_from_chars(v.as_slice())))
            },
        },
        (Some(y), None) => match DateRange::year(y) {
            Some(range) => Ok(Some(range)),
            None => {
                let mut v = chars_of("Invalid year: ");
                push_int(&mut v, y as i64);
                Err(Error::InvalidInput(string_from_chars(v.as_slice())))
            },
        },
        _ => Ok(None),
    }
}

/// Indices of the transactions a listing shows: those that pass the
/// uncategorized filter, in order, at most `limit` of them; and how many
/// passed the filter.
pub open spec fn listed(txs: Seq<Transaction>, uncategorized_only: bool, n: nat) -> Seq<int>
    decreases n,
{
    if n == 0 {
        Seq::empty()
    } else {
        let prev = listed(txs, uncategorized_only, (n - 1) as nat);
        if !uncategorized_only || txs[n - 1].category_id is None {
            prev.push(n - 1)
        } else {
            prev
        }
    }
}

proof fn lemma_listed_len(txs: Seq<Transaction>, u: bool, n: nat)
    ensures
        listed(txs, u, n).len() <= n,
    decreases n,
{
    if n > 0 {
        lemma_listed_len(txs, u, (n - 1) as nat);
    }
}

/// The transactions a listing shows (indices into `txs`) and the number
/// that passed the filter.
pub fn select_for_list(txs: &Vec<Transaction>, uncategorized_only: bool, limit: usize) -> (r: (Vec<usize>, usize))
    ensures
        r.1 == listed(txs@, uncategorized_only, txs@.len()).len(),
        r.0@.len() == if r.1 <= limit { r.1 as int } else { limit as int },
        forall|k: int| 0 <= k < r.0@.len() ==> r.0@[k] == #[trigger] listed(txs@, uncategorized_only, txs@.len())[k],
{
    let ghost all = listed(txs@, uncategorized_only, txs@.len());
    let mut shown: Vec<usize> = Vec::new();
    let mut total: usize = 0;
    let mut i: usize = 0;
    while i < txs.len()
        invariant
            i <= txs.len(),
            all == listed(txs@, uncategorized_only, txs@.len()),
            total == listed(txs@, uncategorized_only, i as nat).len(),
            total <= i,
            shown@.len() == if total <= limit { total as int } else { limit as int },
            forall|k: int| 0 <= k < shown@.len() ==> shown@[k] == #[trigger] listed(txs@, uncategorized_only, i as nat)[k],
        decreases txs.len() - i,
    {
        proof {
            lemma_listed_len(txs@, uncategorized_only, i as nat);
        }
        if !uncategorized_only || txs[i].category_id.is_none() {
            if total < limit {
                shown.push(i);
            }
            total = total + 1;
        }
        i += 1;
    }
    proof {
        assert forall|k: int| 0 <= k < shown@.len() implies shown@[k] == #[trigger] all[k] by {
            lemma_listed_prefix(txs@, uncategorized_only, i as nat, txs@.len());
        }
    }
    (shown, total)
}

proof fn lemma_listed_prefix(txs: Seq<Transaction>, u: bool, m: nat, n: nat)
    requires
        m <= n,
    ensures
        listed(txs, u, m).len() <= listed(txs, u, n).len(),
        forall|k: int| 0 <= k < listed(txs, u, m).len() ==> #[trigger] listed(txs, u, n)[k] == listed(txs, u, m)[k],
    decreases n,
{
    if n > m {
        lemma_listed_prefix(txs, u, m, (n - 1) as nat);
    }
}

/// The line under a listing.
pub open spec fn list_footer_text(shown: nat, total: nat, limit: nat) -> Seq<char> {
    if total > limit {
        "Showing "@ + nat_text(shown) + " of "@ + nat_text(total)
            + " transactions (use --limit to see more)"@
    } else {
        "Total: "@ + nat_text(total) + " transactions"@
    }
}

/// The line under a listing.
pub fn list_footer(shown: usize, total: usize, limit: usize) -> (r: String)
    ensures
        r@ == list_footer_text(shown as nat, total as nat, limit as nat),
{
    let mut v: Vec<char>;
    if total > limit {
        v = chars_of("Showing ");
        push_all(&mut v, &crate::money::text_of(shown as u128));
        push_str(&mut v, " of ");
        push_all(&mut v, &crate::money::text_of(total as u128));
        push_str(&mut v, " transactions (use --limit to see more)");
    } else {
        v = chars_of("Total: ");
        push_all(&mut v, &crate::money::text_of(total as u128));
        push_str(&mut v, " transactions");
    }
    string_from_chars(v.as_slice())
}

/// What a delete command removes.
pub enum DeleteTarget {
    /// One transaction, by id.
    Transaction(u128),
    /// All transactions of the account with this name.
    Account(String),
}

/// Checks a delete command: exactly one of an id and an account name, and
/// an id that is a UUID.
pub fn delete_target(id: Option<String>, account: Option<String>) -> (r: Result<DeleteTarget, Error>)
    ensures
        match (id, account) {
            (None, None) => r matches Err(Error::InvalidInput(m)) && m@
                == "Must provide either --id <ID> or --account <NAME>"@,
            (Some(_), Some(_)) => r matches Err(Error::InvalidInput(m)) && m@
                == "Cannot use both --id and --account"@,
            (Some(s), None) => match uuid_parse(s@) {
                Some(v) => r matches Ok(DeleteTarget::Transaction(t)) && t == v,
                None => r matches Err(Error::InvalidInput(m)) && m@ == "Invalid UUID: "@ + s@,
            },
            (None, Some(a)) => r matches Ok(DeleteTarget::Account(n)) && n == a,
        },
{
    match (id, account) {
        (None, None) => Err(
            Error::InvalidInput("Must provide either --id <ID> or --account <NAME>".to_owned()),
        ),
        (Some(_), Some(_)) => Err(Error::InvalidInput("Cannot use both --id and --account".to_owned())),
        (Some(s), None) => match parse_uuid(s.as_str()) {
            Some(v) => Ok(DeleteTarget::Transaction(v)),
            None => {
                let mut m = chars_of("Invalid UUID: ");
                push_str(&mut m, s.as_str());
                Err(Error::InvalidInput(string_from_chars(m.as_slice())))
            },
        },
        (None, Some(a)) => Ok(DeleteTarget::Account(a)),
    }
}

/// Counts kept while importing: transactions stored and duplicates
/// skipped.
pub struct ImportTally {
    pub imported: usize,
    pub skipped_dupes: usize,
}

impl ImportTally {
    pub fn new() -> (r: ImportTally)
        ensures
            r.imported == 0,
            r.skipped_dupes == 0,
    {
        ImportTally { imported: 0, skipped_dupes: 0 }
    }

    /// Decides one parsed transaction: it is stored unless deduplication is
    /// on and its hash is already known, in which case it is counted as a
    /// duplicate. Returns whether to store it.
    pub fn record(&mut self, no_dedupe: bool, hash_known: bool) -> (insert: bool)
        requires
            old(self).imported + old(self).skipped_dupes < usize::MAX,
        ensures
            insert == (no_dedupe || !hash_known),
            insert ==> final(self).imported == old(self).imported + 1
                && final(self).skipped_dupes == old(self).skipped_dupes,
            !insert ==> final(self).skipped_dupes == old(self).skipped_dupes + 1
                && final(self).imported == old(self).imported,
    {
        if !no_dedupe && hash_known {
            self.skipped_dupes = self.skipped_dupes + 1;
            false
        } else {
            self.imported = self.imported + 1;
            true
        }
    }
}

/// The text that names the account an import needs when none was given.
pub fn missing_account_error() -> (r: Error)
    ensures
        r matches Error::InvalidInput(m) && m@
            == "--account is required. Specify an account name, e.g. --account \"Chase Checking\". Run `finance category list` to see existing categories, or provide any name to auto-create."@,
{
    Error::InvalidInput(
        "--account is required. Specify an account name, e.g. --account \"Chase Checking\". Run `finance category list` to see existing categories, or provide any name to auto-create.".to_owned(),
    )
}

/// Which transactions a bulk categorization reads.
pub enum BulkFetch {
    /// Every transaction.
    All,
    /// Every uncategorized transaction.
    Uncategorized,
    /// The transactions of a period, only the uncategorized ones when
    /// `uncategorized_only`.
    Period { range: DateRange, uncategorized_only: bool },
}

/// Which transactions a bulk categorization reads: with `recategorize`
/// those of the period (or all), otherwise only uncategorized ones.
pub fn bulk_fetch(recategorize: bool, year: Option<i32>, month: Option<u32>) -> (r: Result<BulkFetch, Error>)
    ensures
        match (year, month) {
            (Some(y), Some(m)) => if year_in_range(y) && 1 <= m <= 12 {
                r matches Ok(BulkFetch::Period { range, uncategorized_only }) && range == month_span(y, m)
                    && uncategorized_only == !recategorize
            } else {
                r matches Err(Error::InvalidInput(msg)) && msg@ == "Invalid year/month: "@ + int_text(
                    y as int,
                ) + "/"@ + nat_text(m as nat)
            },
            (Some(y), None) => if year_in_range(y) {
                r matches Ok(BulkFetch::Period { range, uncategorized_only }) && range == year_span(y)
                    && uncategorized_only == !recategorize
            } else {
                r matches Err(Error::InvalidInput(msg)) && msg@ == "Invalid year: "@ + int_text(
                    y as int,
                )
            },
            _ => if recategorize {
                r matches Ok(BulkFetch::All)
            } else {
                r matches Ok(BulkFetch::Uncategorized)
            },
        },
{
    match list_range(year, month) {
        Ok(Some(range)) => Ok(BulkFetch::Period { range, uncategorized_only: !recategorize }),
        Ok(None) => if recategorize {
            Ok(BulkFetch::All)
        } else {
            Ok(BulkFetch::Uncategorized)
        },
        Err(e) => Err(e),
    }
}

/// Index of the first transaction with id `id` among the first `n`.
pub open spec fn first_tx_with_id(txs: Seq<Transaction>, id: u128, n: nat) -> Option<int>
    decreases n,
{
    if n == 0 {
        None
    } else {
        match first_tx_with_id(txs, id, (n - 1) as nat) {
            Some(j) => Some(j),
            None => if txs[n - 1].id == id {
                Some(n - 1)
            } else {
                None
            },
        }
    }
}

proof fn lemma_first_tx_stable(txs: Seq<Transaction>, id: u128, a: nat, b: nat)
    requires
        a <= b,
        first_tx_with_id(txs, id, a) is Some,
    ensures
        first_tx_with_id(txs, id, b) == first_tx_with_id(txs, id, a),
    decreases b,
{
    if b > a {
        lemma_first_tx_stable(txs, id, a, (b - 1) as nat);
    }
}

fn find_transaction(txs: &Vec<Transaction>, id: u128) -> (r: Option<usize>)
    ensures
        match r {
            Some(j) => first_tx_with_id(txs@, id, txs@.len()) == Some(j as int) && j < txs@.len(),
            None => first_tx_with_id(txs@, id, txs@.len()) is None,
        },
{
    let mut j: usize = 0;
    while j < txs.len()
        invariant
            j <= txs.len(),
            first_tx_with_id(txs@, id, j as nat) is None,
        decreases txs.len() - j,
    {
        if txs[j].id == id {
            proof {
                lemma_first_tx_stable(txs@, id, (j + 1) as nat, txs@.len());
            }
            return Some(j);
        }
        j += 1;
    }
    None
}

/// What a bulk categorization does with the rule results: how many found
/// a category, how many found none, and the (transaction, category)
/// assignments that change something, in result order.
pub open spec fn bulk_fold(results: Seq<(u128, Option<u128>)>, txs: Seq<Transaction>, n: nat) -> (nat, nat, Seq<(u128, u128)>)
    decreases n,
{
    if n == 0 {
        (0, 0, Seq::empty())
    } else {
        let (matched, no_match, changes) = bulk_fold(results, txs, (n - 1) as nat);
        let (tx_id, cat) = results[n - 1];
        match cat {
            None => (matched, no_match + 1, changes),
            Some(c) => match first_tx_with_id(txs, tx_id, txs.len()) {
                Some(j) => if txs[j].category_id == Some(c) {
                    (matched + 1, no_match, changes)
                } else {
                    (matched + 1, no_match, changes.push((tx_id, c)))
                },
                None => (matched + 1, no_match, changes),
            },
        }
    }
}

proof fn lemma_bulk_fold_bound(results: Seq<(u128, Option<u128>)>, txs: Seq<Transaction>, n: nat)
    ensures
        bulk_fold(results, txs, n).0 + bulk_fold(results, txs, n).1 == n,
        bulk_fold(results, txs, n).2.len() <= n,
    decreases n,
{
    if n > 0 {
        lemma_bulk_fold_bound(results, txs, (n - 1) as nat);
    }
}

/// The outcome of a bulk categorization.
pub struct BulkOutcome {
    pub matched: usize,
    pub no_match: usize,
    /// The assignments to make: transaction id and category id.
    pub changes: Vec<(u128, u128)>,
}

/// Tallies the rule results of a bulk categorization (one per transaction:
/// its id and the category a rule chose, if any) against the transactions
/// as they are: an assignment is made only where it changes the category.
pub fn bulk_outcome(results: &Vec<(u128, Option<u128>)>, txs: &Vec<Transaction>) -> (r: BulkOutcome)
    ensures
        r.matched == bulk_fold(results@, txs@, results@.len()).0,
        r.no_match == bulk_fold(results@, txs@, results@.len()).1,
        r.changes@ == bulk_fold(results@, txs@, results@.len()).2,
{
    let mut matched: usize = 0;
    let mut no_match: usize = 0;
    let mut changes: Vec<(u128, u128)> = Vec::new();
    let mut i: usize = 0;
    while i < results.len()
        invariant
            i <= results.len(),
            matched == bulk_fold(results@, txs@, i as nat).0,
            no_match == bulk_fold(results@, txs@, i as nat).1,
            changes@ == bulk_fold(results@, txs@, i as nat).2,
        decreases results.len() - i,
    {
        proof {
            lemma_bulk_fold_bound(results@, txs@, i as nat);
        }
        let (tx_id, cat) = results[i];
        match cat {
            None => {
                no_match = no_match + 1;
            },
            Some(c) => {
                matched = matched + 1;
                match find_transaction(txs, tx_id) {
                    Some(j) => {
                        if txs[j].category_id != Some(c) {
                            changes.push((tx_id, c));
                        }
                    },
                    None => {},
                }
            },
        }
        i += 1;
    }
    BulkOutcome { matched, no_match, changes }
}

/// Indices of the categories of one type, in order.
pub open spec fn of_type(cats: Seq<Category>, t: CategoryType, n: nat) -> Seq<int>
    decreases n,
{
    if n == 0 {
        Seq::empty()
    } else if cats[n - 1].category_type == t {
        of_type(cats, t, (n - 1) as nat).push(n - 1)
    } else {
        of_type(cats, t, (n - 1) as nat)
    }
}

proof fn lemma_of_type_len(cats: Seq<Category>, t: CategoryType, n: nat)
    ensures
        of_type(cats, t, n).len() <= n,
    decreases n,
{
    if n > 0 {
        lemma_of_type_len(cats, t, (n - 1) as nat);
    }
}

fn indices_of_type(cats: &Vec<Category>, t: CategoryType, out: &mut Vec<usize>)
    ensures
        final(out)@.len() == old(out)@.len() + of_type(cats@, t, cats@.len()).len(),
        forall|k: int| 0 <= k < old(out)@.len() ==> final(out)@[k] == old(out)@[k],
        forall|k: int|
            0 <= k < of_type(cats@, t, cats@.len()).len() ==> final(out)@[old(out)@.len() + k]
                == #[trigger] of_type(cats@, t, cats@.len())[k],
{
    let ghost base = out@;
    let mut i: usize = 0;
    while i < cats.len()
        invariant
            i <= cats.len(),
            out@ == base + Seq::new(of_type(cats@, t, i as nat).len(), |k: int| of_type(cats@, t, i as nat)[k] as usize),
        decreases cats.len() - i,
    {
        proof {
            lemma_of_type_len(cats@, t, i as nat);
        }
        if cats[i].category_type == t {
            out.push(i);
            proof {
                let prev = of_type(cats@, t, i as nat);
                let next = of_type(cats@, t, (i + 1) as nat);
                assert(next == prev.push(i as int));
                assert(out@ =~= base + Seq::new(next.len(), |k: int| next[k] as usize));
            }
        } else {
            proof {
                assert(of_type(cats@, t, (i + 1) as nat) == of_type(cats@, t, i as nat));
            }
        }
        i += 1;
    }
    proof {
        lemma_of_type_len(cats@, t, cats@.len());
        let all = of_type(cats@, t, cats@.len());
        assert forall|k: int| 0 <= k < all.len() implies out@[base.len() + k] == #[trigger] all[k] by {
            lemma_of_type_bounds(cats@, t, cats@.len());
        }
    }
}

proof fn lemma_of_type_bounds(cats: Seq<Category>, t: CategoryType, n: nat)
    ensures
        forall|k: int| 0 <= k < of_type(cats, t, n).len() ==> 0 <= #[trigger] of_type(cats, t, n)[k] < n,
    decreases n,
{
    if n > 0 {
        lemma_of_type_bounds(cats, t, (n - 1) as nat);
        let prev = of_type(cats, t, (n - 1) as nat);
        assert forall|k: int| 0 <= k < of_type(cats, t, n).len() implies 0 <= #[trigger] of_type(cats, t, n)[k] < n by {
            if k < prev.len() {
                assert(of_type(cats, t, n)[k] == prev[k]);
            }
        }
    }
}

/// Categories in menu order: income, then expense, then personal, each
/// group in the order given.
pub open spec fn menu_order(cats: Seq<Category>) -> Seq<int> {
    of_type(cats, CategoryType::Income, cats.len()) + of_type(cats, CategoryType::Expense, cats.len())
        + of_type(cats, CategoryType::Personal, cats.len())
}

/// The categories (as indices) in the order a menu offers them.
pub fn order_by_type(cats: &Vec<Category>) -> (r: Vec<usize>)
    ensures
        r@.len() == menu_order(cats@).len(),
        forall|k: int| 0 <= k < r@.len() ==> r@[k] == #[trigger] menu_order(cats@)[k],
{
    let mut out: Vec<usize> = Vec::new();
    indices_of_type(cats, CategoryType::Income, &mut out);
    let ghost a = out@;
    indices_of_type(cats, CategoryType::Expense, &mut out);
    let ghost b = out@;
    indices_of_type(cats, CategoryType::Personal, &mut out);
    proof {
        let i1 = of_type(cats@, CategoryType::Income, cats@.len());
        let i2 = of_type(cats@, CategoryType::Expense, cats@.len());
        let i3 = of_type(cats@, CategoryType::Personal, cats@.len());
        assert forall|k: int| 0 <= k < out@.len() implies out@[k] == #[trigger] menu_order(cats@)[k] by {
            if k < i1.len() {
                assert(out@[k] == b[k]);
                assert(b[k] == a[k]);
            } else if k < i1.len() + i2.len() {
                assert(out@[k] == b[k]);
                assert(b[a.len() + (k - a.len())] == i2[k - a.len()]);
            } else {
                assert(out@[b.len() + (k - b.len())] == i3[k - b.len()]);
            }
        }
    }
    out
}

/// How a category is offered in a menu: its name, with its schedule line
/// in brackets when it has one.
pub open spec fn option_label_text(c: Category) -> Seq<char> {
    match c.schedule_c_line {
        Some(l) => c.name@ + " ("@ + l@ + ")"@,
        None => c.name@,
    }
}

/// How a category is offered in a menu.
pub fn option_label(c: &Category) -> (r: String)
    ensures
        r@ == option_label_text(*c),
{
    match &c.schedule_c_line {
        Some(l) => {
            let mut v = chars_of(c.name.as_str());
            push_str(&mut v, " (");
            push_str(&mut v, l.as_str());
            push_str(&mut v, ")");
            string_from_chars(v.as_slice())
        },
        None => c.name.clone(),
    }
}

/// Indices of the rules that target category `id`, in order.
pub open spec fn rules_for(rules: Seq<Rule>, id: u128, n: nat) -> Seq<int>
    decreases n,
{
    if n == 0 {
        Seq::empty()
    } else if rules[n - 1].target_category_id == id {
        rules_for(rules, id, (n - 1) as nat).push(n - 1)
    } else {
        rules_for(rules, id, (n - 1) as nat)
    }
}

/// The rules (as indices) that target a category.
pub fn rules_for_category(rules: &Vec<Rule>, id: u128) -> (r: Vec<usize>)
    ensures
        r@.len() == rules_for(rules@, id, rules@.len()).len(),
        forall|k: int| 0 <= k < r@.len() ==> r@[k] == #[trigger] rules_for(rules@, id, rules@.len())[k],
{
    let mut out: Vec<usize> = Vec::new();
    let mut i: usize = 0;
    while i < rules.len()
        invariant
            i <= rules.len(),
            out@.len() == rules_for(rules@, id, i as nat).len(),
            forall|k: int| 0 <= k < out@.len() ==> out@[k] == #[trigger] rules_for(rules@, id, i as nat)[k],
        decreases rules.len() - i,
    {
        if rules[i].target_category_id == id {
            out.push(i);
        }
        i += 1;
    }
    out
}

/// The line under a rule listing: `1 rule`, `2 rules`, ...
pub open spec fn rules_footer_text(n: nat) -> Seq<char> {
    nat_text(n) + if n == 1 {
        " rule"@
    } else {
        " rules"@
    }
}

/// The line under a rule listing.
pub fn rules_footer(n: usize) -> (r: String)
    ensures
        r@ == rules_footer_text(n as nat),
{
    let mut v = crate::money::text_of(n as u128);
    if n == 1 {
        push_str(&mut v, " rule");
    } else {
        push_str(&mut v, " rules");
    }
    string_from_chars(v.as_slice())
}

/// Lexicographic order of texts, character by character (the order of
/// `String`, whose UTF-8 bytes order as the characters do).
pub open spec fn text_lt(a: Seq<char>, b: Seq<char>) -> bool
    decreases a.len(),
{
    if a.len() == 0 {
        b.len() > 0
    } else if b.len() == 0 {
        false
    } else if a[0] != b[0] {
        a[0] < b[0]
    } else {
        text_lt(a.skip(1), b.skip(1))
    }
}

proof fn lemma_text_lt_trans(a: Seq<char>, b: Seq<char>, c: Seq<char>)
    requires
        text_lt(a, b),
        text_lt(b, c),
    ensures
        text_lt(a, c),
    decreases a.len(),
{
    if a.len() > 0 && b.len() > 0 && c.len() > 0 && a[0] == b[0] && b[0] == c[0] {
        lemma_text_lt_trans(a.skip(1), b.skip(1), c.skip(1));
    }
}

proof fn lemma_text_lt_total(a: Seq<char>, b: Seq<char>)
    ensures
        !text_lt(a, a),
        a != b ==> text_lt(a, b) || text_lt(b, a),
        !(text_lt(a, b) && text_lt(b, a)),
    decreases a.len(),
{
    if a.len() > 0 {
        lemma_text_lt_total(a.skip(1), a.skip(1));
    }
    if a.len() > 0 && b.len() > 0 {
        lemma_text_lt_total(a.skip(1), b.skip(1));
        if a[0] == b[0] {
            if a != b {
                assert(a.skip(1) != b.skip(1)) by {
                    if a.skip(1) == b.skip(1) {
                        assert(a =~= seq![a[0]] + a.skip(1));
                        assert(b =~= seq![b[0]] + b.skip(1));
                    }
                }
            }
        } else {
        }
    } else if a.len() == 0 && b.len() == 0 {
        assert(a =~= b);
    }
}

fn text_less(a: &Vec<char>, b: &Vec<char>) -> (r: bool)
    ensures
        r == text_lt(a@, b@),
{
    let mut i: usize = 0;
    assert(a@.skip(0) =~= a@);
    assert(b@.skip(0) =~= b@);
    while i < a.len() && i < b.len() && a[i] == b[i]
        invariant
            i <= a.len(),
            i <= b.len(),
            text_lt(a@, b@) == text_lt(a@.skip(i as int), b@.skip(i as int)),
        decreases a.len() - i,
    {
        assert(a@.skip(i as int).skip(1) =~= a@.skip(i + 1));
        assert(b@.skip(i as int).skip(1) =~= b@.skip(i + 1));
        i += 1;
    }
    if i == a.len() {
        i < b.len()
    } else if i == b.len() {
        false
    } else {
        a[i] < b[i]
    }
}

/// The display order of categories under one parent: by sort order, then
/// name; equal ones keep their order.
pub open spec fn shown_before(cats: Seq<Category>, a: int, b: int) -> bool {
    ||| cats[a].sort_order < cats[b].sort_order
    ||| cats[a].sort_order == cats[b].sort_order && text_lt(cats[a].name@, cats[b].name@)
    ||| cats[a].sort_order == cats[b].sort_order && cats[a].name@ == cats[b].name@ && a < b
}

proof fn lemma_shown_before_order(cats: Seq<Category>, a: int, b: int, c: int)
    ensures
        shown_before(cats, a, b) && shown_before(cats, b, c) ==> shown_before(cats, a, c),
        a != b ==> shown_before(cats, a, b) || shown_before(cats, b, a),
        !shown_before(cats, a, a),
{
    lemma_text_lt_total(cats[a].name@, cats[b].name@);
    lemma_text_lt_total(cats[b].name@, cats[c].name@);
    lemma_text_lt_total(cats[a].name@, cats[c].name@);
    if text_lt(cats[a].name@, cats[b].name@) && text_lt(cats[b].name@, cats[c].name@) {
        lemma_text_lt_trans(cats[a].name@, cats[b].name@, cats[c].name@);
    }
}

/// Indices of the categories whose parent is `pid`, in order.
pub open spec fn children_in(cats: Seq<Category>, pid: u128, n: nat) -> Seq<int>
    decreases n,
{
    if n == 0 {
        Seq::empty()
    } else if cats[n - 1].parent_id == Some(pid) {
        children_in(cats, pid, (n - 1) as nat).push(n - 1)
    } else {
        children_in(cats, pid, (n - 1) as nat)
    }
}

fn shown_less(cats: &Vec<Category>, a: usize, b: usize) -> (r: bool)
    requires
        a < cats@.len(),
        b < cats@.len(),
    ensures
        r == shown_before(cats@, a as int, b as int),
{
    let ca = &cats[a];
    let cb = &cats[b];
    if ca.sort_order != cb.sort_order {
        return ca.sort_order < cb.sort_order;
    }
    let na = chars_of(ca.name.as_str());
    let nb = chars_of(cb.name.as_str());
    if text_less(&na, &nb) {
        return true;
    }
    if crate::text::eq_chars(&na, &nb) {
        return a < b;
    }
    false
}

/// The children of category `pid` (as indices) in display order: by sort
/// order, then name, equal ones in the order given. The result holds each
/// child once and nothing else.
pub fn children_sorted(cats: &Vec<Category>, pid: u128) -> (r: Vec<usize>)
    ensures
        r@.len() == children_in(cats@, pid, cats@.len()).len(),
        forall|k: int| 0 <= k < r@.len() ==> r@[k] < cats@.len() && cats@[r@[k] as int].parent_id == Some(pid),
        forall|j: int| 0 <= j < cats@.len() && cats@[j].parent_id == Some(pid) ==> exists|k: int|
            0 <= k < r@.len() && r@[k] == j,
        forall|k1: int, k2: int|
            0 <= k1 < k2 < r@.len() ==> shown_before(cats@, r@[k1] as int, r@[k2] as int),
{
    let mut out: Vec<usize> = Vec::new();
    let mut i: usize = 0;
    while i < cats.len()
        invariant
            i <= cats.len(),
            out@.len() == children_in(cats@, pid, i as nat).len(),
            forall|k: int| 0 <= k < out@.len() ==> out@[k] < i && cats@[out@[k] as int].parent_id == Some(pid),
            forall|j: int| 0 <= j < i && cats@[j].parent_id == Some(pid) ==> exists|k: int|
                0 <= k < out@.len() && out@[k] == j,
            forall|k1: int, k2: int|
                0 <= k1 < k2 < out@.len() ==> shown_before(cats@, out@[k1] as int, out@[k2] as int),
        decreases cats.len() - i,
    {
        if cats[i].parent_id == Some(pid) {
            let mut j: usize = out.len();
            while j > 0 && shown_less(cats, i, out[j - 1])
                invariant
                    0 <= j <= out@.len(),
                    i < cats@.len(),
                    forall|k: int| 0 <= k < out@.len() ==> out@[k] < i,
                    forall|k: int| j <= k < out@.len() ==> shown_before(cats@, i as int, out@[k] as int),
                decreases j,
            {
                j -= 1;
            }
            let ghost before = out@;
            proof {
                assert forall|k: int| 0 <= k < j implies shown_before(cats@, before[k] as int, i as int) by {
                    let last = before[j - 1] as int;
                    lemma_shown_before_order(cats@, i as int, last, i as int);
                    if k < j - 1 {
                        lemma_shown_before_order(cats@, before[k] as int, last, i as int);
                    }
                }
            }
            out.insert(j, i);
            proof {
                assert forall|k1: int, k2: int|
                    0 <= k1 < k2 < out@.len() implies shown_before(cats@, out@[k1] as int, out@[k2] as int) by {
                    if k1 < j && k2 > j {
                        assert(out@[k2] == before[k2 - 1]);
                        lemma_shown_before_order(cats@, before[k1] as int, i as int, before[k2 - 1] as int);
                    } else if k1 < j && k2 < j {
                        assert(out@[k1] == before[k1] && out@[k2] == before[k2]);
                    } else if k1 > j {
                        assert(out@[k1] == before[k1 - 1] && out@[k2] == before[k2 - 1]);
                    }
                }
                assert forall|jj: int| 0 <= jj < i + 1 && cats@[jj].parent_id == Some(pid) implies exists|k: int|
                    0 <= k < out@.len() && out@[k] == jj by {
                    if jj == i {
                        assert(out@[j as int] == i);
                    } else {
                        let k = choose|k: int| 0 <= k < before.len() && before[k] == jj;
                        if k < j {
                            assert(out@[k] == jj);
                        } else {
                            assert(out@[k + 1] == jj);
                        }
                    }
                }
            }
        }
        i += 1;
    }
    out
}

/// The top-level categories of one type (as indices), in order.
pub open spec fn roots_in(cats: Seq<Category>, t: CategoryType, n: nat) -> Seq<int>
    decreases n,
{
    if n == 0 {
        Seq::empty()
    } else if cats[n - 1].category_type == t && cats[n - 1].parent_id is None {
        roots_in(cats, t, (n - 1) as nat).push(n - 1)
    } else {
        roots_in(cats, t, (n - 1) as nat)
    }
}

/// The top-level categories of one type (as indices), in order; a listing
/// shows each with its children under it.
pub fn roots_of_type(cats: &Vec<Category>, t: CategoryType) -> (r: Vec<usize>)
    ensures
        r@.len() == roots_in(cats@, t, cats@.len()).len(),
        forall|k: int| 0 <= k < r@.len() ==> r@[k] == #[trigger] roots_in(cats@, t, cats@.len())[k],
{
    let mut out: Vec<usize> = Vec::new();
    let mut i: usize = 0;
    while i < cats.len()
        invariant
            i <= cats.len(),
            out@.len() == roots_in(cats@, t, i as nat).len(),
            forall|k: int| 0 <= k < out@.len() ==> out@[k] == #[trigger] roots_in(cats@, t, i as nat)[k],
        decreases cats.len() - i,
    {
        if cats[i].category_type == t && cats[i].parent_id.is_none() {
            out.push(i);
        }
        i += 1;
    }
    out
}

/// The schedule line shown after a category's name: ` [L18]`, or nothing.
pub open spec fn schedule_suffix_text(c: Category) -> Seq<char> {
    match c.schedule_c_line {
        Some(l) => " ["@ + l@ + "]"@,
        None => Seq::empty(),
    }
}

/// The schedule line shown after a category's name.
pub fn schedule_suffix(c: &Category) -> (r: String)
    ensures
        r@ == schedule_suffix_text(*c),
{
    match &c.schedule_c_line {
        Some(l) => {
            let mut v = chars_of(" [");
            push_str(&mut v, l.as_str());
            push_str(&mut v, "]");
            string_from_chars(v.as_slice())
        },
        None => String::new(),
    }
}

/// The label of the suggested category at the top of the menu.
pub open spec fn suggested_label_text(c: Category) -> Seq<char> {
    "[Suggested] "@ + c.name@ + " (via rule)"@
}

/// The menu offered for one transaction: the suggested category first
/// (when a rule suggests one), then the categories in menu order, then
/// `Skip`. Each entry holds its label and the index of its category
/// (`None` for `Skip`).
pub fn categorize_menu(cats: &Vec<Category>, ordered: &Vec<usize>, suggested: Option<usize>) -> (r: Vec<(String, Option<usize>)>)
    requires
        forall|k: int| 0 <= k < ordered@.len() ==> ordered@[k] < cats@.len(),
        suggested matches Some(s) ==> s < cats@.len(),
    ensures
        ({
            let off: int = if suggested is Some { 1 } else { 0 };
            &&& r@.len() == off + ordered@.len() + 1
            &&& suggested matches Some(s) ==> r@[0].0@ == suggested_label_text(cats@[s as int])
                && r@[0].1 == Some(s)
            &&& forall|k: int|
                0 <= k < ordered@.len() ==> r@[off + k].0@ == option_label_text(cats@[ordered@[k] as int])
                    && r@[off + k].1 == Some(ordered@[k])
            &&& r@[r@.len() - 1].0@ == "Skip"@
            &&& r@[r@.len() - 1].1 is None
        }),
{
    let mut out: Vec<(String, Option<usize>)> = Vec::new();
    match suggested {
        Some(s) => {
            let mut v = chars_of("[Suggested] ");
            push_str(&mut v, cats[s].name.as_str());
            push_str(&mut v, " (via rule)");
            out.push((string_from_chars(v.as_slice()), Some(s)));
        },
        None => {},
    }
    let ghost off: int = if suggested is Some { 1 } else { 0 };
    let mut k: usize = 0;
    while k < ordered.len()
        invariant
            k <= ordered@.len(),
            off == (if suggested is Some { 1int } else { 0int }),
            forall|j: int| 0 <= j < ordered@.len() ==> ordered@[j] < cats@.len(),
            out@.len() == off + k,
            suggested matches Some(s) ==> out@[0].0@ == suggested_label_text(cats@[s as int])
                && out@[0].1 == Some(s),
            forall|j: int|
                0 <= j < k ==> out@[off + j].0@ == option_label_text(cats@[ordered@[j] as int])
                    && out@[off + j].1 == Some(ordered@[j]),
        decreases ordered@.len() - k,
    {
        let label = option_label(&cats[ordered[k]]);
        out.push((label, Some(ordered[k])));
        k += 1;
    }
    out.push(("Skip".to_owned(), None));
    out
}

/// The category picked from a menu: none when the prompt was escaped or
/// the entry picked is `Skip` (or out of range).
pub fn chosen_category(menu: &Vec<(String, Option<usize>)>, selection: Option<usize>) -> (r: Option<usize>)
    ensures
        r == match selection {
            Some(i) => if i < menu@.len() {
                menu@[i as int].1
            } else {
                None
            },
            None => None,
        },
{
    match selection {
        Some(i) => if i < menu.len() {
            menu[i].1
        } else {
            None
        },
        None => None,
    }
}

/// The confidence stored with a manual assignment: `1` when the category
/// picked is the one a rule suggested, `0.9` otherwise.
pub fn confidence_text(chosen: u128, suggested: Option<u128>) -> (r: &'static str)
    ensures
        r@ == if suggested == Some(chosen) {
            "1"@
        } else {
            "0.9"@
        },
{
    if suggested == Some(chosen) {
        "1"
    } else {
        "0.9"
    }
}

/// The pattern a new rule matches by default: the merchant name, else the
/// description.
pub open spec fn default_pattern_text(t: Transaction) -> Seq<char> {
    match t.merchant_name {
        Some(m) => m@,
        None => t.description@,
    }
}

/// The default pattern and name of a rule made from a categorization:
/// `pattern → category`.
pub fn rule_defaults(t: &Transaction, category_name: &str) -> (r: (String, String))
    ensures
        r.0@ == default_pattern_text(*t),
        r.1@ == default_pattern_text(*t) + " → "@ + category_name@,
{
    let pattern = match &t.merchant_name {
        Some(m) => m.as_str().to_owned(),
        None => t.description.as_str().to_owned(),
    };
    let mut v = chars_of(pattern.as_str());
    push_str(&mut v, " → ");
    push_str(&mut v, category_name);
    (pattern, string_from_chars(v.as_slice()))
}

} // verus!
