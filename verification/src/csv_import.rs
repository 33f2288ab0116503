//! CSV parsing for bank transaction exports.

use vstd::prelude::*;
use crate::date::{Date, chrono_parse_date, date_triple, parse_naive_date};
use crate::detect::{
    CsvMapping, FileFormat, Institution, detect_institution, institution_display, institution_key,
    iso_date_format,
    spec_detect_institution, spec_mapping, us_date_format,
};
use crate::error::{Error, ParseError, error_text};
use crate::models::{Account, ParseResult, Transaction, TransactionBuilder, is_new_transaction, opt_view};
use crate::money::{Money, decimal_parse, money_triple, nat_text, parse_decimal, text_of};
use crate::text::{
    char_is_ascii_digit, chars_of, contains_char, eq_str, is_ascii_digit, push_all, push_str,
    ascii_lower, is_ascii_text, str_lowercase, string_from_chars, to_lowercase, trim, trim_chars,
};

verus! {

/// Return true if `s` looks like a date value: it holds an ASCII digit and
/// a `/` or `-` separator.
pub open spec fn spec_looks_like_date(s: Seq<char>) -> bool {
    (exists|i: int| 0 <= i < s.len() && is_ascii_digit(#[trigger] s[i])) && (s.contains('/')
        || s.contains('-'))
}

pub fn looks_like_date(s: &str) -> (r: bool)
    ensures
        r == spec_looks_like_date(s@),
{
    let v = chars_of(s);
    looks_like_date_chars(&v)
}

pub(crate) fn looks_like_date_chars(v: &Vec<char>) -> (r: bool)
    ensures
        r == spec_looks_like_date(v@),
{
    let mut has_digit = false;
    let mut i: usize = 0;
    while i < v.len()
        invariant
            i <= v.len(),
            has_digit == exists|j: int| 0 <= j < i && is_ascii_digit(#[trigger] v@[j]),
        decreases v.len() - i,
    {
        if char_is_ascii_digit(v[i]) {
            has_digit = true;
        }
        i += 1;
    }
    has_digit && (contains_char(v, '/') || contains_char(v, '-'))
}

/// `s` with every character of `set` removed.
pub open spec fn remove_chars(s: Seq<char>, set: Seq<char>) -> Seq<char>
    decreases s.len(),
{
    if s.len() == 0 {
        Seq::empty()
    } else if set.contains(s.last()) {
        remove_chars(s.drop_last(), set)
    } else {
        remove_chars(s.drop_last(), set).push(s.last())
    }
}

/// `s` without its leading run of `c`.
pub open spec fn trim_start_char(s: Seq<char>, c: char) -> Seq<char>
    decreases s.len(),
{
    if s.len() > 0 && s[0] == c {
        trim_start_char(s.drop_first(), c)
    } else {
        s
    }
}

pub fn remove_chars_vec(v: &Vec<char>, set: &Vec<char>) -> (r: Vec<char>)
    ensures
        r@ == remove_chars(v@, set@),
{
    let mut r: Vec<char> = Vec::new();
    let mut i: usize = 0;
    while i < v.len()
        invariant
            i <= v.len(),
            r@ == remove_chars(v@.take(i as int), set@),
        decreases v.len() - i,
    {
        assert(v@.take(i + 1).drop_last() =~= v@.take(i as int));
        if !contains_char(set, v[i]) {
            r.push(v[i]);
        }
        i += 1;
    }
    assert(v@.take(v@.len() as int) =~= v@);
    r
}

pub fn trim_start_char_vec(v: &Vec<char>, c: char) -> (r: Vec<char>)
    ensures
        r@ == trim_start_char(v@, c),
{
    let mut i: usize = 0;
    assert(v@.subrange(0, v@.len() as int) =~= v@);
    while i < v.len() && v[i] == c
        invariant
            i <= v.len(),
            trim_start_char(v@, c) == trim_start_char(v@.subrange(i as int, v@.len() as int), c),
        decreases v.len() - i,
    {
        assert(v@.subrange(i as int, v@.len() as int).drop_first() =~= v@.subrange(
            i + 1,
            v@.len() as int,
        ));
        i += 1;
    }
    crate::text::copy_range(v, i, v.len())
}

/// The text handed to the decimal parser: trimmed, without `$ , ( )`, and
/// without leading minus signs.
pub open spec fn amount_body(s: Seq<char>) -> Seq<char> {
    trim_start_char(remove_chars(trim(s), "$,()"@), '-')
}

/// The amount text marks a negative value: parentheses or a leading minus.
pub open spec fn amount_marked_negative(s: Seq<char>) -> bool {
    s.contains('(') || (s.len() > 0 && s[0] == '-')
}

/// The decimal an amount text stands for, as sign flag, magnitude and scale:
/// the parsed body, made negative when the text marks it so.
pub open spec fn spec_parse_amount(s: Seq<char>) -> Option<(bool, nat, nat)> {
    match decimal_parse(amount_body(s)) {
        None => None,
        Some(t) => if amount_marked_negative(s) && !t.0 {
            Some((true, t.1, t.2))
        } else {
            Some(t)
        },
    }
}

/// Parse an amount string, handling currency symbols and parentheses.
pub fn parse_amount(s: &str) -> (r: Result<Money, Error>)
    ensures
        match spec_parse_amount(s@) {
            Some(t) => r matches Ok(m) && money_triple(m) == t && m.wf(),
            None => r matches Err(Error::Parse(ParseError::InvalidAmount(msg))) && msg@ == "'"@
                + s@ + "'"@,
        },
{
    let all = chars_of(s);
    let t = trim_chars(&all);
    let removed = remove_chars_vec(&t, &chars_of("$,()"));
    let body = trim_start_char_vec(&removed, '-');
    let body_s = string_from_chars(body.as_slice());
    let is_negative = contains_char(&all, '(') || (all.len() > 0 && all[0] == '-');
    match parse_decimal(body_s.as_str()) {
        Some(d) => {
            if is_negative && !d.negative {
                Ok(d.negate())
            } else {
                Ok(d)
            }
        },
        None => {
            let mut m: Vec<char> = Vec::new();
            m.push('\'');
            push_all(&mut m, &all);
            m.push('\'');
            assert(m@ =~= "'"@ + s@ + "'"@) by {
                reveal_strlit("'");
            }
            Err(Error::Parse(ParseError::InvalidAmount(string_from_chars(m.as_slice()))))
        },
    }
}

/// The message for a date that does not match its format.
pub open spec fn bad_date_text(s: Seq<char>, format: Seq<char>) -> Seq<char> {
    "'"@ + s + "' (expected "@ + format + ")"@
}

/// Parse a date string with the given format.
pub fn parse_date(s: &str, format: &str) -> (r: Result<Date, Error>)
    ensures
        match chrono_parse_date(s@, format@) {
            Some(t) => r matches Ok(d) && date_triple(d) == t,
            None => r matches Err(Error::Parse(ParseError::InvalidDate(msg))) && msg@
                == bad_date_text(s@, format@),
        },
{
    match parse_naive_date(s, format) {
        Some(d) => Ok(d),
        None => {
            let mut m: Vec<char> = Vec::new();
            push_str(&mut m, "'");
            push_str(&mut m, s);
            push_str(&mut m, "' (expected ");
            push_str(&mut m, format);
            push_str(&mut m, ")");
            assert(m@ =~= bad_date_text(s@, format@));
            Err(Error::Parse(ParseError::InvalidDate(string_from_chars(m.as_slice()))))
        },
    }
}

/// Name for the records that the `csv` crate's reader yields for a text
/// (flexible rows; the first row taken as headers when asked): each the
/// row's fields, or the reader's error message.
pub uninterp spec fn csv_parse_records(content: Seq<char>, has_headers: bool) -> Seq<
    Result<Seq<Seq<char>>, Seq<char>>,
>;

/// Name for the header row that the `csv` crate's reader reads from a text,
/// or `None` when it reports an error.
pub uninterp spec fn csv_parse_headers(content: Seq<char>) -> Option<Seq<Seq<char>>>;

pub open spec fn strings_view(v: Seq<String>) -> Seq<Seq<char>> {
    Seq::new(v.len(), |i: int| v[i]@)
}

pub open spec fn record_view(r: Result<Vec<String>, String>) -> Result<Seq<Seq<char>>, Seq<char>> {
    match r {
        Ok(v) => Ok(strings_view(v@)),
        Err(e) => Err(e@),
    }
}

pub open spec fn records_view(v: Seq<Result<Vec<String>, String>>) -> Seq<
    Result<Seq<Seq<char>>, Seq<char>>,
> {
    Seq::new(v.len(), |i: int| record_view(v[i]))
}

/// Reads all records of `content` with the `csv` crate (flexible rows, the
/// first row as headers when `has_headers`); the result is named by
/// `csv_parse_records`.
#[verifier::external_body]
pub(crate) fn read_csv_records(content: &str, has_headers: bool) -> (r: Vec<Result<Vec<String>, String>>)
    ensures
        records_view(r@) == csv_parse_records(content@, has_headers),
{
    let mut reader = csv::ReaderBuilder::new().has_headers(has_headers).flexible(true).from_reader(
        content.as_bytes(),
    );
    let mut out = Vec::new();
    for record in reader.records() {
        out.push(
            match record {
                Ok(row) => Ok(row.iter().map(|f| f.to_string()).collect()),
                Err(e) => Err(e.to_string()),
            },
        );
    }
    out
}

/// Reads the header row of `content` with the `csv` crate; the result is
/// named by `csv_parse_headers`.
#[verifier::external_body]
pub(crate) fn read_csv_headers(content: &str) -> (r: Option<Vec<String>>)
    ensures
        match r {
            Some(h) => csv_parse_headers(content@) == Some(strings_view(h@)),
            None => csv_parse_headers(content@) is None,
        },
{
    let mut reader = csv::ReaderBuilder::new().has_headers(true).flexible(true).from_reader(
        content.as_bytes(),
    );
    match reader.headers() {
        Ok(h) => Some(h.iter().map(|f| f.to_string()).collect()),
        Err(_) => None,
    }
}

/// The columns and conventions a CSV row is read with.
pub struct RowLayout {
    pub date_column: usize,
    pub amount_column: usize,
    pub description_column: usize,
    pub category_column: Option<usize>,
    pub date_format: Seq<char>,
    pub negate_amounts: bool,
}

pub open spec fn layout_of(m: CsvMapping) -> RowLayout {
    RowLayout {
        date_column: m.date_column,
        amount_column: m.amount_column,
        description_column: m.description_column,
        category_column: m.category_column,
        date_format: m.date_format@,
        negate_amounts: m.negate_amounts,
    }
}

/// The layout an institution's mapping gives.
pub open spec fn institution_layout(i: Institution) -> RowLayout {
    let t = spec_mapping(i);
    RowLayout {
        date_column: t.0,
        amount_column: t.1,
        description_column: t.2,
        category_column: t.3,
        date_format: if t.4 {
            us_date_format()
        } else {
            iso_date_format()
        },
        negate_amounts: t.5,
    }
}

/// What reading one CSV row gives.
pub enum RowOutcome {
    /// A column is missing; its field name.
    Missing(Seq<char>),
    /// The date does not parse; the message.
    BadDate(Seq<char>),
    /// The amount does not parse; the message.
    BadAmount(Seq<char>),
    /// Date, amount, description and the optional bank category.
    Parsed(Date, Money, Seq<char>, Option<Seq<char>>),
}

pub open spec fn field_at(row: Seq<Seq<char>>, c: usize) -> Option<Seq<char>> {
    if c < row.len() {
        Some(row[c as int])
    } else {
        None
    }
}

pub open spec fn date_of(t: (int, int, int)) -> Date {
    Date { year: t.0 as i32, month: t.1 as u32, day: t.2 as u32 }
}

pub open spec fn money_of(t: (bool, nat, nat), negate: bool) -> Money {
    Money { negative: if negate {
        !t.0
    } else {
        t.0
    }, units: t.1 as u128, scale: t.2 as u32 }
}

/// The trimmed, non-empty text of the category column, if any.
pub open spec fn row_category(row: Seq<Seq<char>>, l: RowLayout) -> Option<Seq<char>> {
    match l.category_column {
        Some(c) => match field_at(row, c) {
            Some(v) => if trim(v).len() > 0 {
                Some(trim(v))
            } else {
                None
            },
            None => None,
        },
        None => None,
    }
}

/// Reading one row: date, amount and description in that order, each
/// trimmed; the first missing or unparsable one decides the error.
pub open spec fn spec_csv_row(row: Seq<Seq<char>>, l: RowLayout) -> RowOutcome {
    match field_at(row, l.date_column) {
        None => RowOutcome::Missing("date"@),
        Some(ds) => match chrono_parse_date(trim(ds), l.date_format) {
            None => RowOutcome::BadDate(bad_date_text(trim(ds), l.date_format)),
            Some(d) => match field_at(row, l.amount_column) {
                None => RowOutcome::Missing("amount"@),
                Some(a) => match spec_parse_amount(trim(a)) {
                    None => RowOutcome::BadAmount("'"@ + trim(a) + "'"@),
                    Some(m) => match field_at(row, l.description_column) {
                        None => RowOutcome::Missing("description"@),
                        Some(desc) => RowOutcome::Parsed(
                            date_of(d),
                            money_of(m, l.negate_amounts),
                            trim(desc),
                            row_category(row, l),
                        ),
                    },
                },
            },
        },
    }
}

/// `e` is the error that an unreadable row outcome reports.
pub open spec fn is_row_error(e: Error, o: RowOutcome) -> bool {
    match o {
        RowOutcome::Missing(f) => e matches Error::Parse(ParseError::MissingField(m)) && m@ == f,
        RowOutcome::BadDate(t) => e matches Error::Parse(ParseError::InvalidDate(m)) && m@ == t,
        RowOutcome::BadAmount(t) => e matches Error::Parse(ParseError::InvalidAmount(m)) && m@ == t,
        RowOutcome::Parsed(..) => false,
    }
}

/// The message text of an unreadable row outcome.
pub open spec fn row_error_text(o: RowOutcome) -> Seq<char> {
    match o {
        RowOutcome::Missing(f) => "Parse error: "@ + ("Missing required field: "@ + f),
        RowOutcome::BadDate(t) => "Parse error: "@ + ("Invalid date: "@ + t),
        RowOutcome::BadAmount(t) => "Parse error: "@ + ("Invalid amount: "@ + t),
        RowOutcome::Parsed(..) => Seq::empty(),
    }
}

proof fn lemma_row_error_text(e: Error, o: RowOutcome)
    requires
        is_row_error(e, o),
    ensures
        error_text(e) == row_error_text(o),
{
}

fn get_trimmed(row: &Vec<String>, c: usize) -> (r: Option<Vec<char>>)
    ensures
        match field_at(strings_view(row@), c) {
            Some(f) => r matches Some(v) && v@ == trim(f),
            None => r is None,
        },
{
    if c < row.len() {
        let v = chars_of(row[c].as_str());
        Some(trim_chars(&v))
    } else {
        None
    }
}

/// Parse a single CSV row into a Transaction.
pub fn parse_csv_row(row: &Vec<String>, account: &Account, mapping: &CsvMapping, line_num: usize) -> (r:
    Result<Transaction, Error>)
    ensures
        match spec_csv_row(strings_view(row@), layout_of(*mapping)) {
            RowOutcome::Parsed(d, m, desc, cat) => r matches Ok(t) && is_new_transaction(
                t,
                account.id,
                d,
                m,
                desc,
                cat,
            ),
            o => r matches Err(e) && is_row_error(e, o),
        },
{
    let ghost l = layout_of(*mapping);
    let date_chars = match get_trimmed(row, mapping.date_column) {
        Some(v) => v,
        None => return Err(Error::Parse(ParseError::MissingField("date".to_owned()))),
    };
    let date_s = string_from_chars(date_chars.as_slice());
    let date = match parse_date(date_s.as_str(), mapping.date_format) {
        Ok(d) => d,
        Err(e) => return Err(e),
    };
    let amount_chars = match get_trimmed(row, mapping.amount_column) {
        Some(v) => v,
        None => return Err(Error::Parse(ParseError::MissingField("amount".to_owned()))),
    };
    let amount_s = string_from_chars(amount_chars.as_slice());
    let mut amount = match parse_amount(amount_s.as_str()) {
        Ok(a) => a,
        Err(e) => return Err(e),
    };
    if mapping.negate_amounts {
        amount = amount.negate();
    }
    let description = match get_trimmed(row, mapping.description_column) {
        Some(v) => string_from_chars(v.as_slice()),
        None => return Err(Error::Parse(ParseError::MissingField("description".to_owned()))),
    };
    let raw_category: Option<String> = match mapping.category_column {
        Some(c) => match get_trimmed(row, c) {
            Some(v) => if v.len() > 0 {
                Some(string_from_chars(v.as_slice()))
            } else {
                None
            },
            None => None,
        },
        None => None,
    };
    assert(opt_view(raw_category) == row_category(strings_view(row@), l));
    let mut builder = TransactionBuilder::new().account_id(account.id).date(date).amount(
        amount,
    ).description(description);
    if let Some(cat) = raw_category {
        builder = builder.raw_category(cat);
    }
    match builder.build() {
        Ok(t) => Ok(t),
        Err(e) => Err(Error::Parse(ParseError::MissingField(e))),
    }
}

/// The row is skipped: its date field exists but does not look like a date.
pub open spec fn skips_row(row: Seq<Seq<char>>, l: RowLayout) -> bool {
    field_at(row, l.date_column) matches Some(f) && !spec_looks_like_date(trim(f))
}

/// A row read successfully: date, amount, description, bank category.
pub type ParsedRow = (Date, Money, Seq<char>, Option<Seq<char>>);

/// The transactions and error messages that the first `n` records give:
/// rows whose date field does not look like a date are skipped, and the
/// messages name the line (the record index plus two, counting the header).
pub open spec fn csv_results(
    records: Seq<Result<Seq<Seq<char>>, Seq<char>>>,
    l: RowLayout,
    n: nat,
) -> (Seq<ParsedRow>, Seq<Seq<char>>)
    decreases n,
{
    if n == 0 || n > records.len() {
        (Seq::empty(), Seq::empty())
    } else {
        let prev = csv_results(records, l, (n - 1) as nat);
        let line = "Line "@ + nat_text(n + 1) + ": "@;
        match records[n - 1] {
            Err(e) => (prev.0, prev.1.push(line + "CSV parse error: "@ + e)),
            Ok(row) => if skips_row(row, l) {
                prev
            } else {
                match spec_csv_row(row, l) {
                    RowOutcome::Parsed(d, m, desc, cat) => (prev.0.push((d, m, desc, cat)), prev.1),
                    o => (prev.0, prev.1.push(line + row_error_text(o))),
                }
            },
        }
    }
}

/// The institution a hint names, if it names one.
pub open spec fn hint_institution(lower: Seq<char>) -> Option<Institution> {
    if lower == "chase"@ {
        Some(Institution::Chase)
    } else if lower == "bank_of_america"@ || lower == "bofa"@ {
        Some(Institution::BankOfAmerica)
    } else if lower == "wealthfront"@ {
        Some(Institution::Wealthfront)
    } else if lower == "wealthfront_cash"@ || lower == "wealthfrontcash"@ {
        Some(Institution::WealthfrontCash)
    } else if lower == "ally"@ {
        Some(Institution::Ally)
    } else if lower == "american_express"@ || lower == "amex"@ {
        Some(Institution::AmericanExpress)
    } else if lower == "discover"@ {
        Some(Institution::Discover)
    } else if lower == "citi"@ || lower == "citibank"@ {
        Some(Institution::Citi)
    } else if lower == "capital_one"@ {
        Some(Institution::CapitalOne)
    } else if lower == "sofi"@ {
        Some(Institution::SoFi)
    } else {
        None
    }
}

/// The institution used: the one the hint names (compared in lowercase),
/// else the one detected from the content.
pub open spec fn chosen_institution(content: Seq<char>, hint: Option<Seq<char>>) -> Institution {
    match hint {
        Some(h) => match hint_institution(str_lowercase(h)) {
            Some(i) => i,
            None => spec_detect_institution(content),
        },
        None => spec_detect_institution(content),
    }
}

/// A hint given as text, if any.
pub open spec fn hint_view(h: Option<&str>) -> Option<Seq<char>> {
    match h {
        Some(t) => Some(t@),
        None => None,
    }
}

/// The key of every institution but `Unknown` is lowercase ASCII and names
/// that institution as a hint.
proof fn lemma_key_names_institution(i: Institution)
    requires
        i != Institution::Unknown,
    ensures
        is_ascii_text(institution_key(i)),
        ascii_lower(institution_key(i)) == institution_key(i),
        hint_institution(institution_key(i)) == Some(i),
{
    reveal_strlit("chase");
    reveal_strlit("bank_of_america");
    reveal_strlit("bofa");
    reveal_strlit("wealthfront");
    reveal_strlit("wealthfront_cash");
    reveal_strlit("wealthfrontcash");
    reveal_strlit("ally");
    reveal_strlit("american_express");
    reveal_strlit("amex");
    reveal_strlit("discover");
    reveal_strlit("citi");
    reveal_strlit("citibank");
    reveal_strlit("capital_one");
    reveal_strlit("sofi");
    let k = institution_key(i);
    assert(ascii_lower(k) =~= k);
    assert("ally"@[0] != "bofa"@[0]);
    assert("american_express"@[0] != "wealthfront_cash"@[0]);
    assert("citi"@[0] != "bofa"@[0] && "citi"@[0] != "ally"@[0] && "citi"@[0] != "amex"@[0]);
    assert("capital_one"@[0] != "wealthfront"@[0]);
    assert("sofi"@[0] != "bofa"@[0] && "sofi"@[0] != "ally"@[0] && "sofi"@[0] != "amex"@[0]
        && "sofi"@[0] != "citi"@[0]);
    assert("discover"@[0] != "citibank"@[0]);
}

/// The key of `Unknown` names no institution as a hint.
proof fn lemma_unknown_key_names_nothing()
    ensures
        hint_institution(institution_key(Institution::Unknown)) is None,
{
    reveal_strlit("unknown");
    reveal_strlit("chase");
    reveal_strlit("bank_of_america");
    reveal_strlit("bofa");
    reveal_strlit("wealthfront");
    reveal_strlit("wealthfront_cash");
    reveal_strlit("wealthfrontcash");
    reveal_strlit("ally");
    reveal_strlit("american_express");
    reveal_strlit("amex");
    reveal_strlit("discover");
    reveal_strlit("citi");
    reveal_strlit("citibank");
    reveal_strlit("capital_one");
    reveal_strlit("sofi");
    assert("unknown"@[0] != "chase"@[0]);
}

fn institution_from_hint(lower: &Vec<char>) -> (r: Option<Institution>)
    ensures
        r == hint_institution(lower@),
{
    if eq_str(lower, "chase") {
        Some(Institution::Chase)
    } else if eq_str(lower, "bank_of_america") || eq_str(lower, "bofa") {
        Some(Institution::BankOfAmerica)
    } else if eq_str(lower, "wealthfront") {
        Some(Institution::Wealthfront)
    } else if eq_str(lower, "wealthfront_cash") || eq_str(lower, "wealthfrontcash") {
        Some(Institution::WealthfrontCash)
    } else if eq_str(lower, "ally") {
        Some(Institution::Ally)
    } else if eq_str(lower, "american_express") || eq_str(lower, "amex") {
        Some(Institution::AmericanExpress)
    } else if eq_str(lower, "discover") {
        Some(Institution::Discover)
    } else if eq_str(lower, "citi") || eq_str(lower, "citibank") {
        Some(Institution::Citi)
    } else if eq_str(lower, "capital_one") {
        Some(Institution::CapitalOne)
    } else if eq_str(lower, "sofi") {
        Some(Institution::SoFi)
    } else {
        None
    }
}

/// A header names the date column: it mentions `date` but not `posting`.
pub open spec fn is_date_header(h: Seq<char>) -> bool {
    crate::text::contains(h, "date"@) && !crate::text::contains(h, "posting"@)
}

/// The kinds of column an AMEX header is searched for.
pub enum HeaderKind {
    Date,
    Amount,
    Description,
    Category,
}

pub open spec fn header_is(h: Seq<char>, k: HeaderKind) -> bool {
    match k {
        HeaderKind::Date => is_date_header(h),
        HeaderKind::Amount => h == "amount"@,
        HeaderKind::Description => h == "description"@,
        HeaderKind::Category => h == "category"@,
    }
}

/// Index of the first header of kind `k`, comparing headers trimmed and in
/// lowercase.
pub open spec fn first_header(headers: Seq<Seq<char>>, k: HeaderKind) -> Option<nat>
    decreases headers.len(),
{
    if headers.len() == 0 {
        None
    } else if header_is(str_lowercase(trim(headers[0])), k) {
        Some(0)
    } else {
        match first_header(headers.drop_first(), k) {
            Some(i) => Some(i + 1),
            None => None,
        }
    }
}

/// The base mapping with its date, amount, description and category
/// columns moved to where the AMEX headers name them.
pub open spec fn amex_mapping_is(r: CsvMapping, headers: Seq<Seq<char>>, base: CsvMapping) -> bool {
    &&& r.date_column == (match first_header(headers, HeaderKind::Date) {
        Some(i) => i as usize,
        None => base.date_column,
    })
    &&& r.amount_column == (match first_header(headers, HeaderKind::Amount) {
        Some(i) => i as usize,
        None => base.amount_column,
    })
    &&& r.description_column == (match first_header(headers, HeaderKind::Description) {
        Some(i) => i as usize,
        None => base.description_column,
    })
    &&& r.category_column == (match first_header(headers, HeaderKind::Category) {
        Some(i) => Some(i as usize),
        None => base.category_column,
    })
    &&& r.date_format == base.date_format
    &&& r.has_header == base.has_header
    &&& r.negate_amounts == base.negate_amounts
}

fn find_header(lowered: &Vec<Vec<char>>, k: HeaderKind, Ghost(headers): Ghost<Seq<Seq<char>>>) -> (r: Option<usize>)
    requires
        lowered@.len() == headers.len(),
        forall|j: int| 0 <= j < headers.len() ==> #[trigger] lowered@[j]@ == str_lowercase(trim(headers[j])),
    ensures
        match first_header(headers, k) {
            Some(i) => r == Some(i as usize),
            None => r is None,
        },
{
    let mut i: usize = 0;
    assert(headers.skip(0) =~= headers);
    while i < lowered.len()
        invariant
            i <= lowered.len(),
            lowered@.len() == headers.len(),
            forall|j: int| 0 <= j < headers.len() ==> #[trigger] lowered@[j]@ == str_lowercase(trim(headers[j])),
            first_header(headers, k) == shift(first_header(headers.skip(i as int), k), i as nat),
        decreases lowered.len() - i,
    {
        let h = &lowered[i];
        let hit = match k {
            HeaderKind::Date => crate::text::contains_chars(h, &chars_of("date"))
                && !crate::text::contains_chars(h, &chars_of("posting")),
            HeaderKind::Amount => eq_str(h, "amount"),
            HeaderKind::Description => eq_str(h, "description"),
            HeaderKind::Category => eq_str(h, "category"),
        };
        proof {
            assert(headers.skip(i as int)[0] == headers[i as int]);
            assert(headers.skip(i as int).drop_first() =~= headers.skip(i + 1));
        }
        if hit {
            return Some(i);
        }
        i += 1;
    }
    None
}

/// `o` with every index moved up by `k`.
pub open spec fn shift(o: Option<nat>, k: nat) -> Option<nat> {
    match o {
        Some(i) => Some(i + k),
        None => None,
    }
}

/// For AMEX CSVs, detect column positions by header names for flexibility.
pub fn detect_amex_columns(headers: &Vec<String>, base_mapping: &CsvMapping) -> (r: Option<CsvMapping>)
    ensures
        r matches Some(m) && amex_mapping_is(m, strings_view(headers@), *base_mapping),
{
    let ghost hs = strings_view(headers@);
    let mut lowered: Vec<Vec<char>> = Vec::new();
    let mut i: usize = 0;
    while i < headers.len()
        invariant
            i <= headers.len(),
            hs == strings_view(headers@),
            lowered@.len() == i,
            forall|j: int| 0 <= j < i ==> #[trigger] lowered@[j]@ == str_lowercase(trim(hs[j])),
        decreases headers.len() - i,
    {
        let t = trim_chars(&chars_of(headers[i].as_str()));
        let t_s = string_from_chars(t.as_slice());
        let low = to_lowercase(t_s.as_str());
        lowered.push(chars_of(low.as_str()));
        i += 1;
    }
    let mut m = *base_mapping;
    assert(hs.skip(0) =~= hs);
    if let Some(idx) = find_header(&lowered, HeaderKind::Date, Ghost(hs)) {
        m.date_column = idx;
    }
    if let Some(idx) = find_header(&lowered, HeaderKind::Amount, Ghost(hs)) {
        m.amount_column = idx;
    }
    if let Some(idx) = find_header(&lowered, HeaderKind::Description, Ghost(hs)) {
        m.description_column = idx;
    }
    if let Some(idx) = find_header(&lowered, HeaderKind::Category, Ghost(hs)) {
        m.category_column = Some(idx);
    }
    Some(m)
}

/// The layout a CSV import reads rows with: the institution's, and for
/// AMEX the columns moved to where the header row names them.
pub open spec fn effective_layout(content: Seq<char>, inst: Institution) -> RowLayout {
    let base = institution_layout(inst);
    if inst == Institution::AmericanExpress && csv_parse_headers(content) is Some {
        let hs = csv_parse_headers(content)->0;
        RowLayout {
            date_column: match first_header(hs, HeaderKind::Date) {
                Some(i) => i as usize,
                None => base.date_column,
            },
            amount_column: match first_header(hs, HeaderKind::Amount) {
                Some(i) => i as usize,
                None => base.amount_column,
            },
            description_column: match first_header(hs, HeaderKind::Description) {
                Some(i) => i as usize,
                None => base.description_column,
            },
            category_column: match first_header(hs, HeaderKind::Category) {
                Some(i) => Some(i as usize),
                None => base.category_column,
            },
            ..base
        }
    } else {
        base
    }
}

/// `r` holds the outcome of importing `content` into `account`: the
/// transactions and messages of `csv_results` over all records.
pub open spec fn csv_import_is(
    r: ParseResult,
    content: Seq<char>,
    account_id: u128,
    inst: Institution,
) -> bool {
    let records = csv_parse_records(content, true);
    let out = csv_results(records, effective_layout(content, inst), records.len());
    &&& r.format == FileFormat::Csv
    &&& opt_view(r.institution) == Some(institution_display(inst))
    &&& r.transactions@.len() == out.0.len()
    &&& forall|i: int|
        0 <= i < out.0.len() ==> is_new_transaction(
            #[trigger] r.transactions@[i],
            account_id,
            out.0[i].0,
            out.0[i].1,
            out.0[i].2,
            out.0[i].3,
        )
    &&& strings_view(r.errors@) == out.1
}

/// American Express and Discover list charges as positive amounts, so an
/// import of their exports negates every amount: a row read under the layout
/// of an institution carries the amount its amount text gives, with the sign
/// flipped exactly when the institution is one of these two card issuers.
pub proof fn lemma_card_charges_are_negated(content: Seq<char>, inst: Institution, row: Seq<Seq<char>>)
    ensures
        ({
            let l = effective_layout(content, inst);
            let card = inst == Institution::AmericanExpress || inst == Institution::Discover;
            spec_csv_row(row, l) matches RowOutcome::Parsed(_, m, _, _) ==> (field_at(row, l.amount_column) matches Some(a)
                && spec_parse_amount(trim(a)) matches Some(t) && m.units == t.1 as u128 && m.scale == t.2 as u32
                && m.negative == (if card {
                !t.0
            } else {
                t.0
            }))
        }),
{
    let l = effective_layout(content, inst);
    assert(l.negate_amounts == (inst == Institution::AmericanExpress || inst == Institution::Discover));
    match field_at(row, l.date_column) {
        Some(ds) => match chrono_parse_date(trim(ds), l.date_format) {
            Some(d) => match field_at(row, l.amount_column) {
                Some(a) => match spec_parse_amount(trim(a)) {
                    Some(t) => {},
                    None => {},
                },
                None => {},
            },
            None => {},
        },
        None => {},
    }
}

/// Importing the same CSV export twice into the same account gives the same
/// transactions with the same dedupe hashes, so that a second import finds
/// every one of them already stored.
pub proof fn lemma_csv_reimport_same_hashes(
    r1: ParseResult,
    r2: ParseResult,
    content: Seq<char>,
    account_id: u128,
    inst: Institution,
)
    requires
        csv_import_is(r1, content, account_id, inst),
        csv_import_is(r2, content, account_id, inst),
    ensures
        r1.transactions@.len() == r2.transactions@.len(),
        forall|i: int|
            0 <= i < r1.transactions@.len() ==> (#[trigger] r1.transactions@[i]).transaction_hash@
                == r2.transactions@[i].transaction_hash@,
{
}

fn line_prefix(n: u128) -> (r: Vec<char>)
    ensures
        r@ == "Line "@ + nat_text(n as nat) + ": "@,
{
    let mut m: Vec<char> = Vec::new();
    push_str(&mut m, "Line ");
    push_all(&mut m, &text_of(n));
    push_str(&mut m, ": ");
    m
}

/// Parse CSV content with optional institution hint.
pub fn parse_csv_content(content: &str, account: &Account, institution: Option<&str>) -> (r:
    Result<ParseResult, Error>)
    ensures
        r matches Ok(p) && csv_import_is(
            p,
            content@,
            account.id,
            chosen_institution(
                content@,
                match institution {
                    Some(h) => Some(h@),
                    None => None,
                },
            ),
        ),
        forall|i: Institution|
            #![trigger institution_key(i)]
            hint_view(institution) matches Some(h) && is_ascii_text(h) && ascii_lower(h)
                == institution_key(i) ==> chosen_institution(content@, hint_view(institution)) == (
            if i == Institution::Unknown {
                spec_detect_institution(content@)
            } else {
                i
            }) && (r matches Ok(p) && opt_view(p.institution) == Some(
                institution_display(chosen_institution(content@, hint_view(institution))),
            )),
{
    let mut result = ParseResult::new(FileFormat::Csv);
    let inst = match institution {
        Some(h) => {
            let low = to_lowercase(h);
            proof {
                assert forall|i: Institution|
                    is_ascii_text(h@) && ascii_lower(h@) == #[trigger] institution_key(i) implies
                    hint_institution(low@) == (if i == Institution::Unknown {
                    None
                } else {
                    Some(i)
                }) by {
                    if i == Institution::Unknown {
                        lemma_unknown_key_names_nothing();
                    } else {
                        lemma_key_names_institution(i);
                    }
                }
            }
            match institution_from_hint(&chars_of(low.as_str())) {
                Some(i) => i,
                None => detect_institution(content),
            }
        },
        None => detect_institution(content),
    };
    result.institution = Some(inst.display_name().to_owned());
    let mut mapping = inst.csv_mapping();
    let amex = match inst {
        Institution::AmericanExpress => true,
        _ => false,
    };
    if amex && mapping.has_header {
        if let Some(headers) = read_csv_headers(content) {
            if let Some(updated) = detect_amex_columns(&headers, &mapping) {
                mapping = updated;
            }
        }
    }
    let ghost l = layout_of(mapping);
    assert(l == effective_layout(content@, inst));
    let records = read_csv_records(content, mapping.has_header);
    let ghost recs = csv_parse_records(content@, true);
    let mut n: usize = 0;
    while n < records.len()
        invariant
            n <= records.len(),
            records_view(records@) == recs,
            l == layout_of(mapping),
            result.format == FileFormat::Csv,
            opt_view(result.institution) == Some(institution_display(inst)),
            result.transactions@.len() == csv_results(recs, l, n as nat).0.len(),
            forall|i: int|
                0 <= i < csv_results(recs, l, n as nat).0.len() ==> is_new_transaction(
                    #[trigger] result.transactions@[i],
                    account.id,
                    csv_results(recs, l, n as nat).0[i].0,
                    csv_results(recs, l, n as nat).0[i].1,
                    csv_results(recs, l, n as nat).0[i].2,
                    csv_results(recs, l, n as nat).0[i].3,
                ),
            strings_view(result.errors@) == csv_results(recs, l, n as nat).1,
            inst == chosen_institution(content@, hint_view(institution)),
            forall|i: Institution|
                #![trigger institution_key(i)]
                hint_view(institution) matches Some(h) && is_ascii_text(h) && ascii_lower(h)
                    == institution_key(i) ==> chosen_institution(content@, hint_view(institution)) == (
                if i == Institution::Unknown {
                    spec_detect_institution(content@)
                } else {
                    i
                }),
        decreases records.len() - n,
    {
        let ghost prev = csv_results(recs, l, n as nat);
        let ghost prev_errs = result.errors@;
        assert(recs[n as int] == record_view(records@[n as int]));
        match &records[n] {
            Ok(row) => {
                let skip = match get_trimmed(row, mapping.date_column) {
                    Some(f) => !looks_like_date_chars(&f),
                    None => false,
                };
                if !skip {
                    match parse_csv_row(row, account, &mapping, n + 1) {
                        Ok(tx) => {
                            result.transactions.push(tx);
                        },
                        Err(e) => {
                            let mut msg = line_prefix(n as u128 + 2);
                            let em = e.message();
                            proof {
                                lemma_row_error_text(e, spec_csv_row(strings_view(row@), l));
                            }
                            push_all(&mut msg, &chars_of(em.as_str()));
                            result.errors.push(string_from_chars(msg.as_slice()));
                            assert(strings_view(result.errors@) =~= strings_view(prev_errs).push(
                                msg@,
                            ));
                        },
                    }
                }
            },
            Err(e) => {
                let mut msg = line_prefix(n as u128 + 2);
                push_str(&mut msg, "CSV parse error: ");
                push_all(&mut msg, &chars_of(e.as_str()));
                result.errors.push(string_from_chars(msg.as_slice()));
                assert(strings_view(result.errors@) =~= strings_view(prev_errs).push(msg@));
            },
        }
        n += 1;
    }
    Ok(result)
}

} // verus!
