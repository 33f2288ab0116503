//! IIF (Interchange File Format) parsing for QuickBooks exports.
//!
//! IIF is a text-based format used by QuickBooks and other accounting software
//! to export transactions. This parser extracts transaction records and converts
//! them to the standard Transaction format.
//!
//! Format overview:
//! - Lines starting with ! are keywords
//! - Transactions delimited by !TRNS and !ENDTRNS
//! - Splits delimited by !SPLIT and !ENDSPLIT
//! - Key-value pairs: !KEYWORD	VALUE

use vstd::prelude::*;
use crate::csv_import::{
    date_of, remove_chars, remove_chars_vec, strings_view,
};
use crate::date::{Date, chrono_parse_date, date_triple, parse_naive_date};
use crate::detect::FileFormat;
use crate::error::{Error, ParseError, error_text};
use crate::models::{
    Account, ParseResult, Transaction, TransactionBuilder, is_imported_transaction, opt_view,
};
use crate::money::{Money, decimal_parse, integral_form, money_triple, parse_decimal, to_integral_form};
use crate::text::{
    chars_of, char_is_white_space, copy_range, is_white_space, join, push_all, push_str,
    split_lines, split_lines_chars, starts_with, starts_with_chars, string_from_chars, trim,
    trim_chars, views,
};

verus! {

/// The value of the first line that starts with `key` (after trimming):
/// the rest of that line, trimmed, or `None` when it is empty or no line
/// starts with `key`.
pub open spec fn field_in_lines(lines: Seq<Seq<char>>, key: Seq<char>) -> Option<Seq<char>>
    decreases lines.len(),
{
    if lines.len() == 0 {
        None
    } else if starts_with(trim(lines[0]), key) {
        let v = trim(trim(lines[0]).skip(key.len() as int));
        if v.len() == 0 {
            None
        } else {
            Some(v)
        }
    } else {
        field_in_lines(lines.drop_first(), key)
    }
}

/// The value of `!keyword` in an IIF block.
pub open spec fn spec_extract_field(content: Seq<char>, keyword: Seq<char>) -> Option<Seq<char>> {
    field_in_lines(split_lines(content), seq!['!'] + keyword)
}

fn field_from_lines(lines: &Vec<Vec<char>>, key: &Vec<char>) -> (r: Option<Vec<char>>)
    ensures
        match field_in_lines(views(lines@), key@) {
            Some(v) => r matches Some(x) && x@ == v,
            None => r is None,
        },
{
    let ghost ls = views(lines@);
    let mut i: usize = 0;
    assert(ls.skip(0) =~= ls);
    while i < lines.len()
        invariant
            i <= lines.len(),
            ls == views(lines@),
            field_in_lines(ls, key@) == field_in_lines(ls.skip(i as int), key@),
        decreases lines.len() - i,
    {
        let t = trim_chars(&lines[i]);
        proof {
            assert(ls.skip(i as int)[0] == lines@[i as int]@);
            assert(ls.skip(i as int).drop_first() =~= ls.skip(i + 1));
        }
        if starts_with_chars(&t, key) {
            let rest = copy_range(&t, key.len(), t.len());
            assert(rest@ =~= t@.skip(key@.len() as int));
            let v = trim_chars(&rest);
            if v.len() == 0 {
                return None;
            }
            return Some(v);
        }
        i += 1;
    }
    None
}

/// Extract a field value from an IIF block.
///
/// IIF format: !KEYWORD	VALUE (tab-separated)
pub fn extract_field(content: &str, keyword: &str) -> (r: Option<String>)
    ensures
        opt_view(r) == spec_extract_field(content@, keyword@),
{
    let lines = split_lines_chars(&chars_of(content));
    let mut key: Vec<char> = Vec::new();
    key.push('!');
    push_str(&mut key, keyword);
    assert(key@ =~= seq!['!'] + keyword@);
    match field_from_lines(&lines, &key) {
        Some(v) => Some(string_from_chars(v.as_slice())),
        None => None,
    }
}

/// A trimmed line whose keyword is exactly `kw`: `kw` followed by the end of
/// the line or by whitespace.
pub open spec fn is_keyword_line(t: Seq<char>, kw: Seq<char>) -> bool {
    starts_with(t, kw) && (t.len() == kw.len() || is_white_space(t[kw.len() as int]))
}

fn keyword_line(t: &Vec<char>, kw: &str) -> (r: bool)
    ensures
        r == is_keyword_line(t@, kw@),
{
    let k = chars_of(kw);
    starts_with_chars(t, &k) && (t.len() == k.len() || char_is_white_space(t[k.len()]))
}

/// The state of the scan that cuts a text into delimited blocks.
pub struct BlockScan {
    pub blocks: Seq<Seq<char>>,
    pub current: Seq<char>,
    pub inside: bool,
}

/// One line of the scan: an opening keyword starts a new block, every line
/// inside a block is added to it (trimmed, with a newline), and a closing
/// keyword inside a block completes it.
pub open spec fn scan_step(st: BlockScan, line: Seq<char>, open: Seq<char>, close: Seq<char>) -> BlockScan {
    let t = trim(line);
    let opened = is_keyword_line(t, open);
    let inside = st.inside || opened;
    let cur0 = if opened {
        Seq::empty()
    } else {
        st.current
    };
    let cur = if inside {
        cur0 + t + seq!['\n']
    } else {
        cur0
    };
    if is_keyword_line(t, close) && inside {
        BlockScan { blocks: st.blocks.push(cur), current: Seq::empty(), inside: false }
    } else {
        BlockScan { blocks: st.blocks, current: cur, inside }
    }
}

/// The scan after the first `n` lines.
pub open spec fn scan_lines(lines: Seq<Seq<char>>, n: nat, open: Seq<char>, close: Seq<char>) -> BlockScan
    decreases n,
{
    if n == 0 || n > lines.len() {
        BlockScan { blocks: Seq::empty(), current: Seq::empty(), inside: false }
    } else {
        scan_step(scan_lines(lines, (n - 1) as nat, open, close), lines[n - 1], open, close)
    }
}

/// The complete blocks of `content` from an `open` line to a `close` line.
pub open spec fn spec_blocks(content: Seq<char>, open: Seq<char>, close: Seq<char>) -> Seq<Seq<char>> {
    let lines = split_lines(content);
    scan_lines(lines, lines.len(), open, close).blocks
}

fn extract_blocks(content: &str, open: &str, close: &str) -> (r: Vec<String>)
    ensures
        strings_view(r@) == spec_blocks(content@, open@, close@),
{
    let lines = split_lines_chars(&chars_of(content));
    let ghost ls = views(lines@);
    let mut blocks: Vec<String> = Vec::new();
    let mut current: Vec<char> = Vec::new();
    let mut inside = false;
    let mut i: usize = 0;
    while i < lines.len()
        invariant
            i <= lines.len(),
            ls == views(lines@),
            ({
                let st = scan_lines(ls, i as nat, open@, close@);
                strings_view(blocks@) == st.blocks && current@ == st.current && inside == st.inside
            }),
        decreases lines.len() - i,
    {
        let ghost st = scan_lines(ls, i as nat, open@, close@);
        let t = trim_chars(&lines[i]);
        assert(t@ == trim(ls[i as int]));
        let opened = keyword_line(&t, open);
        let now_inside = inside || opened;
        let mut cur = if opened {
            Vec::new()
        } else {
            current
        };
        if now_inside {
            push_all(&mut cur, &t);
            cur.push('\n');
        }
        let closing = keyword_line(&t, close);
        let ghost nxt = scan_step(st, ls[i as int], open@, close@);
        if closing && now_inside {
            let ghost before = blocks@;
            blocks.push(string_from_chars(cur.as_slice()));
            assert(strings_view(blocks@) =~= strings_view(before).push(cur@));
            assert(cur@ =~= (if opened {
                Seq::<char>::empty()
            } else {
                st.current
            }) + t@ + seq!['\n']);
            current = Vec::new();
            inside = false;
            assert(current@ =~= nxt.current);
        } else {
            current = cur;
            inside = now_inside;
            assert(current@ =~= nxt.current);
        }
        assert(scan_lines(ls, (i + 1) as nat, open@, close@) == nxt);
        i += 1;
    }
    blocks
}

/// Extract individual transaction blocks from IIF content.
///
/// Returns one string per transaction, from its `!TRNS` line to its `!ENDTRNS` line.
pub fn extract_transaction_blocks(content: &str) -> (r: Vec<String>)
    ensures
        strings_view(r@) == spec_blocks(content@, "!TRNS"@, "!ENDTRNS"@),
{
    extract_blocks(content, "!TRNS", "!ENDTRNS")
}

/// Message for an IIF date that does not parse.
pub open spec fn bad_iif_date_text(s: Seq<char>) -> Seq<char> {
    "Invalid IIF date format: "@ + s + " (expected MM/DD/YYYY)"@
}

/// Parse an IIF date string (MM/DD/YYYY format).
pub fn parse_iif_date(s: &str) -> (r: Result<Date, Error>)
    ensures
        match chrono_parse_date(trim(s@), "%m/%d/%Y"@) {
            Some(t) => r matches Ok(d) && date_triple(d) == t,
            None => r matches Err(Error::Parse(ParseError::InvalidDate(m))) && m@ == bad_iif_date_text(s@),
        },
{
    let t = string_from_chars(trim_chars(&chars_of(s)).as_slice());
    match parse_naive_date(t.as_str(), "%m/%d/%Y") {
        Some(d) => Ok(d),
        None => {
            let mut m: Vec<char> = Vec::new();
            push_str(&mut m, "Invalid IIF date format: ");
            push_str(&mut m, s);
            push_str(&mut m, " (expected MM/DD/YYYY)");
            assert(m@ =~= bad_iif_date_text(s@));
            Err(Error::Parse(ParseError::InvalidDate(string_from_chars(m.as_slice()))))
        },
    }
}

/// The text handed to the decimal parser for an IIF amount: trimmed,
/// without `$` and `,`, trimmed again.
pub open spec fn iif_amount_body(s: Seq<char>) -> Seq<char> {
    trim(remove_chars(trim(s), "$,"@))
}

/// Parse an IIF amount string (decimal, can be positive or negative). An
/// amount with no fractional part is held without decimals: `1000.00`
/// reads as `1000`, `-125.50` stays `-125.50`.
pub fn parse_iif_amount(s: &str) -> (r: Result<Money, Error>)
    ensures
        match decimal_parse(iif_amount_body(s@)) {
            Some(t) => r matches Ok(m) && money_triple(m) == integral_form(t) && m.wf(),
            None => r matches Err(Error::Parse(ParseError::InvalidAmount(m))) && m@
                == "Invalid IIF amount: "@ + s@,
        },
{
    let t = trim_chars(&chars_of(s));
    let cleaned = trim_chars(&remove_chars_vec(&t, &chars_of("$,")));
    let body = string_from_chars(cleaned.as_slice());
    match parse_decimal(body.as_str()) {
        Some(m) => Ok(to_integral_form(&m)),
        None => {
            let mut m: Vec<char> = Vec::new();
            push_str(&mut m, "Invalid IIF amount: ");
            push_str(&mut m, s);
            Err(Error::Parse(ParseError::InvalidAmount(string_from_chars(m.as_slice()))))
        },
    }
}

/// Represents a split transaction line.
#[derive(Debug)]
pub struct IifSplit {
    pub account: String,
    pub amount: String,
    pub name: Option<String>,
}

/// A split as account, amount and optional name.
pub type SplitView = (Seq<char>, Seq<char>, Option<Seq<char>>);

pub open spec fn split_view(s: IifSplit) -> SplitView {
    (s.account@, s.amount@, opt_view(s.name))
}

pub open spec fn splits_view(v: Seq<IifSplit>) -> Seq<SplitView> {
    Seq::new(v.len(), |i: int| split_view(v[i]))
}

/// A split block gives a split when it has an account and an amount.
pub open spec fn spec_split_block(content: Seq<char>) -> Option<SplitView> {
    match (spec_extract_field(content, "SPLITACCNT"@), spec_extract_field(content, "SPLITAMT"@)) {
        (Some(a), Some(m)) => Some((a, m, spec_extract_field(content, "SPLITNAME"@))),
        _ => None,
    }
}

/// Parse a single split block.
pub fn parse_split_block(content: &str) -> (r: Option<IifSplit>)
    ensures
        match spec_split_block(content@) {
            Some(v) => r matches Some(s) && split_view(s) == v,
            None => r is None,
        },
{
    let account = match extract_field(content, "SPLITACCNT") {
        Some(a) => a,
        None => return None,
    };
    let amount = match extract_field(content, "SPLITAMT") {
        Some(a) => a,
        None => return None,
    };
    let name = extract_field(content, "SPLITNAME");
    Some(IifSplit { account, amount, name })
}

/// The splits given by the first `n` split blocks, in order.
pub open spec fn splits_of(blocks: Seq<Seq<char>>, n: nat) -> Seq<SplitView>
    decreases n,
{
    if n == 0 || n > blocks.len() {
        Seq::empty()
    } else {
        let prev = splits_of(blocks, (n - 1) as nat);
        match spec_split_block(blocks[n - 1]) {
            Some(s) => prev.push(s),
            None => prev,
        }
    }
}

/// The splits of a transaction block: each `!SPLIT` to `!ENDSPLIT` block
/// that has an account and an amount.
pub open spec fn spec_splits(content: Seq<char>) -> Seq<SplitView> {
    let blocks = spec_blocks(content, "!SPLIT"@, "!ENDSPLIT"@);
    splits_of(blocks, blocks.len())
}

/// Extract split transaction records from a transaction block.
pub fn extract_splits(content: &str) -> (r: Vec<IifSplit>)
    ensures
        splits_view(r@) == spec_splits(content@),
{
    let blocks = extract_blocks(content, "!SPLIT", "!ENDSPLIT");
    let ghost bs = strings_view(blocks@);
    let mut splits: Vec<IifSplit> = Vec::new();
    let mut i: usize = 0;
    while i < blocks.len()
        invariant
            i <= blocks.len(),
            bs == strings_view(blocks@),
            splits_view(splits@) == splits_of(bs, i as nat),
        decreases blocks.len() - i,
    {
        assert(bs[i as int] == blocks@[i as int]@);
        let ghost before = splits@;
        if let Some(s) = parse_split_block(blocks[i].as_str()) {
            splits.push(s);
            assert(splits_view(splits@) =~= splits_view(before).push(split_view(splits@.last())));
        }
        i += 1;
    }
    splits
}

/// How a split is named in a category hint: its account, with its name in
/// parentheses when it has one.
pub open spec fn split_label(s: SplitView) -> Seq<char> {
    match s.2 {
        Some(n) => s.0 + " ("@ + n + ")"@,
        None => s.0,
    }
}

/// Convert split information to a category hint string: `split: ` and the
/// split labels separated by `, `.
pub open spec fn spec_category_hint(splits: Seq<SplitView>) -> Seq<char> {
    "split: "@ + join(Seq::new(splits.len(), |i: int| split_label(splits[i])), ", "@)
}

/// Convert split information to a category hint string.
///
/// Format: "split: Account1, Account2, ..." to help with categorization.
pub fn splits_to_category_hint(splits: &Vec<IifSplit>) -> (r: String)
    ensures
        r@ == spec_category_hint(splits_view(splits@)),
{
    let ghost sv = splits_view(splits@);
    let mut labels: Vec<Vec<char>> = Vec::new();
    let mut i: usize = 0;
    while i < splits.len()
        invariant
            i <= splits.len(),
            sv == splits_view(splits@),
            views(labels@) == Seq::new(i as nat, |j: int| split_label(sv[j])),
        decreases splits.len() - i,
    {
        let s = &splits[i];
        let mut label = chars_of(s.account.as_str());
        match &s.name {
            Some(n) => {
                push_str(&mut label, " (");
                push_str(&mut label, n.as_str());
                push_str(&mut label, ")");
            },
            None => {},
        }
        assert(label@ == split_label(sv[i as int]));
        let ghost before = views(labels@);
        let ghost lv = label@;
        labels.push(label);
        assert(views(labels@) =~= before.push(lv));
        assert(before.push(lv) =~= Seq::new((i + 1) as nat, |j: int| split_label(sv[j])));
        i += 1;
    }
    let mut out = chars_of("split: ");
    let joined = crate::text::join_chars(&labels, &chars_of(", "));
    push_all(&mut out, &joined);
    string_from_chars(out.as_slice())
}

/// What parsing one IIF transaction block gives.
pub enum BlockOutcome {
    Missing(Seq<char>),
    BadDate(Seq<char>),
    BadAmount(Seq<char>),
    /// Date, amount, description, bank category and reference number.
    Parsed(Date, Money, Seq<char>, Option<Seq<char>>, Option<Seq<char>>),
}

/// The description of a block: payee and memo joined by ` - `, whichever of
/// them is present, or a fixed text.
pub open spec fn block_description(payee: Option<Seq<char>>, memo: Option<Seq<char>>) -> Seq<char> {
    match (payee, memo) {
        (Some(p), Some(m)) => p + " - "@ + m,
        (Some(p), None) => p,
        (None, Some(m)) => m,
        (None, None) => "IIF Transaction"@,
    }
}

/// The reading of a transaction block: date and amount are required (both
/// looked up before either is parsed); the category hint comes from the
/// splits, else from the `!SPLITACCNT` field; the reference number is the
/// `!DOCNUM`, else the `!TRNSID`.
pub open spec fn spec_transaction_block(c: Seq<char>) -> BlockOutcome {
    match spec_extract_field(c, "DATE"@) {
        None => BlockOutcome::Missing("IIF transaction missing !DATE"@),
        Some(ds) => match spec_extract_field(c, "AMOUNT"@) {
            None => BlockOutcome::Missing("IIF transaction missing !AMOUNT"@),
            Some(am) => match chrono_parse_date(trim(ds), "%m/%d/%Y"@) {
                None => BlockOutcome::BadDate(bad_iif_date_text(ds)),
                Some(d) => match decimal_parse(iif_amount_body(am)) {
                    None => BlockOutcome::BadAmount("Invalid IIF amount: "@ + am),
                    Some(m) => BlockOutcome::Parsed(
                        date_of(d),
                        Money {
                            negative: integral_form(m).0,
                            units: integral_form(m).1 as u128,
                            scale: integral_form(m).2 as u32,
                        },
                        block_description(
                            spec_extract_field(c, "NAME"@),
                            spec_extract_field(c, "MEMO"@),
                        ),
                        if spec_splits(c).len() > 0 {
                            Some(spec_category_hint(spec_splits(c)))
                        } else {
                            spec_extract_field(c, "SPLITACCNT"@)
                        },
                        match spec_extract_field(c, "DOCNUM"@) {
                            Some(n) => Some(n),
                            None => spec_extract_field(c, "TRNSID"@),
                        },
                    ),
                },
            },
        },
    }
}

/// A parsed block's description begins with its payee (`!NAME`) and ends
/// with its memo (`!MEMO`), is exactly the one of them that is present when
/// the other is not, and is the fixed text `IIF Transaction` only when the
/// block has neither. Its reference number is the `!DOCNUM`, or the
/// `!TRNSID` when there is no `!DOCNUM`.
pub proof fn lemma_iif_payee_memo_and_reference(c: Seq<char>)
    ensures
        spec_transaction_block(c) matches BlockOutcome::Parsed(_, _, desc, _, reference) ==> {
            &&& spec_extract_field(c, "DOCNUM"@) is Some ==> reference == spec_extract_field(c, "DOCNUM"@)
            &&& spec_extract_field(c, "DOCNUM"@) is None ==> reference == spec_extract_field(c, "TRNSID"@)
            &&& spec_extract_field(c, "NAME"@) matches Some(p) ==> desc.len() >= p.len() && desc.take(
                p.len() as int,
            ) == p
            &&& spec_extract_field(c, "MEMO"@) matches Some(m) ==> desc.len() >= m.len() && desc.skip(
                desc.len() - m.len(),
            ) == m
            &&& spec_extract_field(c, "MEMO"@) is None ==> (spec_extract_field(c, "NAME"@) matches Some(p)
                ==> desc == p)
            &&& spec_extract_field(c, "NAME"@) is None ==> (spec_extract_field(c, "MEMO"@) matches Some(m)
                ==> desc == m)
            &&& (spec_extract_field(c, "NAME"@) is None && spec_extract_field(c, "MEMO"@) is None)
                ==> desc == "IIF Transaction"@
        },
{
    match (spec_extract_field(c, "NAME"@), spec_extract_field(c, "MEMO"@)) {
        (Some(p), Some(m)) => {
            let d = p + " - "@ + m;
            assert(d.take(p.len() as int) =~= p);
            assert(d.skip(d.len() - m.len()) =~= m);
        },
        (Some(p), None) => {
            assert(p.take(p.len() as int) =~= p);
        },
        (None, Some(m)) => {
            assert(m.skip(0) =~= m);
        },
        (None, None) => {},
    }
}

pub open spec fn is_block_error(e: Error, o: BlockOutcome) -> bool {
    match o {
        BlockOutcome::Missing(f) => e matches Error::Parse(ParseError::MissingField(m)) && m@ == f,
        BlockOutcome::BadDate(t) => e matches Error::Parse(ParseError::InvalidDate(m)) && m@ == t,
        BlockOutcome::BadAmount(t) => e matches Error::Parse(ParseError::InvalidAmount(m)) && m@ == t,
        BlockOutcome::Parsed(..) => false,
    }
}

pub open spec fn block_error_text(o: BlockOutcome) -> Seq<char> {
    match o {
        BlockOutcome::Missing(f) => "Parse error: "@ + ("Missing required field: "@ + f),
        BlockOutcome::BadDate(t) => "Parse error: "@ + ("Invalid date: "@ + t),
        BlockOutcome::BadAmount(t) => "Parse error: "@ + ("Invalid amount: "@ + t),
        BlockOutcome::Parsed(..) => Seq::empty(),
    }
}

/// Parse a single transaction block (from !TRNS to !ENDTRNS).
pub fn parse_transaction_block(content: &str, account: &Account) -> (r: Result<Transaction, Error>)
    ensures
        match spec_transaction_block(content@) {
            BlockOutcome::Parsed(d, m, desc, cat, reference) => r matches Ok(t)
                && is_imported_transaction(t, account.id, d, m, desc, cat, reference),
            o => r matches Err(e) && is_block_error(e, o),
        },
{
    let date_str = match extract_field(content, "DATE") {
        Some(d) => d,
        None => return Err(
            Error::Parse(ParseError::MissingField("IIF transaction missing !DATE".to_owned())),
        ),
    };
    let amount_str = match extract_field(content, "AMOUNT") {
        Some(a) => a,
        None => return Err(
            Error::Parse(ParseError::MissingField("IIF transaction missing !AMOUNT".to_owned())),
        ),
    };
    let transaction_date = match parse_iif_date(date_str.as_str()) {
        Ok(d) => d,
        Err(e) => return Err(e),
    };
    let amount = match parse_iif_amount(amount_str.as_str()) {
        Ok(a) => a,
        Err(e) => return Err(e),
    };
    let payee = extract_field(content, "NAME");
    let memo = extract_field(content, "MEMO");
    let docnum = extract_field(content, "DOCNUM");
    let trnsid = extract_field(content, "TRNSID");
    let description: String = match (&payee, &memo) {
        (Some(p), Some(m)) => {
            let mut v = chars_of(p.as_str());
            push_str(&mut v, " - ");
            push_str(&mut v, m.as_str());
            string_from_chars(v.as_slice())
        },
        (Some(p), None) => p.clone(),
        (None, Some(m)) => m.clone(),
        (None, None) => "IIF Transaction".to_owned(),
    };
    let splits = extract_splits(content);
    let raw_category = if splits.len() > 0 {
        Some(splits_to_category_hint(&splits))
    } else {
        extract_field(content, "SPLITACCNT")
    };
    let reference_number = match docnum {
        Some(n) => Some(n),
        None => trnsid,
    };
    let built = TransactionBuilder::new().account_id(account.id).date(transaction_date).amount(
        amount,
    ).description(description).build();
    let mut tx = match built {
        Ok(t) => t,
        Err(e) => {
            let mut v = chars_of("Failed to build transaction: ");
            push_str(&mut v, e.as_str());
            return Err(Error::InvalidInput(string_from_chars(v.as_slice())));
        },
    };
    if let Some(cat) = raw_category {
        tx.raw_category = Some(cat);
    }
    if let Some(ref_num) = reference_number {
        tx.reference_number = Some(ref_num);
    }
    Ok(tx)
}

/// The transactions and messages that the first `n` blocks give.
pub open spec fn iif_results(blocks: Seq<Seq<char>>, n: nat) -> (
    Seq<(Date, Money, Seq<char>, Option<Seq<char>>, Option<Seq<char>>)>,
    Seq<Seq<char>>,
)
    decreases n,
{
    if n == 0 || n > blocks.len() {
        (Seq::empty(), Seq::empty())
    } else {
        let prev = iif_results(blocks, (n - 1) as nat);
        match spec_transaction_block(blocks[n - 1]) {
            BlockOutcome::Parsed(d, m, desc, cat, reference) => (
                prev.0.push((d, m, desc, cat, reference)),
                prev.1,
            ),
            o => (prev.0, prev.1.push("Error parsing transaction: "@ + block_error_text(o))),
        }
    }
}

/// `r` holds the outcome of importing IIF `content` into an account.
pub open spec fn iif_import_is(r: ParseResult, content: Seq<char>, account_id: u128) -> bool {
    let blocks = spec_blocks(content, "!TRNS"@, "!ENDTRNS"@);
    let out = iif_results(blocks, blocks.len());
    &&& r.format == FileFormat::Iif
    &&& opt_view(r.institution) == Some("QuickBooks IIF"@)
    &&& r.transactions@.len() == out.0.len()
    &&& forall|i: int|
        0 <= i < out.0.len() ==> is_imported_transaction(
            #[trigger] r.transactions@[i],
            account_id,
            out.0[i].0,
            out.0[i].1,
            out.0[i].2,
            out.0[i].3,
            out.0[i].4,
        )
    &&& strings_view(r.errors@) == out.1
}

/// Importing the same IIF file twice into the same account gives the same
/// transactions with the same dedupe hashes.
pub proof fn lemma_iif_reimport_same_hashes(r1: ParseResult, r2: ParseResult, content: Seq<char>, account_id: u128)
    requires
        iif_import_is(r1, content, account_id),
        iif_import_is(r2, content, account_id),
    ensures
        r1.transactions@.len() == r2.transactions@.len(),
        forall|i: int|
            0 <= i < r1.transactions@.len() ==> (#[trigger] r1.transactions@[i]).transaction_hash@
                == r2.transactions@[i].transaction_hash@,
{
}

/// Parse IIF content string.
pub fn parse_iif_content(content: &str, account: &Account) -> (r: Result<ParseResult, Error>)
    ensures
        r matches Ok(p) && iif_import_is(p, content@, account.id),
{
    let mut result = ParseResult::new(FileFormat::Iif);
    result.institution = Some("QuickBooks IIF".to_owned());
    let blocks = extract_transaction_blocks(content);
    let ghost bs = strings_view(blocks@);
    let mut i: usize = 0;
    while i < blocks.len()
        invariant
            i <= blocks.len(),
            bs == strings_view(blocks@),
            result.format == FileFormat::Iif,
            opt_view(result.institution) == Some("QuickBooks IIF"@),
            result.transactions@.len() == iif_results(bs, i as nat).0.len(),
            forall|j: int|
                0 <= j < iif_results(bs, i as nat).0.len() ==> is_imported_transaction(
                    #[trigger] result.transactions@[j],
                    account.id,
                    iif_results(bs, i as nat).0[j].0,
                    iif_results(bs, i as nat).0[j].1,
                    iif_results(bs, i as nat).0[j].2,
                    iif_results(bs, i as nat).0[j].3,
                    iif_results(bs, i as nat).0[j].4,
                ),
            strings_view(result.errors@) == iif_results(bs, i as nat).1,
        decreases blocks.len() - i,
    {
        assert(bs[i as int] == blocks@[i as int]@);
        let ghost prev_errs = result.errors@;
        match parse_transaction_block(blocks[i].as_str(), account) {
            Ok(tx) => {
                result.transactions.push(tx);
            },
            Err(e) => {
                let mut msg = chars_of("Error parsing transaction: ");
                let em = e.message();
                push_str(&mut msg, em.as_str());
                result.errors.push(string_from_chars(msg.as_slice()));
                assert(strings_view(result.errors@) =~= strings_view(prev_errs).push(msg@));
            },
        }
        i += 1;
    }
    Ok(result)
}

} // verus!
