//! SQL text for the store: string literals with their quotes doubled, and
//! the stored names of the enumerations.

use vstd::prelude::*;
use crate::category::CategoryType;
use crate::models::{AccountType, CategorizedBy};
use crate::ids::{uuid_chars, uuid_text};
use crate::money::{nat_text, text_of};
use crate::text::{chars_of, eq_str, push_all, push_str};

verus! {

/// The text that stands for one character inside a SQL string literal.
pub open spec fn escape_char(c: char) -> Seq<char> {
    if c == '\'' {
        seq!['\'', '\'']
    } else {
        seq![c]
    }
}

/// `s` with every single quote doubled, as it stands inside a SQL string
/// literal.
pub open spec fn sql_escape(s: Seq<char>) -> Seq<char>
    decreases s.len(),
{
    if s.len() == 0 {
        Seq::empty()
    } else {
        sql_escape(s.drop_last()) + escape_char(s.last())
    }
}

/// A SQL string literal holding `s`.
pub open spec fn sql_literal(s: Seq<char>) -> Seq<char> {
    seq!['\''] + sql_escape(s) + seq!['\'']
}

/// A literal for a value that may be absent: `NULL` when it is.
pub open spec fn opt_literal(o: Option<Seq<char>>) -> Seq<char> {
    match o {
        Some(s) => sql_literal(s),
        None => "NULL"@,
    }
}

/// How SQL reads the body of a string literal, starting just after its
/// opening quote: two quotes stand for one, and a single quote ends the
/// literal. The result is the text read and the number of characters
/// consumed, closing quote included, or `None` when no quote closes it.
pub open spec fn read_literal_body(t: Seq<char>) -> Option<(Seq<char>, nat)>
    decreases t.len(),
{
    if t.len() == 0 {
        None
    } else if t[0] == '\'' {
        if t.len() >= 2 && t[1] == '\'' {
            match read_literal_body(t.skip(2)) {
                Some((c, n)) => Some((seq!['\''] + c, n + 2)),
                None => None,
            }
        } else {
            Some((Seq::empty(), 1))
        }
    } else {
        match read_literal_body(t.skip(1)) {
            Some((c, n)) => Some((seq![t[0]] + c, n + 1)),
            None => None,
        }
    }
}

proof fn lemma_escape_append(a: Seq<char>, b: Seq<char>)
    ensures
        sql_escape(a + b) == sql_escape(a) + sql_escape(b),
    decreases b.len(),
{
    if b.len() == 0 {
        assert(a + b =~= a);
        assert(sql_escape(b) =~= Seq::<char>::empty());
        assert(sql_escape(a) + sql_escape(b) =~= sql_escape(a));
    } else {
        lemma_escape_append(a, b.drop_last());
        assert((a + b).drop_last() =~= a + b.drop_last());
        assert((a + b).last() == b.last());
        assert(sql_escape(a) + sql_escape(b.drop_last()) + escape_char(b.last()) =~= sql_escape(a)
            + (sql_escape(b.drop_last()) + escape_char(b.last())));
    }
}

proof fn lemma_escape_front(s: Seq<char>)
    requires
        s.len() > 0,
    ensures
        sql_escape(s) == escape_char(s[0]) + sql_escape(s.skip(1)),
{
    let head = seq![s[0]];
    assert(head + s.skip(1) =~= s);
    lemma_escape_append(head, s.skip(1));
    assert(head.drop_last() =~= Seq::<char>::empty());
    assert(sql_escape(head.drop_last()) =~= Seq::<char>::empty());
    assert(sql_escape(head) =~= escape_char(s[0]));
}

/// A literal written by this module is read back as exactly the text it was
/// written from, and it ends exactly at its closing quote, whatever text
/// follows that does not start with a quote: no value can end the literal
/// early or run on into the rest of the statement.
pub proof fn lemma_literal_reads_back(s: Seq<char>, rest: Seq<char>)
    requires
        rest.len() == 0 || rest[0] != '\'',
    ensures
        read_literal_body(sql_escape(s) + seq!['\''] + rest) == Some((s, sql_escape(s).len() + 1)),
    decreases s.len(),
{
    let t = sql_escape(s) + seq!['\''] + rest;
    if s.len() == 0 {
        assert(sql_escape(s) =~= Seq::<char>::empty());
        assert(t =~= seq!['\''] + rest);
        assert(t[0] == '\'');
        assert(!(t.len() >= 2 && t[1] == '\''));
        assert(s =~= Seq::<char>::empty());
    } else {
        lemma_escape_front(s);
        lemma_literal_reads_back(s.skip(1), rest);
        let tail = sql_escape(s.skip(1)) + seq!['\''] + rest;
        if s[0] == '\'' {
            assert(t =~= seq!['\'', '\''] + tail);
            assert(t.skip(2) =~= tail);
            assert(seq!['\''] + s.skip(1) =~= s);
        } else {
            assert(t =~= seq![s[0]] + tail);
            assert(t.skip(1) =~= tail);
            assert(seq![s[0]] + s.skip(1) =~= s);
        }
    }
}

/// Appends `s` with its single quotes doubled.
pub fn push_escaped(dst: &mut Vec<char>, s: &str)
    ensures
        final(dst)@ == old(dst)@ + sql_escape(s@),
{
    let v = chars_of(s);
    let ghost base = dst@;
    let mut i: usize = 0;
    while i < v.len()
        invariant
            i <= v.len(),
            v@ == s@,
            dst@ == base + sql_escape(v@.take(i as int)),
        decreases v.len() - i,
    {
        let c = v[i];
        if c == '\'' {
            dst.push('\'');
            dst.push('\'');
        } else {
            dst.push(c);
        }
        proof {
            let p = v@.take(i as int + 1);
            assert(p.drop_last() =~= v@.take(i as int));
            assert(p.last() == c);
        }
        i += 1;
    }
    assert(v@.take(v@.len() as int) =~= v@);
}

/// Appends a SQL string literal holding `s`.
pub fn push_literal(dst: &mut Vec<char>, s: &str)
    ensures
        final(dst)@ == old(dst)@ + sql_literal(s@),
{
    dst.push('\'');
    push_escaped(dst, s);
    dst.push('\'');
}

/// Appends a literal holding the value, or `NULL` when there is none.
pub fn push_opt_literal(dst: &mut Vec<char>, o: &Option<String>)
    ensures
        final(dst)@ == old(dst)@ + opt_literal(crate::models::opt_view(*o)),
{
    match o {
        Some(s) => push_literal(dst, s.as_str()),
        None => push_str(dst, "NULL"),
    }
}

/// A UUID as a quoted literal, or `NULL` when there is none.
pub open spec fn opt_uuid_literal(o: Option<u128>) -> Seq<char> {
    match o {
        Some(id) => seq!['\''] + uuid_text(id) + seq!['\''],
        None => "NULL"@,
    }
}

/// `true` or `false`, as Rust displays a `bool`.
pub open spec fn bool_text(b: bool) -> Seq<char> {
    if b {
        "true"@
    } else {
        "false"@
    }
}

/// The decimal text of an integer, with a `-` when it is negative.
pub open spec fn int_text(i: int) -> Seq<char> {
    if i < 0 {
        seq!['-'] + nat_text((-i) as nat)
    } else {
        nat_text(i as nat)
    }
}

/// Appends the hyphenated text of a UUID.
pub fn push_uuid(dst: &mut Vec<char>, id: u128)
    ensures
        final(dst)@ == old(dst)@ + uuid_text(id),
{
    let v = uuid_chars(id);
    push_all(dst, &v);
}

/// Appends a quoted UUID, or `NULL` when there is none.
pub fn push_opt_uuid_literal(dst: &mut Vec<char>, o: Option<u128>)
    ensures
        final(dst)@ == old(dst)@ + opt_uuid_literal(o),
{
    match o {
        Some(id) => {
            dst.push('\'');
            push_uuid(dst, id);
            dst.push('\'');
        },
        None => push_str(dst, "NULL"),
    }
}

/// Appends `true` or `false`.
pub fn push_bool(dst: &mut Vec<char>, b: bool)
    ensures
        final(dst)@ == old(dst)@ + bool_text(b),
{
    if b {
        push_str(dst, "true");
    } else {
        push_str(dst, "false");
    }
}

/// Appends the decimal text of an `i64`.
pub fn push_int(dst: &mut Vec<char>, v: i64)
    ensures
        final(dst)@ == old(dst)@ + int_text(v as int),
{
    if v < 0 {
        dst.push('-');
        let mag: u128 = (0i128 - v as i128) as u128;
        push_all(dst, &text_of(mag));
    } else {
        push_all(dst, &text_of(v as u128));
    }
}

/// The text stored for an account type.
pub open spec fn account_type_text(t: AccountType) -> Seq<char> {
    match t {
        AccountType::Checking => "checking"@,
        AccountType::Savings => "savings"@,
        AccountType::CreditCard => "credit_card"@,
        AccountType::BusinessChecking => "business_checking"@,
        AccountType::BusinessSavings => "business_savings"@,
        AccountType::BusinessCredit => "business_credit"@,
    }
}

/// The account type a stored text reads as; an unknown text reads as a
/// checking account.
pub open spec fn account_type_of_text(s: Seq<char>) -> AccountType {
    if s == "checking"@ {
        AccountType::Checking
    } else if s == "savings"@ {
        AccountType::Savings
    } else if s == "credit_card"@ {
        AccountType::CreditCard
    } else if s == "business_checking"@ {
        AccountType::BusinessChecking
    } else if s == "business_savings"@ {
        AccountType::BusinessSavings
    } else if s == "business_credit"@ {
        AccountType::BusinessCredit
    } else {
        AccountType::Checking
    }
}

/// Convert AccountType to string for database storage.
pub fn account_type_to_string(account_type: &AccountType) -> (r: &'static str)
    ensures
        r@ == account_type_text(*account_type),
{
    match account_type {
        AccountType::Checking => "checking",
        AccountType::Savings => "savings",
        AccountType::CreditCard => "credit_card",
        AccountType::BusinessChecking => "business_checking",
        AccountType::BusinessSavings => "business_savings",
        AccountType::BusinessCredit => "business_credit",
    }
}

/// Reads a stored account type; an unknown text gives `Checking`.
pub fn account_type_from_string(s: &str) -> (r: AccountType)
    ensures
        r == account_type_of_text(s@),
{
    let v = chars_of(s);
    if eq_str(&v, "checking") {
        AccountType::Checking
    } else if eq_str(&v, "savings") {
        AccountType::Savings
    } else if eq_str(&v, "credit_card") {
        AccountType::CreditCard
    } else if eq_str(&v, "business_checking") {
        AccountType::BusinessChecking
    } else if eq_str(&v, "business_savings") {
        AccountType::BusinessSavings
    } else if eq_str(&v, "business_credit") {
        AccountType::BusinessCredit
    } else {
        AccountType::Checking
    }
}

/// Every account type reads back from the text it is stored as.
pub proof fn lemma_account_type_round_trip(t: AccountType)
    ensures
        account_type_of_text(account_type_text(t)) == t,
{
    reveal_strlit("checking");
    reveal_strlit("savings");
    reveal_strlit("credit_card");
    reveal_strlit("business_checking");
    reveal_strlit("business_savings");
    reveal_strlit("business_credit");
    match t {
        AccountType::Checking => {},
        AccountType::Savings => {
            assert("savings"@.len() != "checking"@.len());
        },
        AccountType::CreditCard => {
            assert("credit_card"@.len() != "checking"@.len());
            assert("credit_card"@.len() != "savings"@.len());
        },
        AccountType::BusinessChecking => {
            assert("business_checking"@.len() != "checking"@.len());
            assert("business_checking"@.len() != "savings"@.len());
            assert("business_checking"@.len() != "credit_card"@.len());
        },
        AccountType::BusinessSavings => {
            assert("business_savings"@.len() != "checking"@.len());
            assert("business_savings"@.len() != "savings"@.len());
            assert("business_savings"@.len() != "credit_card"@.len());
            assert("business_savings"@.len() != "business_checking"@.len());
        },
        AccountType::BusinessCredit => {
            assert("business_credit"@.len() != "checking"@.len());
            assert("business_credit"@.len() != "savings"@.len());
            assert("business_credit"@.len() != "credit_card"@.len());
            assert("business_credit"@.len() != "business_checking"@.len());
            assert("business_credit"@.len() != "business_savings"@.len());
        },
    }
}

/// The text stored for a category type.
pub open spec fn category_type_text(t: CategoryType) -> Seq<char> {
    match t {
        CategoryType::Income => "income"@,
        CategoryType::Expense => "expense"@,
        CategoryType::Personal => "personal"@,
    }
}

/// The category type a stored text reads as; an unknown text reads as an
/// expense category.
pub open spec fn category_type_of_text(s: Seq<char>) -> CategoryType {
    if s == "income"@ {
        CategoryType::Income
    } else if s == "expense"@ {
        CategoryType::Expense
    } else if s == "personal"@ {
        CategoryType::Personal
    } else {
        CategoryType::Expense
    }
}

/// Convert CategoryType to string for database storage.
pub fn category_type_to_string(category_type: &CategoryType) -> (r: &'static str)
    ensures
        r@ == category_type_text(*category_type),
{
    match category_type {
        CategoryType::Income => "income",
        CategoryType::Expense => "expense",
        CategoryType::Personal => "personal",
    }
}

/// Reads a stored category type; an unknown text gives `Expense`.
pub fn category_type_from_string(s: &str) -> (r: CategoryType)
    ensures
        r == category_type_of_text(s@),
{
    let v = chars_of(s);
    if eq_str(&v, "income") {
        CategoryType::Income
    } else if eq_str(&v, "expense") {
        CategoryType::Expense
    } else if eq_str(&v, "personal") {
        CategoryType::Personal
    } else {
        CategoryType::Expense
    }
}

/// Every category type reads back from the text it is stored as.
pub proof fn lemma_category_type_round_trip(t: CategoryType)
    ensures
        category_type_of_text(category_type_text(t)) == t,
{
    reveal_strlit("income");
    reveal_strlit("expense");
    reveal_strlit("personal");
    match t {
        CategoryType::Income => {},
        CategoryType::Expense => {
            assert("expense"@.len() != "income"@.len());
        },
        CategoryType::Personal => {
            assert("personal"@.len() != "income"@.len());
            assert("personal"@.len() != "expense"@.len());
        },
    }
}

/// The text stored for how a transaction got its category.
pub open spec fn categorized_by_text(c: CategorizedBy) -> Seq<char> {
    match c {
        CategorizedBy::Rule => "rule"@,
        CategorizedBy::Manual => "manual"@,
        CategorizedBy::Default => "default"@,
        CategorizedBy::Ml => "ml"@,
    }
}

/// What a stored text reads as; an unknown text reads as `Default`.
pub open spec fn categorized_by_of_text(s: Seq<char>) -> CategorizedBy {
    if s == "rule"@ {
        CategorizedBy::Rule
    } else if s == "manual"@ {
        CategorizedBy::Manual
    } else if s == "ml"@ {
        CategorizedBy::Ml
    } else {
        CategorizedBy::Default
    }
}

/// The stored text of how a transaction got its category.
pub fn categorized_by_to_string(c: &CategorizedBy) -> (r: &'static str)
    ensures
        r@ == categorized_by_text(*c),
{
    match c {
        CategorizedBy::Rule => "rule",
        CategorizedBy::Manual => "manual",
        CategorizedBy::Default => "default",
        CategorizedBy::Ml => "ml",
    }
}

/// Reads how a transaction got its category; an unknown text gives
/// `Default`.
pub fn categorized_by_from_string(s: &str) -> (r: CategorizedBy)
    ensures
        r == categorized_by_of_text(s@),
{
    let v = chars_of(s);
    if eq_str(&v, "rule") {
        CategorizedBy::Rule
    } else if eq_str(&v, "manual") {
        CategorizedBy::Manual
    } else if eq_str(&v, "ml") {
        CategorizedBy::Ml
    } else {
        CategorizedBy::Default
    }
}

/// Every value reads back from the text it is stored as.
pub proof fn lemma_categorized_by_round_trip(c: CategorizedBy)
    ensures
        categorized_by_of_text(categorized_by_text(c)) == c,
{
    reveal_strlit("rule");
    reveal_strlit("manual");
    reveal_strlit("default");
    reveal_strlit("ml");
    match c {
        CategorizedBy::Rule => {},
        CategorizedBy::Manual => {
            assert("manual"@.len() != "rule"@.len());
        },
        CategorizedBy::Ml => {
            assert("ml"@.len() != "rule"@.len());
            assert("ml"@.len() != "manual"@.len());
        },
        CategorizedBy::Default => {
            assert("default"@.len() != "rule"@.len());
            assert("default"@.len() != "manual"@.len());
            assert("default"@.len() != "ml"@.len());
        },
    }
}

} // verus!
