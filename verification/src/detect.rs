//! File format and institution detection.

use vstd::prelude::*;
use crate::error::Error;
use crate::csv_import::{looks_like_date_chars, spec_looks_like_date};
use crate::text::{
    chars_of, contains, contains_char, contains_chars, is_ascii_alphanumeric, join, join_chars,
    match_at, matches_at, newline_index, split_lines, split_lines_chars, starts_with,
    starts_with_chars, str_lowercase, string_from_chars, strip_cr, take_at_most, to_lowercase, trim,
    trim_chars, char_is_ascii_alphanumeric, views,
};

verus! {

/// Supported file formats.
#[derive(Debug, Clone, Copy, PartialEq, Eq, Structural)]
pub enum FileFormat {
    Csv,
    Qfx,
    Ofx,
    Iif,
    Unknown,
}

pub open spec fn format_name(f: FileFormat) -> Seq<char> {
    match f {
        FileFormat::Csv => "csv"@,
        FileFormat::Qfx => "qfx"@,
        FileFormat::Ofx => "ofx"@,
        FileFormat::Iif => "iif"@,
        FileFormat::Unknown => "unknown"@,
    }
}

impl FileFormat {
    pub fn as_str(&self) -> (r: &'static str)
        ensures
            r@ == format_name(*self),
    {
        match self {
            FileFormat::Csv => "csv",
            FileFormat::Qfx => "qfx",
            FileFormat::Ofx => "ofx",
            FileFormat::Iif => "iif",
            FileFormat::Unknown => "unknown",
        }
    }
}

/// The format that `content` is recognised as: IIF when the trimmed text
/// starts with an IIF header keyword, QFX for an OFX header or `<OFX>` tag,
/// CSV when the first line holds a comma and no `<` and does not start
/// with `!`, and otherwise unknown.
pub open spec fn spec_detect_format(content: Seq<char>) -> FileFormat {
    let t = trim(content);
    if starts_with(t, "!TRNS"@) || starts_with(t, "!ACCNT"@) || starts_with(t, "!SPLIT"@) {
        FileFormat::Iif
    } else if starts_with(t, "OFXHEADER"@) || contains(t, "<OFX>"@) {
        FileFormat::Qfx
    } else if split_lines(t).len() > 0 && split_lines(t)[0].contains(',') && !split_lines(
        t,
    )[0].contains('<') && !(split_lines(t)[0].len() > 0 && split_lines(t)[0][0] == '!') {
        FileFormat::Csv
    } else {
        FileFormat::Unknown
    }
}

/// Detect format from file content.
pub fn detect_format_from_content(content: &str) -> (r: Result<FileFormat, Error>)
    ensures
        r == Ok::<FileFormat, Error>(spec_detect_format(content@)),
{
    let all = chars_of(content);
    let t = trim_chars(&all);
    if starts_with_chars(&t, &chars_of("!TRNS")) || starts_with_chars(&t, &chars_of("!ACCNT"))
        || starts_with_chars(&t, &chars_of("!SPLIT")) {
        return Ok(FileFormat::Iif);
    }
    if starts_with_chars(&t, &chars_of("OFXHEADER")) || contains_chars(&t, &chars_of("<OFX>")) {
        return Ok(FileFormat::Qfx);
    }
    let lines = split_lines_chars(&t);
    if lines.len() > 0 {
        let first = &lines[0];
        assert(first@ == split_lines(t@)[0]);
        if contains_char(first, ',') && !contains_char(first, '<') && !(first.len() > 0 && first[0]
            == '!') {
            return Ok(FileFormat::Csv);
        }
    }
    Ok(FileFormat::Unknown)
}

/// The format a file extension names, read case-insensitively; `None`
/// for an extension that names none (then the content decides).
pub open spec fn format_of_extension(ext: Seq<char>) -> Option<FileFormat> {
    let l = str_lowercase(ext);
    if l == "csv"@ {
        Some(FileFormat::Csv)
    } else if l == "qfx"@ {
        Some(FileFormat::Qfx)
    } else if l == "ofx"@ {
        Some(FileFormat::Ofx)
    } else if l == "iif"@ {
        Some(FileFormat::Iif)
    } else {
        None
    }
}

/// The format a file extension names (`csv`, `qfx`, `ofx` or `iif`, in
/// any case), or `None`.
pub fn format_from_extension(ext: &str) -> (r: Option<FileFormat>)
    ensures
        r == format_of_extension(ext@),
{
    let l = to_lowercase(ext);
    let v = chars_of(l.as_str());
    if crate::text::eq_str(&v, "csv") {
        Some(FileFormat::Csv)
    } else if crate::text::eq_str(&v, "qfx") {
        Some(FileFormat::Qfx)
    } else if crate::text::eq_str(&v, "ofx") {
        Some(FileFormat::Ofx)
    } else if crate::text::eq_str(&v, "iif") {
        Some(FileFormat::Iif)
    } else {
        None
    }
}

/// Known institution identifiers.
#[derive(Debug, Clone, Copy, PartialEq, Eq, Structural)]
pub enum Institution {
    Chase,
    BankOfAmerica,
    /// Wealthfront investing / brokerage account ("Date,Amount,Description", ISO dates)
    Wealthfront,
    /// Wealthfront Individual Cash Account ("Transaction date,Description,Type,Amount", M/D/YYYY)
    WealthfrontCash,
    Ally,
    AmericanExpress,
    Discover,
    Citi,
    CapitalOne,
    SoFi,
    Unknown,
}

pub open spec fn institution_key(i: Institution) -> Seq<char> {
    match i {
        Institution::Chase => "chase"@,
        Institution::BankOfAmerica => "bank_of_america"@,
        Institution::Wealthfront => "wealthfront"@,
        Institution::WealthfrontCash => "wealthfront_cash"@,
        Institution::Ally => "ally"@,
        Institution::AmericanExpress => "american_express"@,
        Institution::Discover => "discover"@,
        Institution::Citi => "citi"@,
        Institution::CapitalOne => "capital_one"@,
        Institution::SoFi => "sofi"@,
        Institution::Unknown => "unknown"@,
    }
}

pub open spec fn institution_display(i: Institution) -> Seq<char> {
    match i {
        Institution::Chase => "Chase"@,
        Institution::BankOfAmerica => "Bank of America"@,
        Institution::Wealthfront => "Wealthfront"@,
        Institution::WealthfrontCash => "Wealthfront Cash"@,
        Institution::Ally => "Ally"@,
        Institution::AmericanExpress => "American Express"@,
        Institution::Discover => "Discover"@,
        Institution::Citi => "Citi"@,
        Institution::CapitalOne => "Capital One"@,
        Institution::SoFi => "SoFi"@,
        Institution::Unknown => "Unknown"@,
    }
}

impl Institution {
    pub fn as_str(&self) -> (r: &'static str)
        ensures
            r@ == institution_key(*self),
    {
        match self {
            Institution::Chase => "chase",
            Institution::BankOfAmerica => "bank_of_america",
            Institution::Wealthfront => "wealthfront",
            Institution::WealthfrontCash => "wealthfront_cash",
            Institution::Ally => "ally",
            Institution::AmericanExpress => "american_express",
            Institution::Discover => "discover",
            Institution::Citi => "citi",
            Institution::CapitalOne => "capital_one",
            Institution::SoFi => "sofi",
            Institution::Unknown => "unknown",
        }
    }

    pub fn display_name(&self) -> (r: &'static str)
        ensures
            r@ == institution_display(*self),
    {
        match self {
            Institution::Chase => "Chase",
            Institution::BankOfAmerica => "Bank of America",
            Institution::Wealthfront => "Wealthfront",
            Institution::WealthfrontCash => "Wealthfront Cash",
            Institution::Ally => "Ally",
            Institution::AmericanExpress => "American Express",
            Institution::Discover => "Discover",
            Institution::Citi => "Citi",
            Institution::CapitalOne => "Capital One",
            Institution::SoFi => "SoFi",
            Institution::Unknown => "Unknown",
        }
    }
}

/// `word` occurs at `i` with no ASCII letter or digit right before or after it.
pub open spec fn word_at(text: Seq<char>, word: Seq<char>, i: int) -> bool {
    &&& matches_at(text, word, i)
    &&& (i == 0 || !is_ascii_alphanumeric(text[i - 1]))
    &&& (i + word.len() >= text.len() || !is_ascii_alphanumeric(text[i + word.len()]))
}

/// Scans the non-overlapping occurrences of `word` in `text` from position
/// `i` on, left to right as `str::match_indices` yields them, for one that
/// stands as a whole word.
pub open spec fn word_found_from(text: Seq<char>, word: Seq<char>, i: int) -> bool
    decreases text.len() + 1 - i,
{
    if i < 0 || i + word.len() > text.len() {
        false
    } else if matches_at(text, word, i) {
        if word_at(text, word, i) {
            true
        } else {
            word_found_from(
                text,
                word,
                i + if word.len() > 0 {
                    word.len() as int
                } else {
                    1
                },
            )
        }
    } else {
        word_found_from(text, word, i + 1)
    }
}

/// Check if `text` contains `word` as a whole word (not as a substring of another word).
pub open spec fn spec_contains_word(text: Seq<char>, word: Seq<char>) -> bool {
    word_found_from(text, word, 0)
}

pub fn contains_word(text: &Vec<char>, word: &Vec<char>) -> (r: bool)
    ensures
        r == spec_contains_word(text@, word@),
{
    if word.len() > text.len() {
        return false;
    }
    let last = text.len() - word.len();
    let mut i: usize = 0;
    loop
        invariant
            last == text.len() - word.len(),
            i <= last,
            spec_contains_word(text@, word@) == word_found_from(text@, word@, i as int),
        decreases text.len() - i,
    {
        let step: usize = if match_at(text, word, i) {
            let before_ok = i == 0 || !char_is_ascii_alphanumeric(text[i - 1]);
            let after = i + word.len();
            let after_ok = after >= text.len() || !char_is_ascii_alphanumeric(text[after]);
            if before_ok && after_ok {
                return true;
            }
            if word.len() > 0 {
                word.len()
            } else {
                1
            }
        } else {
            1
        };
        assert(word_found_from(text@, word@, i as int) == word_found_from(
            text@,
            word@,
            i + step,
        ));
        if step > last - i {
            assert(!word_found_from(text@, word@, i + step));
            return false;
        }
        i = i + step;
    }
}

/// Institution recognised from lowercased header text: known column
/// layouts in `first` (the first three lines) first, then whole-word bank
/// names in `header` (the header lines).
pub open spec fn detect_from(first: Seq<char>, header: Seq<char>) -> Institution {
    if contains(first, "trans. date"@) && contains(first, "post date"@) {
        Institution::Discover
    } else if contains(first, "card member"@) && contains(first, "account #"@) {
        Institution::AmericanExpress
    } else if contains(first, "transaction date"@) && contains(first, ",type,"@) {
        Institution::WealthfrontCash
    } else if contains(first, "details,posting date,description,amount"@) {
        Institution::Chase
    } else if spec_contains_word(header, "chase"@) {
        Institution::Chase
    } else if contains(header, "bank of america"@) || spec_contains_word(header, "bofa"@) {
        Institution::BankOfAmerica
    } else if spec_contains_word(header, "wealthfront"@) {
        Institution::Wealthfront
    } else if spec_contains_word(header, "ally"@) {
        Institution::Ally
    } else if contains(header, "american express"@) || spec_contains_word(header, "amex"@) {
        Institution::AmericanExpress
    } else if spec_contains_word(header, "discover"@) {
        Institution::Discover
    } else if spec_contains_word(header, "citibank"@) || spec_contains_word(header, "citi"@) {
        Institution::Citi
    } else if contains(header, "capital one"@) {
        Institution::CapitalOne
    } else if spec_contains_word(header, "sofi"@) {
        Institution::SoFi
    } else {
        Institution::Unknown
    }
}

/// Whether lowercased header text names bank `i`: its name, or its short
/// name as a whole word.
pub open spec fn names_bank(header: Seq<char>, i: Institution) -> bool {
    match i {
        Institution::Chase => spec_contains_word(header, "chase"@),
        Institution::BankOfAmerica => contains(header, "bank of america"@) || spec_contains_word(
            header,
            "bofa"@,
        ),
        Institution::Wealthfront => spec_contains_word(header, "wealthfront"@),
        Institution::WealthfrontCash => false,
        Institution::Ally => spec_contains_word(header, "ally"@),
        Institution::AmericanExpress => contains(header, "american express"@) || spec_contains_word(
            header,
            "amex"@,
        ),
        Institution::Discover => spec_contains_word(header, "discover"@),
        Institution::Citi => spec_contains_word(header, "citibank"@) || spec_contains_word(header, "citi"@),
        Institution::CapitalOne => contains(header, "capital one"@),
        Institution::SoFi => spec_contains_word(header, "sofi"@),
        Institution::Unknown => false,
    }
}

/// When the first lines show no known column layout, header lines that
/// name exactly one bank select that bank, and header lines that name no
/// bank select none.
pub proof fn lemma_named_bank_is_detected(first: Seq<char>, header: Seq<char>, i: Institution)
    requires
        detect_from(first, Seq::empty()) == Institution::Unknown,
    ensures
        names_bank(header, i) && (forall|j: Institution| j != i ==> !#[trigger] names_bank(header, j))
            ==> detect_from(first, header) == i,
        (forall|j: Institution| !#[trigger] names_bank(header, j)) ==> detect_from(first, header)
            == Institution::Unknown,
{
    assert(!names_bank(Seq::empty(), Institution::Chase));
    assert(!names_bank(Seq::empty(), Institution::BankOfAmerica));
    assert(!names_bank(Seq::empty(), Institution::Wealthfront));
    assert(!names_bank(Seq::empty(), Institution::Ally));
    assert(!names_bank(Seq::empty(), Institution::AmericanExpress));
    assert(!names_bank(Seq::empty(), Institution::Discover));
    assert(!names_bank(Seq::empty(), Institution::Citi));
    assert(!names_bank(Seq::empty(), Institution::CapitalOne));
    assert(!names_bank(Seq::empty(), Institution::SoFi));
    assert(!names_bank(header, Institution::WealthfrontCash));
    assert(!names_bank(header, Institution::Unknown));
    assert(detect_from(first, Seq::empty()) == Institution::Unknown);
    if names_bank(header, i) && (forall|j: Institution| j != i ==> !#[trigger] names_bank(header, j)) {
        assert(Institution::Chase != i ==> !names_bank(header, Institution::Chase));
        assert(Institution::BankOfAmerica != i ==> !names_bank(header, Institution::BankOfAmerica));
        assert(Institution::Wealthfront != i ==> !names_bank(header, Institution::Wealthfront));
        assert(Institution::WealthfrontCash != i ==> !names_bank(header, Institution::WealthfrontCash));
        assert(Institution::Ally != i ==> !names_bank(header, Institution::Ally));
        assert(Institution::AmericanExpress != i ==> !names_bank(header, Institution::AmericanExpress));
        assert(Institution::Discover != i ==> !names_bank(header, Institution::Discover));
        assert(Institution::Citi != i ==> !names_bank(header, Institution::Citi));
        assert(Institution::CapitalOne != i ==> !names_bank(header, Institution::CapitalOne));
        assert(Institution::SoFi != i ==> !names_bank(header, Institution::SoFi));
        assert(Institution::Unknown != i ==> !names_bank(header, Institution::Unknown));
    }
    if forall|j: Institution| !#[trigger] names_bank(header, j) {
        assert(!names_bank(header, Institution::Chase));
        assert(!names_bank(header, Institution::BankOfAmerica));
        assert(!names_bank(header, Institution::Wealthfront));
        assert(!names_bank(header, Institution::WealthfrontCash));
        assert(!names_bank(header, Institution::Ally));
        assert(!names_bank(header, Institution::AmericanExpress));
        assert(!names_bank(header, Institution::Discover));
        assert(!names_bank(header, Institution::Citi));
        assert(!names_bank(header, Institution::CapitalOne));
        assert(!names_bank(header, Institution::SoFi));
        assert(!names_bank(header, Institution::Unknown));
    }
}

/// Whether lowercased first lines show the column layout of institution
/// `i`'s export.
pub open spec fn shows_layout(first: Seq<char>, i: Institution) -> bool {
    match i {
        Institution::Discover => contains(first, "trans. date"@) && contains(first, "post date"@),
        Institution::AmericanExpress => contains(first, "card member"@) && contains(first, "account #"@),
        Institution::WealthfrontCash => contains(first, "transaction date"@) && contains(first, ",type,"@),
        Institution::Chase => contains(first, "details,posting date,description,amount"@),
        _ => false,
    }
}

/// A column layout decides before any bank name: first lines that show the
/// layout of exactly one institution select it, whatever the header lines
/// name.
pub proof fn lemma_layout_decides(first: Seq<char>, header: Seq<char>, i: Institution)
    ensures
        shows_layout(first, i) && (forall|j: Institution| j != i ==> !#[trigger] shows_layout(first, j))
            ==> detect_from(first, header) == i,
{
    if shows_layout(first, i) && (forall|j: Institution| j != i ==> !#[trigger] shows_layout(first, j)) {
        assert(Institution::Discover != i ==> !shows_layout(first, Institution::Discover));
        assert(Institution::AmericanExpress != i ==> !shows_layout(first, Institution::AmericanExpress));
        assert(Institution::WealthfrontCash != i ==> !shows_layout(first, Institution::WealthfrontCash));
        assert(Institution::Chase != i ==> !shows_layout(first, Institution::Chase));
    }
}

/// The text of a line before its first comma.
pub open spec fn first_field(l: Seq<char>) -> Seq<char>
    decreases l.len(),
{
    if l.len() == 0 || l[0] == ',' {
        Seq::empty()
    } else {
        seq![l[0]] + first_field(l.drop_first())
    }
}

/// A line that holds a transaction: its first field, trimmed, looks like
/// a date.
pub open spec fn is_data_row(l: Seq<char>) -> bool {
    spec_looks_like_date(trim(first_field(l)))
}

/// How many lines come before the first one that holds a transaction.
pub open spec fn header_count(ls: Seq<Seq<char>>) -> nat
    decreases ls.len(),
{
    if ls.len() == 0 || is_data_row(ls[0]) {
        0
    } else {
        1 + header_count(ls.drop_first())
    }
}

/// The lines, each lowercased.
pub open spec fn lowered(ls: Seq<Seq<char>>) -> Seq<Seq<char>> {
    Seq::new(ls.len(), |i: int| str_lowercase(ls[i]))
}

/// The first ten lines of a text.
pub open spec fn head_lines(content: Seq<char>) -> Seq<Seq<char>> {
    take_at_most(split_lines(content), 10)
}

/// The institution detected from a text. Of its first ten lines, each
/// lowercased, the first three are searched for known column layouts;
/// bank names are searched for only in the header lines, those before the
/// first line that holds a transaction, so that a bank named in a
/// transaction's description selects nothing.
pub open spec fn spec_detect_institution(content: Seq<char>) -> Institution {
    let raw = head_lines(content);
    let low = lowered(raw);
    detect_from(
        join(take_at_most(low, 3), seq!['\n']),
        join(low.take(header_count(raw) as int), seq!['\n']),
    )
}

proof fn lemma_header_count_bound(ls: Seq<Seq<char>>)
    ensures
        header_count(ls) <= ls.len(),
        forall|i: int| 0 <= i < header_count(ls) ==> !is_data_row(#[trigger] ls[i]),
        header_count(ls) < ls.len() ==> is_data_row(ls[header_count(ls) as int]),
    decreases ls.len(),
{
    if ls.len() > 0 && !is_data_row(ls[0]) {
        lemma_header_count_bound(ls.drop_first());
        assert forall|i: int| 0 <= i < header_count(ls) implies !is_data_row(#[trigger] ls[i]) by {
            if i > 0 {
                assert(ls[i] == ls.drop_first()[i - 1]);
            }
        }
        if header_count(ls) < ls.len() {
            assert(ls[header_count(ls) as int] == ls.drop_first()[header_count(ls.drop_first()) as int]);
        }
    }
}

proof fn lemma_newline_index_props(s: Seq<char>)
    ensures
        newline_index(s) <= s.len(),
        forall|k: int| 0 <= k < newline_index(s) ==> s[k] != '\n',
        newline_index(s) < s.len() ==> s[newline_index(s) as int] == '\n',
    decreases s.len(),
{
    if s.len() > 0 && s[0] != '\n' {
        lemma_newline_index_props(s.drop_first());
        assert forall|k: int| 0 <= k < newline_index(s) implies s[k] != '\n' by {
            if k > 0 {
                assert(s[k] == s.drop_first()[k - 1]);
            }
        }
    }
}

/// The lines of a text that ends with a line break, followed by more text,
/// are its own lines followed by the lines of the rest.
proof fn lemma_split_lines_append(c: Seq<char>, s: Seq<char>)
    requires
        c.len() == 0 || c.last() == '\n',
    ensures
        split_lines(c + s) == split_lines(c) + split_lines(s),
    decreases c.len(),
{
    if c.len() == 0 {
        assert(c + s =~= s);
        assert(split_lines(c) + split_lines(s) =~= split_lines(s));
    } else {
        let t = c + s;
        lemma_newline_index_props(c);
        let n = newline_index(c);
        if n >= c.len() {
            assert(c[c.len() - 1] == '\n');
            assert(false);
        }
        assert forall|k: int| 0 <= k < n implies t[k] != '\n' by {
            assert(t[k] == c[k]);
        }
        assert(t[n as int] == c[n as int]);
        crate::text::lemma_newline_index(t, n as int);
        let rest = c.subrange(n as int + 1, c.len() as int);
        if rest.len() > 0 {
            assert(rest.last() == c.last());
        }
        lemma_split_lines_append(rest, s);
        assert(t.subrange(0, n as int) =~= c.subrange(0, n as int));
        assert(t.subrange(n as int + 1, t.len() as int) =~= rest + s);
        assert(split_lines(t) =~= seq![strip_cr(c.subrange(0, n as int))] + split_lines(rest + s));
        assert(split_lines(c) =~= seq![strip_cr(c.subrange(0, n as int))] + split_lines(rest));
        assert(split_lines(t) =~= split_lines(c) + split_lines(s));
    }
}

/// Nothing after the first ten lines affects which institution is
/// detected: a text of at least ten lines, ending with a line break,
/// detects the same institution whatever follows it.
pub proof fn lemma_detection_reads_ten_lines(c: Seq<char>, s: Seq<char>)
    requires
        c.len() > 0,
        c.last() == '\n',
        split_lines(c).len() >= 10,
    ensures
        spec_detect_institution(c + s) == spec_detect_institution(c),
{
    lemma_split_lines_append(c, s);
    assert(head_lines(c + s) =~= head_lines(c)) by {
        assert((split_lines(c) + split_lines(s)).take(10) =~= split_lines(c).take(10));
    }
}

fn has(text: &Vec<char>, lit: &str) -> (r: bool)
    ensures
        r == contains(text@, lit@),
{
    contains_chars(text, &chars_of(lit))
}

fn has_word(text: &Vec<char>, lit: &str) -> (r: bool)
    ensures
        r == spec_contains_word(text@, lit@),
{
    contains_word(text, &chars_of(lit))
}

fn first_field_of(l: &Vec<char>) -> (r: Vec<char>)
    ensures
        r@ == first_field(l@),
{
    let mut out: Vec<char> = Vec::new();
    let mut i: usize = 0;
    assert(l@.skip(0) =~= l@);
    while i < l.len() && l[i] != ','
        invariant
            i <= l.len(),
            first_field(l@) == out@ + first_field(l@.skip(i as int)),
        decreases l.len() - i,
    {
        assert(l@.skip(i as int).drop_first() =~= l@.skip(i + 1));
        assert(out@.push(l@[i as int]) + first_field(l@.skip(i + 1)) =~= out@ + (seq![l@[i as int]]
            + first_field(l@.skip(i + 1))));
        out.push(l[i]);
        i += 1;
    }
    assert(first_field(l@.skip(i as int)) =~= Seq::<char>::empty());
    assert(out@ + Seq::<char>::empty() =~= out@);
    out
}

fn data_row(l: &Vec<char>) -> (r: bool)
    ensures
        r == is_data_row(l@),
{
    let f = first_field_of(l);
    let t = trim_chars(&f);
    looks_like_date_chars(&t)
}

/// Detect institution from CSV headers or content.
///
/// Uses header-pattern matching first (most reliable), then falls back
/// to whole-word keyword matching, restricted to the header lines so that
/// bank names appearing in transaction descriptions (e.g. a transfer to
/// "Chase Bank") don't select that bank.
pub fn detect_institution(content: &str) -> (r: Institution)
    ensures
        r == spec_detect_institution(content@),
{
    let all = chars_of(content);
    let mut lines = split_lines_chars(&all);
    if lines.len() > 10 {
        let ghost before = views(lines@);
        lines.truncate(10);
        assert(views(lines@) =~= before.take(10));
    }
    let ghost raw = head_lines(content@);
    assert(views(lines@) == raw);
    // the header lines: those before the first line holding a transaction
    let mut h: usize = 0;
    proof {
        lemma_header_count_bound(raw);
    }
    while h < lines.len() && !data_row(&lines[h])
        invariant
            h <= lines.len(),
            views(lines@) == raw,
            header_count(raw) <= raw.len(),
            forall|i: int| 0 <= i < header_count(raw) ==> !is_data_row(#[trigger] raw[i]),
            header_count(raw) < raw.len() ==> is_data_row(raw[header_count(raw) as int]),
            h <= header_count(raw),
        decreases lines.len() - h,
    {
        assert(lines@[h as int]@ == raw[h as int]);
        h += 1;
    }
    assert(h == header_count(raw)) by {
        if h < header_count(raw) {
            assert(lines@[h as int]@ == raw[h as int]);
        }
    }
    let ghost low = lowered(raw);
    let mut first_parts: Vec<Vec<char>> = Vec::new();
    let mut header_parts: Vec<Vec<char>> = Vec::new();
    let mut i: usize = 0;
    while i < lines.len()
        invariant
            i <= lines.len(),
            views(lines@) == raw,
            low == lowered(raw),
            h == header_count(raw),
            h <= raw.len(),
            views(first_parts@) == low.take(if i < 3 { i as int } else { 3 }),
            views(header_parts@) == low.take(if i < h { i as int } else { h as int }),
        decreases lines.len() - i,
    {
        let line = string_from_chars(lines[i].as_slice());
        let lower = to_lowercase(line.as_str());
        assert(lines@[i as int]@ == raw[i as int]);
        assert(lower@ == low[i as int]);
        if i < 3 {
            let ghost before = views(first_parts@);
            let v = chars_of(lower.as_str());
            first_parts.push(v);
            assert(views(first_parts@) =~= before.push(low[i as int]));
            assert(low.take(i + 1) =~= low.take(i as int).push(low[i as int]));
        }
        if i < h {
            let ghost before = views(header_parts@);
            let v = chars_of(lower.as_str());
            header_parts.push(v);
            assert(views(header_parts@) =~= before.push(low[i as int]));
            assert(low.take(i + 1) =~= low.take(i as int).push(low[i as int]));
        }
        i += 1;
    }
    proof {
        if raw.len() <= 3 {
            assert(take_at_most(low, 3) =~= low.take(raw.len() as int));
        }
    }
    assert(views(first_parts@) == take_at_most(low, 3));
    let mut sep: Vec<char> = Vec::new();
    sep.push('\n');
    assert(sep@ =~= seq!['\n']);
    let first = join_chars(&first_parts, &sep);
    let header = join_chars(&header_parts, &sep);
    if has(&first, "trans. date") && has(&first, "post date") {
        return Institution::Discover;
    }
    if has(&first, "card member") && has(&first, "account #") {
        return Institution::AmericanExpress;
    }
    if has(&first, "transaction date") && has(&first, ",type,") {
        return Institution::WealthfrontCash;
    }
    if has(&first, "details,posting date,description,amount") {
        return Institution::Chase;
    }
    if has_word(&header, "chase") {
        Institution::Chase
    } else if has(&header, "bank of america") || has_word(&header, "bofa") {
        Institution::BankOfAmerica
    } else if has_word(&header, "wealthfront") {
        Institution::Wealthfront
    } else if has_word(&header, "ally") {
        Institution::Ally
    } else if has(&header, "american express") || has_word(&header, "amex") {
        Institution::AmericanExpress
    } else if has_word(&header, "discover") {
        Institution::Discover
    } else if has_word(&header, "citibank") || has_word(&header, "citi") {
        Institution::Citi
    } else if has(&header, "capital one") {
        Institution::CapitalOne
    } else if has_word(&header, "sofi") {
        Institution::SoFi
    } else {
        Institution::Unknown
    }
}

/// Institution-specific CSV column mappings.
#[derive(Clone, Copy)]
pub struct CsvMapping {
    pub date_column: usize,
    pub amount_column: usize,
    pub description_column: usize,
    pub category_column: Option<usize>,
    pub date_format: &'static str,
    pub has_header: bool,
    pub negate_amounts: bool,
}

/// The chrono format of dates such as `01/15/2024`.
pub open spec fn us_date_format() -> Seq<char> {
    "%m/%d/%Y"@
}

/// The chrono format of dates such as `2024-01-15`.
pub open spec fn iso_date_format() -> Seq<char> {
    "%Y-%m-%d"@
}

/// The column layout of an institution's export: date, amount and
/// description columns, the optional category column, whether dates are in
/// month/day/year order, and whether amounts are negated.
pub open spec fn spec_mapping(i: Institution) -> (usize, usize, usize, Option<usize>, bool, bool) {
    match i {
        Institution::Chase => (1, 3, 2, Some(4usize), true, false),
        Institution::BankOfAmerica => (0, 2, 1, None, true, false),
        Institution::Wealthfront => (0, 1, 2, None, false, false),
        Institution::WealthfrontCash => (0, 3, 1, Some(2usize), true, false),
        Institution::AmericanExpress => (0, 4, 1, None, true, true),
        Institution::Discover => (0, 3, 2, Some(4usize), true, true),
        Institution::SoFi => (0, 3, 1, Some(2usize), true, false),
        _ => (0, 1, 2, None, false, false),
    }
}

/// `m` is the mapping given by the layout tuple `t`, with a header row.
pub open spec fn mapping_is(m: CsvMapping, t: (usize, usize, usize, Option<usize>, bool, bool)) -> bool {
    &&& m.date_column == t.0
    &&& m.amount_column == t.1
    &&& m.description_column == t.2
    &&& m.category_column == t.3
    &&& m.date_format@ == (if t.4 {
        us_date_format()
    } else {
        iso_date_format()
    })
    &&& m.has_header
    &&& m.negate_amounts == t.5
}

impl Institution {
    /// Get the CSV column mapping for this institution.
    pub fn csv_mapping(&self) -> (r: CsvMapping)
        ensures
            mapping_is(r, spec_mapping(*self)),
    {
        match self {
            Institution::Chase => CsvMapping {
                date_column: 1,
                amount_column: 3,
                description_column: 2,
                category_column: Some(4),
                date_format: "%m/%d/%Y",
                has_header: true,
                negate_amounts: false,
            },
            Institution::BankOfAmerica => CsvMapping {
                date_column: 0,
                amount_column: 2,
                description_column: 1,
                category_column: None,
                date_format: "%m/%d/%Y",
                has_header: true,
                negate_amounts: false,
            },
            Institution::Wealthfront => CsvMapping {
                date_column: 0,
                amount_column: 1,
                description_column: 2,
                category_column: None,
                date_format: "%Y-%m-%d",
                has_header: true,
                negate_amounts: false,
            },
            Institution::WealthfrontCash => CsvMapping {
                date_column: 0,
                description_column: 1,
                category_column: Some(2),
                amount_column: 3,
                date_format: "%m/%d/%Y",
                has_header: true,
                negate_amounts: false,
            },
            Institution::AmericanExpress => CsvMapping {
                date_column: 0,
                amount_column: 4,
                description_column: 1,
                category_column: None,
                date_format: "%m/%d/%Y",
                has_header: true,
                negate_amounts: true,
            },
            Institution::Discover => CsvMapping {
                date_column: 0,
                amount_column: 3,
                description_column: 2,
                category_column: Some(4),
                date_format: "%m/%d/%Y",
                has_header: true,
                negate_amounts: true,
            },
            Institution::SoFi => CsvMapping {
                date_column: 0,
                amount_column: 3,
                description_column: 1,
                category_column: Some(2),
                date_format: "%m/%d/%Y",
                has_header: true,
                negate_amounts: false,
            },
            _ => CsvMapping {
                date_column: 0,
                amount_column: 1,
                description_column: 2,
                category_column: None,
                date_format: "%Y-%m-%d",
                has_header: true,
                negate_amounts: false,
            },
        }
    }
}

} // verus!
