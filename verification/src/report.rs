//! Tax-schedule reports: the IRS line labels of Schedules A, C and E, which
//! transactions count toward a line, the per-line totals and counts, and
//! the year comparison.

use vstd::prelude::*;
use crate::category::{Category, CategoryType, default_spec};
use crate::models::{Transaction, opt_view};
use crate::money::{Money, checked_add, checked_sub, decimal_difference, decimal_sum, money_triple};
use crate::text::{chars_of, eq_chars, eq_str, is_ascii_digit, push_all, starts_with, starts_with_chars, string_from_chars, trim, trim_chars};

verus! {

/// IRS line codes and labels of a schedule, in form order; no lines for an
/// unknown schedule.
pub open spec fn schedule_labels(schedule: Seq<char>) -> Seq<(&'static str, &'static str)> {
    if schedule == "A"@ {
        seq![
            ("A-1", "Medical and dental expenses"),
            ("A-5a", "State/local income taxes"),
            ("A-5b", "Personal property taxes"),
            ("A-5c", "Real estate taxes"),
            ("A-8a", "Home mortgage interest"),
            ("A-10", "Mortgage insurance premiums"),
            ("A-12", "Charitable contributions - cash"),
            ("A-13", "Charitable contributions - non-cash"),
            ("A-15", "Casualty and theft losses"),
            ("A-16", "Other itemized deductions"),
        ]
    } else if schedule == "C"@ {
        seq![
            ("L8", "Advertising"),
            ("L9", "Car and truck expenses"),
            ("L10", "Commissions and fees"),
            ("L11", "Contract labor"),
            ("L15", "Insurance"),
            ("L17", "Legal and professional services"),
            ("L18", "Office expense"),
            ("L20b", "Rent or lease - other business property"),
            ("L22", "Supplies"),
            ("L24a", "Travel"),
            ("L24b", "Meals (subject to 50% limitation)"),
            ("L25", "Utilities"),
            ("L27a", "Other expenses"),
        ]
    } else if schedule == "E"@ {
        seq![
            ("E-3", "Rents received"),
            ("E-5", "Advertising"),
            ("E-6", "Auto and travel"),
            ("E-7", "Cleaning and maintenance"),
            ("E-8", "Commissions"),
            ("E-9", "Insurance"),
            ("E-10", "Legal and professional fees"),
            ("E-11", "Management fees"),
            ("E-12", "Mortgage interest paid"),
            ("E-13", "Other interest"),
            ("E-14", "Repairs"),
            ("E-15", "Supplies"),
            ("E-16", "Taxes"),
            ("E-17", "Utilities"),
            ("E-18", "Depreciation expense"),
            ("E-19", "Other"),
        ]
    } else {
        seq![]
    }
}

/// IRS line item labels for each schedule.
pub fn schedule_line_labels(schedule: &str) -> (r: Vec<(&'static str, &'static str)>)
    ensures
        r@ == schedule_labels(schedule@),
{
    let s = chars_of(schedule);
    if eq_str(&s, "A") {
        vec![
            ("A-1", "Medical and dental expenses"),
            ("A-5a", "State/local income taxes"),
            ("A-5b", "Personal property taxes"),
            ("A-5c", "Real estate taxes"),
            ("A-8a", "Home mortgage interest"),
            ("A-10", "Mortgage insurance premiums"),
            ("A-12", "Charitable contributions - cash"),
            ("A-13", "Charitable contributions - non-cash"),
            ("A-15", "Casualty and theft losses"),
            ("A-16", "Other itemized deductions"),
        ]
    } else if eq_str(&s, "C") {
        vec![
            ("L8", "Advertising"),
            ("L9", "Car and truck expenses"),
            ("L10", "Commissions and fees"),
            ("L11", "Contract labor"),
            ("L15", "Insurance"),
            ("L17", "Legal and professional services"),
            ("L18", "Office expense"),
            ("L20b", "Rent or lease - other business property"),
            ("L22", "Supplies"),
            ("L24a", "Travel"),
            ("L24b", "Meals (subject to 50% limitation)"),
            ("L25", "Utilities"),
            ("L27a", "Other expenses"),
        ]
    } else if eq_str(&s, "E") {
        vec![
            ("E-3", "Rents received"),
            ("E-5", "Advertising"),
            ("E-6", "Auto and travel"),
            ("E-7", "Cleaning and maintenance"),
            ("E-8", "Commissions"),
            ("E-9", "Insurance"),
            ("E-10", "Legal and professional fees"),
            ("E-11", "Management fees"),
            ("E-12", "Mortgage interest paid"),
            ("E-13", "Other interest"),
            ("E-14", "Repairs"),
            ("E-15", "Supplies"),
            ("E-16", "Taxes"),
            ("E-17", "Utilities"),
            ("E-18", "Depreciation expense"),
            ("E-19", "Other"),
        ]
    } else {
        Vec::new()
    }
}

/// Whether a stored line code belongs to a schedule: Schedule C codes are
/// stored as `L8`, `L9`, ..., the others with the schedule letter and `-`
/// in front.
pub open spec fn in_schedule(line: Seq<char>, schedule: Seq<char>) -> bool {
    if schedule == "C"@ {
        line.len() > 0 && line[0] == 'L'
    } else {
        starts_with(line, schedule + "-"@)
    }
}

/// Whether a stored line code belongs to a schedule.
pub fn line_in_schedule(line: &str, schedule: &str) -> (r: bool)
    ensures
        r == in_schedule(line@, schedule@),
{
    let l = chars_of(line);
    let s = chars_of(schedule);
    if eq_str(&s, "C") {
        l.len() > 0 && l[0] == 'L'
    } else {
        let mut p = s;
        p.push('-');
        assert(p@ =~= schedule@ + "-"@) by {
            reveal_strlit("-");
        }
        crate::text::starts_with_chars(&l, &p)
    }
}

/// `s` with every occurrence of `p` replaced by `r`, scanning from the
/// left without overlaps, as `str::replace` does for a nonempty pattern.
pub open spec fn replace_all(s: Seq<char>, p: Seq<char>, r: Seq<char>) -> Seq<char>
    decreases s.len(),
{
    if p.len() == 0 || s.len() < p.len() {
        s
    } else if s.take(p.len() as int) == p {
        r + replace_all(s.skip(p.len() as int), p, r)
    } else {
        seq![s[0]] + replace_all(s.skip(1), p, r)
    }
}

/// The line number as a form shows it: Schedule C codes as they are,
/// others with `X-` replaced by `L` (`A-5a` shows as `L5a`).
pub open spec fn shown_line(code: Seq<char>, schedule: Seq<char>) -> Seq<char> {
    if schedule == "C"@ {
        code
    } else {
        replace_all(code, schedule + "-"@, "L"@)
    }
}

/// The line number as a form shows it.
pub fn display_line(code: &str, schedule: &str) -> (r: String)
    ensures
        r@ == shown_line(code@, schedule@),
{
    let c = chars_of(code);
    let s = chars_of(schedule);
    if eq_str(&s, "C") {
        return code.to_owned();
    }
    let mut p = s;
    p.push('-');
    assert(p@ =~= schedule@ + "-"@) by {
        reveal_strlit("-");
    }
    let ghost pat = p@;
    let ghost whole = replace_all(c@, pat, "L"@);
    let mut out: Vec<char> = Vec::new();
    let mut i: usize = 0;
    assert(c@.skip(0) =~= c@);
    assert(out@ + whole =~= whole);
    while i < c.len()
        invariant
            i <= c.len(),
            pat == p@,
            pat.len() > 0,
            whole == replace_all(c@, pat, "L"@),
            out@ + replace_all(c@.skip(i as int), pat, "L"@) == whole,
        decreases c.len() - i,
    {
        let ghost rest = c@.skip(i as int);
        if c.len() - i >= p.len() && crate::text::match_at(&c, &p, i) {
            proof {
                assert(rest.take(pat.len() as int) =~= c@.subrange(i as int, i + pat.len()));
                assert(rest.skip(pat.len() as int) =~= c@.skip(i + pat.len()));
                reveal_strlit("L");
                assert(out@ + seq!['L'] + replace_all(c@.skip(i + pat.len()), pat, "L"@) =~= out@ + (
                "L"@ + replace_all(rest.skip(pat.len() as int), pat, "L"@)));
            }
            out.push('L');
            i = i + p.len();
        } else {
            proof {
                if rest.len() >= pat.len() {
                    assert(rest.take(pat.len() as int) =~= c@.subrange(i as int, i + pat.len()));
                }
                assert(rest.skip(1) =~= c@.skip(i + 1));
                assert(out@.push(c@[i as int]) + replace_all(c@.skip(i + 1), pat, "L"@) =~= out@ + (
                seq![rest[0]] + replace_all(rest.skip(1), pat, "L"@)));
            }
            out.push(c[i]);
            i = i + 1;
        }
    }
    proof {
        assert(c@.skip(i as int) =~= Seq::<char>::empty());
        assert(out@ + Seq::<char>::empty() =~= out@);
    }
    string_from_chars(out.as_slice())
}

/// Index of the first of `cats[..n]` with id `id`.
pub open spec fn first_with_id(cats: Seq<Category>, id: u128, n: nat) -> Option<int>
    decreases n,
{
    if n == 0 {
        None
    } else {
        match first_with_id(cats, id, (n - 1) as nat) {
            Some(j) => Some(j),
            None => if cats[n - 1].id == id {
                Some(n - 1)
            } else {
                None
            },
        }
    }
}

proof fn lemma_first_with_id_stable(cats: Seq<Category>, id: u128, a: nat, b: nat)
    requires
        a <= b,
        first_with_id(cats, id, a) is Some,
    ensures
        first_with_id(cats, id, b) == first_with_id(cats, id, a),
    decreases b,
{
    if b > a {
        lemma_first_with_id_stable(cats, id, a, (b - 1) as nat);
    }
}

/// The first category with the given id.
pub fn find_category(cats: &Vec<Category>, id: u128) -> (r: Option<usize>)
    ensures
        match r {
            Some(j) => first_with_id(cats@, id, cats@.len()) == Some(j as int) && j < cats@.len()
                && cats@[j as int].id == id,
            None => first_with_id(cats@, id, cats@.len()) is None,
        },
{
    let mut j: usize = 0;
    while j < cats.len()
        invariant
            j <= cats.len(),
            first_with_id(cats@, id, j as nat) is None,
        decreases cats.len() - j,
    {
        if cats[j].id == id {
            proof {
                lemma_first_with_id_stable(cats@, id, (j + 1) as nat, cats@.len());
            }
            return Some(j);
        }
        j += 1;
    }
    None
}

/// The schedule line a transaction is counted under: that of its category
/// (the first with its id) when it has one, else its own.
pub open spec fn counted_line(t: Transaction, cats: Seq<Category>) -> Option<Seq<char>> {
    match t.category_id {
        Some(cid) => match first_with_id(cats, cid, cats.len()) {
            Some(j) => opt_view(cats[j].schedule_c_line),
            None => None,
        },
        None => opt_view(t.schedule_c_line),
    }
}

/// Whether a transaction counts toward line `code` of a schedule.
pub open spec fn counts_toward(t: Transaction, cats: Seq<Category>, schedule: Seq<char>, code: Seq<char>) -> bool {
    counted_line(t, cats) == Some(code) && in_schedule(code, schedule)
}

/// A transaction counts toward at most one line: the one its category (or,
/// uncategorized, its own) schedule line names.
pub proof fn lemma_counts_toward_one_line(
    t: Transaction,
    cats: Seq<Category>,
    schedule: Seq<char>,
    code1: Seq<char>,
    code2: Seq<char>,
)
    requires
        counts_toward(t, cats, schedule, code1),
        counts_toward(t, cats, schedule, code2),
    ensures
        code1 == code2,
{
}

/// Schedules A, C and E share no line code, so no transaction counts
/// toward two of them.
pub proof fn lemma_schedules_disjoint(line: Seq<char>, s1: Seq<char>, s2: Seq<char>)
    requires
        s1 == "A"@ || s1 == "C"@ || s1 == "E"@,
        s2 == "A"@ || s2 == "C"@ || s2 == "E"@,
        s1 != s2,
    ensures
        !(in_schedule(line, s1) && in_schedule(line, s2)),
{
    reveal_strlit("A");
    reveal_strlit("C");
    reveal_strlit("E");
    reveal_strlit("-");
    if in_schedule(line, s1) && in_schedule(line, s2) {
        assert(line[0] == (if s1 == "C"@ { 'L' } else { s1[0] })) by {
            if s1 != "C"@ {
                assert(line.subrange(0, 2)[0] == (s1 + "-"@)[0]);
            }
        }
        assert(line[0] == (if s2 == "C"@ { 'L' } else { s2[0] })) by {
            if s2 != "C"@ {
                assert(line.subrange(0, 2)[0] == (s2 + "-"@)[0]);
            }
        }
    }
}

/// The total (as decimal sums from zero, in transaction order; `None`
/// once one overflows) and the number of the first `n` transactions that
/// count toward line `code`.
pub open spec fn line_fold(
    txs: Seq<Transaction>,
    cats: Seq<Category>,
    schedule: Seq<char>,
    code: Seq<char>,
    n: nat,
) -> (Option<(bool, nat, nat)>, nat)
    decreases n,
{
    if n == 0 {
        (Some((false, 0, 0)), 0)
    } else {
        let (acc, count) = line_fold(txs, cats, schedule, code, (n - 1) as nat);
        if counts_toward(txs[n - 1], cats, schedule, code) {
            (
                match acc {
                    Some(a) => decimal_sum(a, money_triple(txs[n - 1].amount)),
                    None => None,
                },
                count + 1,
            )
        } else {
            (acc, count)
        }
    }
}

proof fn lemma_line_fold_count(txs: Seq<Transaction>, cats: Seq<Category>, schedule: Seq<char>, code: Seq<char>, n: nat)
    ensures
        line_fold(txs, cats, schedule, code, n).1 <= n,
    decreases n,
{
    if n > 0 {
        lemma_line_fold_count(txs, cats, schedule, code, (n - 1) as nat);
    }
}

proof fn lemma_line_fold_none(
    txs: Seq<Transaction>,
    cats: Seq<Category>,
    schedule: Seq<char>,
    code: Seq<char>,
    a: nat,
    b: nat,
)
    requires
        a <= b,
        line_fold(txs, cats, schedule, code, a).0 is None,
    ensures
        line_fold(txs, cats, schedule, code, b).0 is None,
    decreases b,
{
    if b > a {
        lemma_line_fold_none(txs, cats, schedule, code, a, (b - 1) as nat);
    }
}

fn counts_toward_line(t: &Transaction, cats: &Vec<Category>, code: &Vec<char>, in_sched: bool) -> (r: bool)
    ensures
        r == (counted_line(*t, cats@) == Some(code@) && in_sched),
{
    if !in_sched {
        return false;
    }
    match t.category_id {
        Some(cid) => match find_category(cats, cid) {
            Some(j) => match &cats[j].schedule_c_line {
                Some(l) => eq_chars(&chars_of(l.as_str()), code),
                None => false,
            },
            None => false,
        },
        None => match &t.schedule_c_line {
            Some(l) => eq_chars(&chars_of(l.as_str()), code),
            None => false,
        },
    }
}

/// The total and count of the transactions that count toward one line;
/// `None` when the total overflows.
pub fn line_total(txs: &Vec<Transaction>, cats: &Vec<Category>, schedule: &str, code: &str) -> (r: Option<(Money, usize)>)
    requires
        forall|i: int| 0 <= i < txs@.len() ==> (#[trigger] txs@[i]).amount.wf(),
    ensures
        match r {
            Some((m, c)) => line_fold(txs@, cats@, schedule@, code@, txs@.len()).0 == Some(money_triple(m))
                && c == line_fold(txs@, cats@, schedule@, code@, txs@.len()).1 && m.wf(),
            None => line_fold(txs@, cats@, schedule@, code@, txs@.len()).0 is None,
        },
{
    let in_sched = line_in_schedule(code, schedule);
    let code_chars = chars_of(code);
    let mut total = Money::zero();
    let mut count: usize = 0;
    let mut i: usize = 0;
    while i < txs.len()
        invariant
            i <= txs.len(),
            in_sched == in_schedule(code@, schedule@),
            code_chars@ == code@,
            forall|k: int| 0 <= k < txs@.len() ==> (#[trigger] txs@[k]).amount.wf(),
            line_fold(txs@, cats@, schedule@, code@, i as nat).0 == Some(money_triple(total)),
            line_fold(txs@, cats@, schedule@, code@, i as nat).1 == count,
            total.wf(),
        decreases txs.len() - i,
    {
        proof {
            lemma_line_fold_count(txs@, cats@, schedule@, code@, i as nat);
        }
        if counts_toward_line(&txs[i], cats, &code_chars, in_sched) {
            match checked_add(&total, &txs[i].amount) {
                Some(m) => {
                    total = m;
                    count = count + 1;
                },
                None => {
                    proof {
                        lemma_line_fold_none(txs@, cats@, schedule@, code@, (i + 1) as nat, txs@.len());
                    }
                    return None;
                },
            }
        }
        i += 1;
    }
    Some((total, count))
}

/// The total and count of each line of a schedule, in label order; `None`
/// when the total of some line overflows.
pub fn schedule_line_totals(txs: &Vec<Transaction>, cats: &Vec<Category>, schedule: &str) -> (r: Option<Vec<(Money, usize)>>)
    requires
        forall|i: int| 0 <= i < txs@.len() ==> (#[trigger] txs@[i]).amount.wf(),
    ensures
        match r {
            Some(v) => v@.len() == schedule_labels(schedule@).len() && forall|i: int|
                0 <= i < v@.len() ==> {
                    let f = line_fold(txs@, cats@, schedule@, schedule_labels(schedule@)[i].0@, txs@.len());
                    &&& f.0 == Some(money_triple((#[trigger] v@[i]).0))
                    &&& f.1 == v@[i].1
                    &&& v@[i].0.wf()
                },
            None => exists|i: int|
                0 <= i < schedule_labels(schedule@).len() && (#[trigger] line_fold(
                    txs@,
                    cats@,
                    schedule@,
                    schedule_labels(schedule@)[i].0@,
                    txs@.len(),
                )).0 is None,
        },
{
    let labels = schedule_line_labels(schedule);
    let mut out: Vec<(Money, usize)> = Vec::new();
    let mut i: usize = 0;
    while i < labels.len()
        invariant
            i <= labels.len(),
            labels@ == schedule_labels(schedule@),
            forall|k: int| 0 <= k < txs@.len() ==> (#[trigger] txs@[k]).amount.wf(),
            out@.len() == i,
            forall|k: int|
                0 <= k < i ==> {
                    let f = line_fold(txs@, cats@, schedule@, labels@[k].0@, txs@.len());
                    &&& f.0 == Some(money_triple((#[trigger] out@[k]).0))
                    &&& f.1 == out@[k].1
                    &&& out@[k].0.wf()
                },
        decreases labels.len() - i,
    {
        let (code, _) = labels[i];
        match line_total(txs, cats, schedule, code) {
            Some(t) => out.push(t),
            None => {
                assert(line_fold(txs@, cats@, schedule@, schedule_labels(schedule@)[i as int].0@, txs@.len()).0 is None);
                return None;
            },
        }
        i += 1;
    }
    Some(out)
}

/// Totals of the line amounts of a schedule, as decimal sums from zero in
/// line order: of the positive amounts (income), of the others
/// (expenses), and of all; `None` once a sum overflows.
pub open spec fn totals_fold(lines: Seq<(Money, usize)>, n: nat) -> Option<((bool, nat, nat), (bool, nat, nat), (bool, nat, nat))>
    decreases n,
{
    if n == 0 {
        Some(((false, 0, 0), (false, 0, 0), (false, 0, 0)))
    } else {
        match totals_fold(lines, (n - 1) as nat) {
            Some((inc, exp, all)) => {
                let a = money_triple(lines[n - 1].0);
                let side = if lines[n - 1].0.spec_is_income() {
                    decimal_sum(inc, a)
                } else {
                    decimal_sum(exp, a)
                };
                match (side, decimal_sum(all, a)) {
                    (Some(s), Some(t)) => if lines[n - 1].0.spec_is_income() {
                        Some((s, exp, t))
                    } else {
                        Some((inc, s, t))
                    },
                    _ => None,
                }
            },
            None => None,
        }
    }
}

proof fn lemma_totals_fold_none(lines: Seq<(Money, usize)>, a: nat, b: nat)
    requires
        a <= b,
        totals_fold(lines, a) is None,
    ensures
        totals_fold(lines, b) is None,
    decreases b,
{
    if b > a {
        lemma_totals_fold_none(lines, a, (b - 1) as nat);
    }
}

/// Income, expense and grand totals of a schedule's lines.
pub fn schedule_totals(lines: &Vec<(Money, usize)>) -> (r: Option<(Money, Money, Money)>)
    requires
        forall|i: int| 0 <= i < lines@.len() ==> (#[trigger] lines@[i]).0.wf(),
    ensures
        match r {
            Some((inc, exp, all)) => totals_fold(lines@, lines@.len()) == Some(
                (money_triple(inc), money_triple(exp), money_triple(all)),
            ) && inc.wf() && exp.wf() && all.wf(),
            None => totals_fold(lines@, lines@.len()) is None,
        },
{
    let mut inc = Money::zero();
    let mut exp = Money::zero();
    let mut all = Money::zero();
    let mut i: usize = 0;
    while i < lines.len()
        invariant
            i <= lines.len(),
            forall|k: int| 0 <= k < lines@.len() ==> (#[trigger] lines@[k]).0.wf(),
            totals_fold(lines@, i as nat) == Some((money_triple(inc), money_triple(exp), money_triple(all))),
            inc.wf(),
            exp.wf(),
            all.wf(),
        decreases lines.len() - i,
    {
        let a = lines[i].0;
        let income = a.is_income();
        let side = if income {
            checked_add(&inc, &a)
        } else {
            checked_add(&exp, &a)
        };
        let total = checked_add(&all, &a);
        match (side, total) {
            (Some(s), Some(t)) => {
                if income {
                    inc = s;
                } else {
                    exp = s;
                }
                all = t;
            },
            _ => {
                proof {
                    lemma_totals_fold_none(lines@, (i + 1) as nat, lines@.len());
                }
                return None;
            },
        }
        i += 1;
    }
    Some((inc, exp, all))
}

/// The change between the first and the last of a year's amounts:
/// `last - first`, `None` when the difference overflows.
pub fn year_change(amounts: &Vec<Money>) -> (r: Option<Money>)
    requires
        amounts@.len() >= 2,
        forall|i: int| 0 <= i < amounts@.len() ==> (#[trigger] amounts@[i]).wf(),
    ensures
        match r {
            Some(m) => decimal_difference(
                money_triple(amounts@.last()),
                money_triple(amounts@[0]),
            ) == Some(money_triple(m)),
            None => decimal_difference(money_triple(amounts@.last()), money_triple(amounts@[0])) is None,
        },
{
    let last = amounts[amounts.len() - 1];
    checked_sub(&last, &amounts[0])
}

/// Title of a schedule in the year comparison.
pub open spec fn schedule_title_text(schedule: Seq<char>) -> Seq<char> {
    if schedule == "A"@ {
        "Schedule A - Itemized Deductions"@
    } else if schedule == "C"@ {
        "Schedule C - Self-Employment"@
    } else if schedule == "E"@ {
        "Schedule E - Rental Real Estate"@
    } else {
        "Unknown Schedule"@
    }
}

/// Title of a schedule in the year comparison.
pub fn schedule_title(schedule: &str) -> (r: &'static str)
    ensures
        r@ == schedule_title_text(schedule@),
{
    let s = chars_of(schedule);
    if eq_str(&s, "A") {
        "Schedule A - Itemized Deductions"
    } else if eq_str(&s, "C") {
        "Schedule C - Self-Employment"
    } else if eq_str(&s, "E") {
        "Schedule E - Rental Real Estate"
    } else {
        "Unknown Schedule"
    }
}

/// A schedule as a comparison names it: the letters `a`, `c` and `e`
/// stand for `A`, `C` and `E`.
pub open spec fn schedule_letter(s: Seq<char>) -> Seq<char> {
    if s == "a"@ {
        "A"@
    } else if s == "c"@ {
        "C"@
    } else if s == "e"@ {
        "E"@
    } else {
        s
    }
}

/// The schedules a comparison covers: `all` stands for A, C and E, and a
/// lowercase letter for its schedule.
pub fn compare_schedules(schedule: &str) -> (r: Vec<String>)
    ensures
        schedule@ == "all"@ ==> r@.len() == 3 && r@[0]@ == "A"@ && r@[1]@ == "C"@ && r@[2]@ == "E"@,
        schedule@ != "all"@ ==> r@.len() == 1 && r@[0]@ == schedule_letter(schedule@),
{
    let s = chars_of(schedule);
    let mut r: Vec<String> = Vec::new();
    if eq_str(&s, "all") {
        r.push("A".to_owned());
        r.push("C".to_owned());
        r.push("E".to_owned());
    } else if eq_str(&s, "a") {
        r.push("A".to_owned());
    } else if eq_str(&s, "c") {
        r.push("C".to_owned());
    } else if eq_str(&s, "e") {
        r.push("E".to_owned());
    } else {
        r.push(schedule.to_owned());
    }
    r
}

/// The pieces of `s` between the separators `c`, as `str::split` yields
/// them: one more piece than there are separators.
pub open spec fn split_on(s: Seq<char>, c: char) -> Seq<Seq<char>>
    decreases s.len(),
{
    if s.len() == 0 {
        seq![Seq::empty()]
    } else {
        let prev = split_on(s.drop_last(), c);
        if s.last() == c {
            prev.push(Seq::empty())
        } else {
            prev.update(prev.len() - 1, prev.last().push(s.last()))
        }
    }
}

proof fn lemma_split_on_nonempty(s: Seq<char>, c: char)
    ensures
        split_on(s, c).len() >= 1,
    decreases s.len(),
{
    if s.len() > 0 {
        lemma_split_on_nonempty(s.drop_last(), c);
    }
}

/// The value of a run of decimal digits.
pub open spec fn digits_value(d: Seq<char>) -> nat
    decreases d.len(),
{
    if d.len() == 0 {
        0
    } else {
        digits_value(d.drop_last()) * 10 + (d.last() as nat - '0' as nat) as nat
    }
}

/// Every character is an ASCII digit.
pub open spec fn all_digits(d: Seq<char>) -> bool {
    forall|i: int| 0 <= i < d.len() ==> is_ascii_digit(#[trigger] d[i])
}

/// What `str::parse::<i32>` gives for a text: an optional `+` or `-` sign
/// followed by at least one ASCII digit, whose value fits an `i32`;
/// anything else is an error (`None`).
pub open spec fn i32_of_text(s: Seq<char>) -> Option<i32> {
    let signed = s.len() > 0 && (s[0] == '-' || s[0] == '+');
    let body = if signed {
        s.skip(1)
    } else {
        s
    };
    let v: int = if s.len() > 0 && s[0] == '-' {
        -(digits_value(body) as int)
    } else {
        digits_value(body) as int
    };
    if body.len() == 0 || !all_digits(body) || v < i32::MIN || v > i32::MAX {
        None
    } else {
        Some(v as i32)
    }
}

proof fn lemma_digits_value_prefix(d: Seq<char>, i: int)
    requires
        0 <= i <= d.len(),
        all_digits(d),
    ensures
        digits_value(d.take(i)) <= digits_value(d),
    decreases d.len(),
{
    if i < d.len() {
        assert(all_digits(d.drop_last())) by {
            assert forall|k: int| 0 <= k < d.drop_last().len() implies is_ascii_digit(#[trigger] d.drop_last()[k]) by {
                assert(d.drop_last()[k] == d[k]);
            }
        }
        lemma_digits_value_prefix(d.drop_last(), i);
        assert(d.drop_last().take(i) =~= d.take(i));
    } else {
        assert(d.take(i) =~= d);
    }
}

/// Parses an `i32` as `str::parse::<i32>` does.
fn parse_i32(s: &Vec<char>) -> (r: Option<i32>)
    ensures
        r == i32_of_text(s@),
{
    let neg = s.len() > 0 && s[0] == '-';
    let start: usize = if s.len() > 0 && (s[0] == '-' || s[0] == '+') {
        1
    } else {
        0
    };
    let ghost body = s@.skip(start as int);
    proof {
        assert(s@.skip(0) =~= s@);
        assert(body == (if s@.len() > 0 && (s@[0] == '-' || s@[0] == '+') {
            s@.skip(1)
        } else {
            s@
        }));
        assert(neg == (s@.len() > 0 && s@[0] == '-'));
    }
    if start == s.len() {
        return None;
    }
    let mut acc: i64 = 0;
    let mut i: usize = start;
    while i < s.len()
        invariant
            start <= i <= s.len(),
            body == s@.skip(start as int),
            body == (if s@.len() > 0 && (s@[0] == '-' || s@[0] == '+') {
                s@.skip(1)
            } else {
                s@
            }),
            neg == (s@.len() > 0 && s@[0] == '-'),
            acc == digits_value(body.take(i - start)),
            acc <= 2147483648,
            all_digits(body.take(i - start)),
        decreases s.len() - i,
    {
        let c = s[i];
        if !('0' <= c && c <= '9') {
            proof {
                assert(body[i - start] == c);
                assert(!is_ascii_digit(body[i - start]));
                assert(!all_digits(body));
            }
            return None;
        }
        proof {
            let p = body.take(i - start + 1);
            assert(p.drop_last() =~= body.take(i - start));
            assert(p.last() == c);
            assert(all_digits(p)) by {
                assert forall|k: int| 0 <= k < p.len() implies is_ascii_digit(#[trigger] p[k]) by {
                    if k < p.len() - 1 {
                        assert(p[k] == body.take(i - start)[k]);
                    }
                }
            }
        }
        let d = (c as u32 - '0' as u32) as i64;
        acc = acc * 10 + d;
        if acc > 2147483648 {
            proof {
                if all_digits(body) {
                    lemma_digits_value_prefix(body, i - start + 1);
                }
            }
            return None;
        }
        i += 1;
    }
    proof {
        assert(body.take(i - start) =~= body);
    }
    if neg {
        Some((0 - acc) as i32)
    } else if acc > 2147483647 {
        None
    } else {
        Some(acc as i32)
    }
}

/// The years read from comma-separated pieces: each piece trimmed and
/// parsed as an `i32`, pieces that do not parse left out.
pub open spec fn years_of(pieces: Seq<Seq<char>>) -> Seq<i32>
    decreases pieces.len(),
{
    if pieces.len() == 0 {
        Seq::empty()
    } else {
        let prev = years_of(pieces.drop_last());
        match i32_of_text(trim(pieces.last())) {
            Some(y) => prev.push(y),
            None => prev,
        }
    }
}

fn year_of_piece(piece: &Vec<char>) -> (r: Option<i32>)
    ensures
        r == i32_of_text(trim(piece@)),
{
    let t = trim_chars(piece);
    parse_i32(&t)
}

/// The years of a comma-separated list such as `2023,2024,2025`; pieces
/// that are no year are left out.
pub fn parse_years(years: &str) -> (r: Vec<i32>)
    ensures
        r@ == years_of(split_on(years@, ',')),
{
    let v = chars_of(years);
    let mut out: Vec<i32> = Vec::new();
    let mut cur: Vec<char> = Vec::new();
    let mut i: usize = 0;
    proof {
        assert(v@.take(0) =~= Seq::<char>::empty());
    }
    while i < v.len()
        invariant
            i <= v.len(),
            v@ == years@,
            split_on(v@.take(i as int), ',').len() >= 1,
            out@ == years_of(split_on(v@.take(i as int), ',').drop_last()),
            cur@ == split_on(v@.take(i as int), ',').last(),
        decreases v.len() - i,
    {
        let ghost prev = split_on(v@.take(i as int), ',');
        proof {
            assert(v@.take(i + 1).drop_last() =~= v@.take(i as int));
            lemma_split_on_nonempty(v@.take(i + 1), ',');
        }
        if v[i] == ',' {
            match year_of_piece(&cur) {
                Some(y) => out.push(y),
                None => {},
            }
            proof {
                assert(prev.push(Seq::<char>::empty()).drop_last() =~= prev);
                assert(prev.drop_last().push(prev.last()) =~= prev);
            }
            cur = Vec::new();
            assert(cur@ =~= Seq::<char>::empty());
        } else {
            cur.push(v[i]);
            proof {
                let next = prev.update(prev.len() - 1, prev.last().push(v@[i as int]));
                assert(next.drop_last() =~= prev.drop_last());
            }
        }
        i += 1;
    }
    proof {
        let all = split_on(v@.take(i as int), ',');
        assert(v@.take(i as int) =~= v@);
        assert(all.drop_last().push(all.last()) =~= all);
    }
    match year_of_piece(&cur) {
        Some(y) => out.push(y),
        None => {},
    }
    out
}

/// How many of the first `n` transactions have no category.
pub open spec fn uncategorized_in(txs: Seq<Transaction>, n: nat) -> nat
    decreases n,
{
    if n == 0 {
        0
    } else {
        uncategorized_in(txs, (n - 1) as nat) + if txs[n - 1].category_id is None {
            1nat
        } else {
            0nat
        }
    }
}

/// How many of the first `n` transactions have neither a category nor a
/// schedule line of their own.
pub open spec fn unmapped_in(txs: Seq<Transaction>, n: nat) -> nat
    decreases n,
{
    if n == 0 {
        0
    } else {
        unmapped_in(txs, (n - 1) as nat) + if txs[n - 1].category_id is None
            && txs[n - 1].schedule_c_line is None {
            1nat
        } else {
            0nat
        }
    }
}

/// How many transactions have no category (they are left out of the
/// profit and loss report).
pub fn count_uncategorized(txs: &Vec<Transaction>) -> (r: usize)
    ensures
        r == uncategorized_in(txs@, txs@.len()),
{
    let mut c: usize = 0;
    let mut i: usize = 0;
    while i < txs.len()
        invariant
            i <= txs.len(),
            c == uncategorized_in(txs@, i as nat),
            c <= i,
        decreases txs.len() - i,
    {
        if txs[i].category_id.is_none() {
            c = c + 1;
        }
        i += 1;
    }
    c
}

/// How many transactions have neither a category nor a schedule line
/// (deductions that a schedule report is likely missing).
pub fn count_unmapped(txs: &Vec<Transaction>) -> (r: usize)
    ensures
        r == unmapped_in(txs@, txs@.len()),
{
    let mut c: usize = 0;
    let mut i: usize = 0;
    while i < txs.len()
        invariant
            i <= txs.len(),
            c == unmapped_in(txs@, i as nat),
            c <= i,
        decreases txs.len() - i,
    {
        if txs[i].category_id.is_none() && txs[i].schedule_c_line.is_none() {
            c = c + 1;
        }
        i += 1;
    }
    c
}

/// How many of the first `n` transactions are in category `id`.
pub open spec fn in_category(txs: Seq<Transaction>, id: u128, n: nat) -> nat
    decreases n,
{
    if n == 0 {
        0
    } else {
        in_category(txs, id, (n - 1) as nat) + if txs[n - 1].category_id == Some(id) {
            1nat
        } else {
            0nat
        }
    }
}

/// Over the first `n` categories whose schedule line starts with `prefix`,
/// the number of transactions in each, summed.
pub open spec fn coverage_in(cats: Seq<Category>, txs: Seq<Transaction>, prefix: Seq<char>, n: nat) -> nat
    decreases n,
{
    if n == 0 {
        0
    } else {
        coverage_in(cats, txs, prefix, (n - 1) as nat) + match cats[n - 1].schedule_c_line {
            Some(l) => if starts_with(l@, prefix) {
                in_category(txs, cats[n - 1].id, txs.len())
            } else {
                0nat
            },
            None => 0nat,
        }
    }
}

fn count_in_category(txs: &Vec<Transaction>, id: u128) -> (r: usize)
    ensures
        r == in_category(txs@, id, txs@.len()),
        r <= txs@.len(),
{
    let mut c: usize = 0;
    let mut i: usize = 0;
    while i < txs.len()
        invariant
            i <= txs.len(),
            c == in_category(txs@, id, i as nat),
            c <= i,
        decreases txs.len() - i,
    {
        if txs[i].category_id == Some(id) {
            c = c + 1;
        }
        i += 1;
    }
    c
}

/// How many categorized transactions a schedule covers: for each category
/// whose line starts with `prefix` (`A-`, `L` or `E-`), the transactions in
/// it, summed.
pub fn schedule_coverage(cats: &Vec<Category>, txs: &Vec<Transaction>, prefix: &str) -> (r: usize)
    requires
        cats@.len() * txs@.len() <= usize::MAX,
    ensures
        r == coverage_in(cats@, txs@, prefix@, cats@.len()),
{
    let p = chars_of(prefix);
    let mut total: usize = 0;
    let mut j: usize = 0;
    while j < cats.len()
        invariant
            j <= cats.len(),
            p@ == prefix@,
            cats@.len() * txs@.len() <= usize::MAX,
            total == coverage_in(cats@, txs@, prefix@, j as nat),
            total <= j * txs@.len(),
        decreases cats.len() - j,
    {
        let add: usize = match &cats[j].schedule_c_line {
            Some(l) => if starts_with_chars(&chars_of(l.as_str()), &p) {
                count_in_category(txs, cats[j].id)
            } else {
                0
            },
            None => 0,
        };
        proof {
            assert((j + 1) * txs@.len() == j * txs@.len() + txs@.len()) by (nonlinear_arith);
            assert((j + 1) * txs@.len() <= cats@.len() * txs@.len()) by (nonlinear_arith)
                requires
                    j + 1 <= cats@.len(),
            ;
        }
        total = total + add;
        j += 1;
    }
    total
}

/// The catalogue row that carries a schedule line code, told apart by the
/// code's length and characters; -1 for a code that no row carries.
spec fn line_row(l: Seq<char>) -> int {
    if l.len() == 2 && l[0] == 'L' && l[1] == '8' {
        3
    } else if l.len() == 2 && l[0] == 'L' && l[1] == '9' {
        4
    } else if l.len() == 3 && l[0] == 'L' && l[1] == '1' && l[2] == '0' {
        5
    } else if l.len() == 3 && l[0] == 'L' && l[1] == '1' && l[2] == '1' {
        6
    } else if l.len() == 3 && l[0] == 'L' && l[1] == '1' && l[2] == '5' {
        7
    } else if l.len() == 3 && l[0] == 'L' && l[1] == '1' && l[2] == '7' {
        8
    } else if l.len() == 3 && l[0] == 'L' && l[1] == '1' && l[2] == '8' {
        9
    } else if l.len() == 4 && l[0] == 'L' && l[1] == '2' && l[2] == '0' && l[3] == 'b' {
        10
    } else if l.len() == 3 && l[0] == 'L' && l[1] == '2' && l[2] == '2' {
        11
    } else if l.len() == 4 && l[0] == 'L' && l[1] == '2' && l[2] == '4' && l[3] == 'a' {
        12
    } else if l.len() == 4 && l[0] == 'L' && l[1] == '2' && l[2] == '4' && l[3] == 'b' {
        13
    } else if l.len() == 3 && l[0] == 'L' && l[1] == '2' && l[2] == '5' {
        14
    } else if l.len() == 4 && l[0] == 'L' && l[1] == '2' && l[2] == '7' && l[3] == 'a' {
        15
    } else if l.len() == 3 && l[0] == 'A' && l[1] == '-' && l[2] == '1' {
        16
    } else if l.len() == 4 && l[0] == 'A' && l[1] == '-' && l[2] == '5' && l[3] == 'a' {
        17
    } else if l.len() == 4 && l[0] == 'A' && l[1] == '-' && l[2] == '5' && l[3] == 'b' {
        18
    } else if l.len() == 4 && l[0] == 'A' && l[1] == '-' && l[2] == '5' && l[3] == 'c' {
        19
    } else if l.len() == 4 && l[0] == 'A' && l[1] == '-' && l[2] == '8' && l[3] == 'a' {
        20
    } else if l.len() == 4 && l[0] == 'A' && l[1] == '-' && l[2] == '1' && l[3] == '0' {
        21
    } else if l.len() == 4 && l[0] == 'A' && l[1] == '-' && l[2] == '1' && l[3] == '2' {
        22
    } else if l.len() == 4 && l[0] == 'A' && l[1] == '-' && l[2] == '1' && l[3] == '3' {
        23
    } else if l.len() == 4 && l[0] == 'A' && l[1] == '-' && l[2] == '1' && l[3] == '5' {
        24
    } else if l.len() == 4 && l[0] == 'A' && l[1] == '-' && l[2] == '1' && l[3] == '6' {
        25
    } else if l.len() == 3 && l[0] == 'E' && l[1] == '-' && l[2] == '3' {
        26
    } else if l.len() == 3 && l[0] == 'E' && l[1] == '-' && l[2] == '5' {
        27
    } else if l.len() == 3 && l[0] == 'E' && l[1] == '-' && l[2] == '6' {
        28
    } else if l.len() == 3 && l[0] == 'E' && l[1] == '-' && l[2] == '7' {
        29
    } else if l.len() == 3 && l[0] == 'E' && l[1] == '-' && l[2] == '8' {
        30
    } else if l.len() == 3 && l[0] == 'E' && l[1] == '-' && l[2] == '9' {
        31
    } else if l.len() == 4 && l[0] == 'E' && l[1] == '-' && l[2] == '1' && l[3] == '0' {
        32
    } else if l.len() == 4 && l[0] == 'E' && l[1] == '-' && l[2] == '1' && l[3] == '1' {
        33
    } else if l.len() == 4 && l[0] == 'E' && l[1] == '-' && l[2] == '1' && l[3] == '2' {
        34
    } else if l.len() == 4 && l[0] == 'E' && l[1] == '-' && l[2] == '1' && l[3] == '3' {
        35
    } else if l.len() == 4 && l[0] == 'E' && l[1] == '-' && l[2] == '1' && l[3] == '4' {
        36
    } else if l.len() == 4 && l[0] == 'E' && l[1] == '-' && l[2] == '1' && l[3] == '5' {
        37
    } else if l.len() == 4 && l[0] == 'E' && l[1] == '-' && l[2] == '1' && l[3] == '6' {
        38
    } else if l.len() == 4 && l[0] == 'E' && l[1] == '-' && l[2] == '1' && l[3] == '7' {
        39
    } else if l.len() == 4 && l[0] == 'E' && l[1] == '-' && l[2] == '1' && l[3] == '8' {
        40
    } else if l.len() == 4 && l[0] == 'E' && l[1] == '-' && l[2] == '1' && l[3] == '9' {
        41
    } else {
        -1
    }
}

/// Three-letter agreement of a category name with a line label.
pub open spec fn same_start(name: Seq<char>, label: Seq<char>) -> bool {
    name.len() >= 3 && label.len() >= 3 && name.take(3) == label.take(3)
}

/// The name a default category goes by on its schedule: a rental category's
/// name without its `Rental - ` prefix.
pub open spec fn reported_name(n: Seq<char>) -> Seq<char> {
    if n.len() >= 9 && n.take(9) == "Rental - "@ {
        n.skip(9)
    } else {
        n
    }
}

proof fn lemma_schedule_c_rows()
    ensures
        schedule_labels("C"@).len() == 13,
        forall|k: int|
            0 <= k < 13 ==> default_spec(3 + k).schedule_c_line == Some((#[trigger] schedule_labels("C"@)[k]).0@)
                && same_start(reported_name(default_spec(3 + k).name), schedule_labels("C"@)[k].1@),
{
    reveal(default_spec);
    reveal_strlit("A");
    reveal_strlit("A-1");
    reveal_strlit("A-10");
    reveal_strlit("A-12");
    reveal_strlit("A-13");
    reveal_strlit("A-15");
    reveal_strlit("A-16");
    reveal_strlit("A-5a");
    reveal_strlit("A-5b");
    reveal_strlit("A-5c");
    reveal_strlit("A-8a");
    reveal_strlit("Advertising");
    reveal_strlit("Auto and travel");
    reveal_strlit("Business Income");
    reveal_strlit("C");
    reveal_strlit("Car & Truck");
    reveal_strlit("Car and truck expenses");
    reveal_strlit("Casualty & Theft Losses");
    reveal_strlit("Casualty and theft losses");
    reveal_strlit("Charitable Donations - Cash");
    reveal_strlit("Charitable Donations - Non-Cash");
    reveal_strlit("Charitable contributions - cash");
    reveal_strlit("Charitable contributions - non-cash");
    reveal_strlit("Cleaning and maintenance");
    reveal_strlit("Commissions");
    reveal_strlit("Commissions & Fees");
    reveal_strlit("Commissions and fees");
    reveal_strlit("Contract Labor");
    reveal_strlit("Contract labor");
    reveal_strlit("Depreciation expense");
    reveal_strlit("E");
    reveal_strlit("E-10");
    reveal_strlit("E-11");
    reveal_strlit("E-12");
    reveal_strlit("E-13");
    reveal_strlit("E-14");
    reveal_strlit("E-15");
    reveal_strlit("E-16");
    reveal_strlit("E-17");
    reveal_strlit("E-18");
    reveal_strlit("E-19");
    reveal_strlit("E-3");
    reveal_strlit("E-5");
    reveal_strlit("E-6");
    reveal_strlit("E-7");
    reveal_strlit("E-8");
    reveal_strlit("E-9");
    reveal_strlit("Freelance Income");
    reveal_strlit("Home Mortgage Interest");
    reveal_strlit("Home mortgage interest");
    reveal_strlit("Insurance");
    reveal_strlit("L10");
    reveal_strlit("L11");
    reveal_strlit("L15");
    reveal_strlit("L17");
    reveal_strlit("L18");
    reveal_strlit("L20b");
    reveal_strlit("L22");
    reveal_strlit("L24a");
    reveal_strlit("L24b");
    reveal_strlit("L25");
    reveal_strlit("L27a");
    reveal_strlit("L8");
    reveal_strlit("L9");
    reveal_strlit("Legal & Professional");
    reveal_strlit("Legal and professional fees");
    reveal_strlit("Legal and professional services");
    reveal_strlit("Management fees");
    reveal_strlit("Meals");
    reveal_strlit("Meals (subject to 50% limitation)");
    reveal_strlit("Medical & Dental Expenses");
    reveal_strlit("Medical and dental expenses");
    reveal_strlit("Mortgage Insurance Premiums");
    reveal_strlit("Mortgage insurance premiums");
    reveal_strlit("Mortgage interest paid");
    reveal_strlit("Office Expense");
    reveal_strlit("Office expense");
    reveal_strlit("Other");
    reveal_strlit("Other Expenses");
    reveal_strlit("Other Income");
    reveal_strlit("Other Itemized Deductions");
    reveal_strlit("Other expenses");
    reveal_strlit("Other interest");
    reveal_strlit("Other itemized deductions");
    reveal_strlit("Personal");
    reveal_strlit("Personal Property Tax");
    reveal_strlit("Personal property taxes");
    reveal_strlit("Real Estate Tax");
    reveal_strlit("Real estate taxes");
    reveal_strlit("Rent or Lease");
    reveal_strlit("Rent or lease - other business property");
    reveal_strlit("Rental - ");
    reveal_strlit("Rental - Advertising");
    reveal_strlit("Rental - Auto & Travel");
    reveal_strlit("Rental - Cleaning & Maintenance");
    reveal_strlit("Rental - Commissions");
    reveal_strlit("Rental - Depreciation");
    reveal_strlit("Rental - Insurance");
    reveal_strlit("Rental - Legal & Professional");
    reveal_strlit("Rental - Management Fees");
    reveal_strlit("Rental - Mortgage Interest");
    reveal_strlit("Rental - Other Expenses");
    reveal_strlit("Rental - Other Interest");
    reveal_strlit("Rental - Repairs");
    reveal_strlit("Rental - Supplies");
    reveal_strlit("Rental - Taxes");
    reveal_strlit("Rental - Utilities");
    reveal_strlit("Rental Income");
    reveal_strlit("Rents received");
    reveal_strlit("Repairs");
    reveal_strlit("State & Local Income Tax");
    reveal_strlit("State/local income taxes");
    reveal_strlit("Supplies");
    reveal_strlit("Taxes");
    reveal_strlit("Transfer");
    reveal_strlit("Travel");
    reveal_strlit("Utilities");
    assert("C"@[0] != "A"@[0]);
    assert forall|k: int|
        0 <= k < 13 implies default_spec(3 + k).schedule_c_line == Some((#[trigger] schedule_labels("C"@)[k]).0@)
            && same_start(reported_name(default_spec(3 + k).name), schedule_labels("C"@)[k].1@) by {
        if k == 0 {
            assert(default_spec(3).name.take(9)[0] != "Rental - "@[0]);
            assert(schedule_labels("C"@)[0] == ("L8", "Advertising"));
            assert(reported_name(default_spec(3).name).take(3) =~= "Advertising"@.take(3));
        } else if k == 1 {
            assert(default_spec(4).name.take(9)[0] != "Rental - "@[0]);
            assert(schedule_labels("C"@)[1] == ("L9", "Car and truck expenses"));
            assert(reported_name(default_spec(4).name).take(3) =~= "Car and truck expenses"@.take(3));
        } else if k == 2 {
            assert(default_spec(5).name.take(9)[0] != "Rental - "@[0]);
            assert(schedule_labels("C"@)[2] == ("L10", "Commissions and fees"));
            assert(reported_name(default_spec(5).name).take(3) =~= "Commissions and fees"@.take(3));
        } else if k == 3 {
            assert(default_spec(6).name.take(9)[0] != "Rental - "@[0]);
            assert(schedule_labels("C"@)[3] == ("L11", "Contract labor"));
            assert(reported_name(default_spec(6).name).take(3) =~= "Contract labor"@.take(3));
        } else if k == 4 {
            assert(default_spec(7).name.take(9)[0] != "Rental - "@[0]);
            assert(schedule_labels("C"@)[4] == ("L15", "Insurance"));
            assert(reported_name(default_spec(7).name).take(3) =~= "Insurance"@.take(3));
        } else if k == 5 {
            assert(default_spec(8).name.take(9)[0] != "Rental - "@[0]);
            assert(schedule_labels("C"@)[5] == ("L17", "Legal and professional services"));
            assert(reported_name(default_spec(8).name).take(3) =~= "Legal and professional services"@.take(3));
        } else if k == 6 {
            assert(default_spec(9).name.take(9)[0] != "Rental - "@[0]);
            assert(schedule_labels("C"@)[6] == ("L18", "Office expense"));
            assert(reported_name(default_spec(9).name).take(3) =~= "Office expense"@.take(3));
        } else if k == 7 {
            assert(default_spec(10).name.take(9)[4] != "Rental - "@[4]);
            assert(schedule_labels("C"@)[7] == ("L20b", "Rent or lease - other business property"));
            assert(reported_name(default_spec(10).name).take(3) =~= "Rent or lease - other business property"@.take(3));
        } else if k == 8 {
            assert(schedule_labels("C"@)[8] == ("L22", "Supplies"));
            assert(reported_name(default_spec(11).name).take(3) =~= "Supplies"@.take(3));
        } else if k == 9 {
            assert(schedule_labels("C"@)[9] == ("L24a", "Travel"));
            assert(reported_name(default_spec(12).name).take(3) =~= "Travel"@.take(3));
        } else if k == 10 {
            assert(schedule_labels("C"@)[10] == ("L24b", "Meals (subject to 50% limitation)"));
            assert(reported_name(default_spec(13).name).take(3) =~= "Meals (subject to 50% limitation)"@.take(3));
        } else if k == 11 {
            assert(default_spec(14).name.take(9)[0] != "Rental - "@[0]);
            assert(schedule_labels("C"@)[11] == ("L25", "Utilities"));
            assert(reported_name(default_spec(14).name).take(3) =~= "Utilities"@.take(3));
        } else if k == 12 {
            assert(default_spec(15).name.take(9)[0] != "Rental - "@[0]);
            assert(schedule_labels("C"@)[12] == ("L27a", "Other expenses"));
            assert(reported_name(default_spec(15).name).take(3) =~= "Other expenses"@.take(3));
        }
    }
}

proof fn lemma_schedule_a_rows()
    ensures
        schedule_labels("A"@).len() == 10,
        forall|k: int|
            0 <= k < 10 ==> default_spec(16 + k).schedule_c_line == Some((#[trigger] schedule_labels("A"@)[k]).0@)
                && same_start(reported_name(default_spec(16 + k).name), schedule_labels("A"@)[k].1@),
{
    reveal(default_spec);
    reveal_strlit("A");
    reveal_strlit("A-1");
    reveal_strlit("A-10");
    reveal_strlit("A-12");
    reveal_strlit("A-13");
    reveal_strlit("A-15");
    reveal_strlit("A-16");
    reveal_strlit("A-5a");
    reveal_strlit("A-5b");
    reveal_strlit("A-5c");
    reveal_strlit("A-8a");
    reveal_strlit("Advertising");
    reveal_strlit("Auto and travel");
    reveal_strlit("Business Income");
    reveal_strlit("C");
    reveal_strlit("Car & Truck");
    reveal_strlit("Car and truck expenses");
    reveal_strlit("Casualty & Theft Losses");
    reveal_strlit("Casualty and theft losses");
    reveal_strlit("Charitable Donations - Cash");
    reveal_strlit("Charitable Donations - Non-Cash");
    reveal_strlit("Charitable contributions - cash");
    reveal_strlit("Charitable contributions - non-cash");
    reveal_strlit("Cleaning and maintenance");
    reveal_strlit("Commissions");
    reveal_strlit("Commissions & Fees");
    reveal_strlit("Commissions and fees");
    reveal_strlit("Contract Labor");
    reveal_strlit("Contract labor");
    reveal_strlit("Depreciation expense");
    reveal_strlit("E");
    reveal_strlit("E-10");
    reveal_strlit("E-11");
    reveal_strlit("E-12");
    reveal_strlit("E-13");
    reveal_strlit("E-14");
    reveal_strlit("E-15");
    reveal_strlit("E-16");
    reveal_strlit("E-17");
    reveal_strlit("E-18");
    reveal_strlit("E-19");
    reveal_strlit("E-3");
    reveal_strlit("E-5");
    reveal_strlit("E-6");
    reveal_strlit("E-7");
    reveal_strlit("E-8");
    reveal_strlit("E-9");
    reveal_strlit("Freelance Income");
    reveal_strlit("Home Mortgage Interest");
    reveal_strlit("Home mortgage interest");
    reveal_strlit("Insurance");
    reveal_strlit("L10");
    reveal_strlit("L11");
    reveal_strlit("L15");
    reveal_strlit("L17");
    reveal_strlit("L18");
    reveal_strlit("L20b");
    reveal_strlit("L22");
    reveal_strlit("L24a");
    reveal_strlit("L24b");
    reveal_strlit("L25");
    reveal_strlit("L27a");
    reveal_strlit("L8");
    reveal_strlit("L9");
    reveal_strlit("Legal & Professional");
    reveal_strlit("Legal and professional fees");
    reveal_strlit("Legal and professional services");
    reveal_strlit("Management fees");
    reveal_strlit("Meals");
    reveal_strlit("Meals (subject to 50% limitation)");
    reveal_strlit("Medical & Dental Expenses");
    reveal_strlit("Medical and dental expenses");
    reveal_strlit("Mortgage Insurance Premiums");
    reveal_strlit("Mortgage insurance premiums");
    reveal_strlit("Mortgage interest paid");
    reveal_strlit("Office Expense");
    reveal_strlit("Office expense");
    reveal_strlit("Other");
    reveal_strlit("Other Expenses");
    reveal_strlit("Other Income");
    reveal_strlit("Other Itemized Deductions");
    reveal_strlit("Other expenses");
    reveal_strlit("Other interest");
    reveal_strlit("Other itemized deductions");
    reveal_strlit("Personal");
    reveal_strlit("Personal Property Tax");
    reveal_strlit("Personal property taxes");
    reveal_strlit("Real Estate Tax");
    reveal_strlit("Real estate taxes");
    reveal_strlit("Rent or Lease");
    reveal_strlit("Rent or lease - other business property");
    reveal_strlit("Rental - ");
    reveal_strlit("Rental - Advertising");
    reveal_strlit("Rental - Auto & Travel");
    reveal_strlit("Rental - Cleaning & Maintenance");
    reveal_strlit("Rental - Commissions");
    reveal_strlit("Rental - Depreciation");
    reveal_strlit("Rental - Insurance");
    reveal_strlit("Rental - Legal & Professional");
    reveal_strlit("Rental - Management Fees");
    reveal_strlit("Rental - Mortgage Interest");
    reveal_strlit("Rental - Other Expenses");
    reveal_strlit("Rental - Other Interest");
    reveal_strlit("Rental - Repairs");
    reveal_strlit("Rental - Supplies");
    reveal_strlit("Rental - Taxes");
    reveal_strlit("Rental - Utilities");
    reveal_strlit("Rental Income");
    reveal_strlit("Rents received");
    reveal_strlit("Repairs");
    reveal_strlit("State & Local Income Tax");
    reveal_strlit("State/local income taxes");
    reveal_strlit("Supplies");
    reveal_strlit("Taxes");
    reveal_strlit("Transfer");
    reveal_strlit("Travel");
    reveal_strlit("Utilities");
    assert forall|k: int|
        0 <= k < 10 implies default_spec(16 + k).schedule_c_line == Some((#[trigger] schedule_labels("A"@)[k]).0@)
            && same_start(reported_name(default_spec(16 + k).name), schedule_labels("A"@)[k].1@) by {
        if k == 0 {
            assert(default_spec(16).name.take(9)[0] != "Rental - "@[0]);
            assert(schedule_labels("A"@)[0] == ("A-1", "Medical and dental expenses"));
            assert(reported_name(default_spec(16).name).take(3) =~= "Medical and dental expenses"@.take(3));
        } else if k == 1 {
            assert(default_spec(17).name.take(9)[0] != "Rental - "@[0]);
            assert(schedule_labels("A"@)[1] == ("A-5a", "State/local income taxes"));
            assert(reported_name(default_spec(17).name).take(3) =~= "State/local income taxes"@.take(3));
        } else if k == 2 {
            assert(default_spec(18).name.take(9)[0] != "Rental - "@[0]);
            assert(schedule_labels("A"@)[2] == ("A-5b", "Personal property taxes"));
            assert(reported_name(default_spec(18).name).take(3) =~= "Personal property taxes"@.take(3));
        } else if k == 3 {
            assert(default_spec(19).name.take(9)[2] != "Rental - "@[2]);
            assert(schedule_labels("A"@)[3] == ("A-5c", "Real estate taxes"));
            assert(reported_name(default_spec(19).name).take(3) =~= "Real estate taxes"@.take(3));
        } else if k == 4 {
            assert(default_spec(20).name.take(9)[0] != "Rental - "@[0]);
            assert(schedule_labels("A"@)[4] == ("A-8a", "Home mortgage interest"));
            assert(reported_name(default_spec(20).name).take(3) =~= "Home mortgage interest"@.take(3));
        } else if k == 5 {
            assert(default_spec(21).name.take(9)[0] != "Rental - "@[0]);
            assert(schedule_labels("A"@)[5] == ("A-10", "Mortgage insurance premiums"));
            assert(reported_name(default_spec(21).name).take(3) =~= "Mortgage insurance premiums"@.take(3));
        } else if k == 6 {
            assert(default_spec(22).name.take(9)[0] != "Rental - "@[0]);
            assert(schedule_labels("A"@)[6] == ("A-12", "Charitable contributions - cash"));
            assert(reported_name(default_spec(22).name).take(3) =~= "Charitable contributions - cash"@.take(3));
        } else if k == 7 {
            assert(default_spec(23).name.take(9)[0] != "Rental - "@[0]);
            assert(schedule_labels("A"@)[7] == ("A-13", "Charitable contributions - non-cash"));
            assert(reported_name(default_spec(23).name).take(3) =~= "Charitable contributions - non-cash"@.take(3));
        } else if k == 8 {
            assert(default_spec(24).name.take(9)[0] != "Rental - "@[0]);
            assert(schedule_labels("A"@)[8] == ("A-15", "Casualty and theft losses"));
            assert(reported_name(default_spec(24).name).take(3) =~= "Casualty and theft losses"@.take(3));
        } else if k == 9 {
            assert(default_spec(25).name.take(9)[0] != "Rental - "@[0]);
            assert(schedule_labels("A"@)[9] == ("A-16", "Other itemized deductions"));
            assert(reported_name(default_spec(25).name).take(3) =~= "Other itemized deductions"@.take(3));
        }
    }
}

proof fn lemma_schedule_e_rows()
    ensures
        schedule_labels("E"@).len() == 16,
        forall|k: int|
            0 <= k < 16 ==> default_spec(26 + k).schedule_c_line == Some((#[trigger] schedule_labels("E"@)[k]).0@)
                && same_start(reported_name(default_spec(26 + k).name), schedule_labels("E"@)[k].1@),
{
    reveal(default_spec);
    reveal_strlit("A");
    reveal_strlit("A-1");
    reveal_strlit("A-10");
    reveal_strlit("A-12");
    reveal_strlit("A-13");
    reveal_strlit("A-15");
    reveal_strlit("A-16");
    reveal_strlit("A-5a");
    reveal_strlit("A-5b");
    reveal_strlit("A-5c");
    reveal_strlit("A-8a");
    reveal_strlit("Advertising");
    reveal_strlit("Auto and travel");
    reveal_strlit("Business Income");
    reveal_strlit("C");
    reveal_strlit("Car & Truck");
    reveal_strlit("Car and truck expenses");
    reveal_strlit("Casualty & Theft Losses");
    reveal_strlit("Casualty and theft losses");
    reveal_strlit("Charitable Donations - Cash");
    reveal_strlit("Charitable Donations - Non-Cash");
    reveal_strlit("Charitable contributions - cash");
    reveal_strlit("Charitable contributions - non-cash");
    reveal_strlit("Cleaning and maintenance");
    reveal_strlit("Commissions");
    reveal_strlit("Commissions & Fees");
    reveal_strlit("Commissions and fees");
    reveal_strlit("Contract Labor");
    reveal_strlit("Contract labor");
    reveal_strlit("Depreciation expense");
    reveal_strlit("E");
    reveal_strlit("E-10");
    reveal_strlit("E-11");
    reveal_strlit("E-12");
    reveal_strlit("E-13");
    reveal_strlit("E-14");
    reveal_strlit("E-15");
    reveal_strlit("E-16");
    reveal_strlit("E-17");
    reveal_strlit("E-18");
    reveal_strlit("E-19");
    reveal_strlit("E-3");
    reveal_strlit("E-5");
    reveal_strlit("E-6");
    reveal_strlit("E-7");
    reveal_strlit("E-8");
    reveal_strlit("E-9");
    reveal_strlit("Freelance Income");
    reveal_strlit("Home Mortgage Interest");
    reveal_strlit("Home mortgage interest");
    reveal_strlit("Insurance");
    reveal_strlit("L10");
    reveal_strlit("L11");
    reveal_strlit("L15");
    reveal_strlit("L17");
    reveal_strlit("L18");
    reveal_strlit("L20b");
    reveal_strlit("L22");
    reveal_strlit("L24a");
    reveal_strlit("L24b");
    reveal_strlit("L25");
    reveal_strlit("L27a");
    reveal_strlit("L8");
    reveal_strlit("L9");
    reveal_strlit("Legal & Professional");
    reveal_strlit("Legal and professional fees");
    reveal_strlit("Legal and professional services");
    reveal_strlit("Management fees");
    reveal_strlit("Meals");
    reveal_strlit("Meals (subject to 50% limitation)");
    reveal_strlit("Medical & Dental Expenses");
    reveal_strlit("Medical and dental expenses");
    reveal_strlit("Mortgage Insurance Premiums");
    reveal_strlit("Mortgage insurance premiums");
    reveal_strlit("Mortgage interest paid");
    reveal_strlit("Office Expense");
    reveal_strlit("Office expense");
    reveal_strlit("Other");
    reveal_strlit("Other Expenses");
    reveal_strlit("Other Income");
    reveal_strlit("Other Itemized Deductions");
    reveal_strlit("Other expenses");
    reveal_strlit("Other interest");
    reveal_strlit("Other itemized deductions");
    reveal_strlit("Personal");
    reveal_strlit("Personal Property Tax");
    reveal_strlit("Personal property taxes");
    reveal_strlit("Real Estate Tax");
    reveal_strlit("Real estate taxes");
    reveal_strlit("Rent or Lease");
    reveal_strlit("Rent or lease - other business property");
    reveal_strlit("Rental - ");
    reveal_strlit("Rental - Advertising");
    reveal_strlit("Rental - Auto & Travel");
    reveal_strlit("Rental - Cleaning & Maintenance");
    reveal_strlit("Rental - Commissions");
    reveal_strlit("Rental - Depreciation");
    reveal_strlit("Rental - Insurance");
    reveal_strlit("Rental - Legal & Professional");
    reveal_strlit("Rental - Management Fees");
    reveal_strlit("Rental - Mortgage Interest");
    reveal_strlit("Rental - Other Expenses");
    reveal_strlit("Rental - Other Interest");
    reveal_strlit("Rental - Repairs");
    reveal_strlit("Rental - Supplies");
    reveal_strlit("Rental - Taxes");
    reveal_strlit("Rental - Utilities");
    reveal_strlit("Rental Income");
    reveal_strlit("Rents received");
    reveal_strlit("Repairs");
    reveal_strlit("State & Local Income Tax");
    reveal_strlit("State/local income taxes");
    reveal_strlit("Supplies");
    reveal_strlit("Taxes");
    reveal_strlit("Transfer");
    reveal_strlit("Travel");
    reveal_strlit("Utilities");
    assert("E"@[0] != "A"@[0] && "E"@[0] != "C"@[0]);
    assert forall|k: int|
        0 <= k < 16 implies default_spec(26 + k).schedule_c_line == Some((#[trigger] schedule_labels("E"@)[k]).0@)
            && same_start(reported_name(default_spec(26 + k).name), schedule_labels("E"@)[k].1@) by {
        if k == 0 {
            assert(default_spec(26).name.take(9)[7] != "Rental - "@[7]);
            assert(schedule_labels("E"@)[0] == ("E-3", "Rents received"));
            assert(reported_name(default_spec(26).name).take(3) =~= "Rents received"@.take(3));
        } else if k == 1 {
            assert(default_spec(27).name.take(9) =~= "Rental - "@);
            assert(schedule_labels("E"@)[1] == ("E-5", "Advertising"));
            assert(reported_name(default_spec(27).name).take(3) =~= "Advertising"@.take(3));
        } else if k == 2 {
            assert(default_spec(28).name.take(9) =~= "Rental - "@);
            assert(schedule_labels("E"@)[2] == ("E-6", "Auto and travel"));
            assert(reported_name(default_spec(28).name).take(3) =~= "Auto and travel"@.take(3));
        } else if k == 3 {
            assert(default_spec(29).name.take(9) =~= "Rental - "@);
            assert(schedule_labels("E"@)[3] == ("E-7", "Cleaning and maintenance"));
            assert(reported_name(default_spec(29).name).take(3) =~= "Cleaning and maintenance"@.take(3));
        } else if k == 4 {
            assert(default_spec(30).name.take(9) =~= "Rental - "@);
            assert(schedule_labels("E"@)[4] == ("E-8", "Commissions"));
            assert(reported_name(default_spec(30).name).take(3) =~= "Commissions"@.take(3));
        } else if k == 5 {
            assert(default_spec(31).name.take(9) =~= "Rental - "@);
            assert(schedule_labels("E"@)[5] == ("E-9", "Insurance"));
            assert(reported_name(default_spec(31).name).take(3) =~= "Insurance"@.take(3));
        } else if k == 6 {
            assert(default_spec(32).name.take(9) =~= "Rental - "@);
            assert(schedule_labels("E"@)[6] == ("E-10", "Legal and professional fees"));
            assert(reported_name(default_spec(32).name).take(3) =~= "Legal and professional fees"@.take(3));
        } else if k == 7 {
            assert(default_spec(33).name.take(9) =~= "Rental - "@);
            assert(schedule_labels("E"@)[7] == ("E-11", "Management fees"));
            assert(reported_name(default_spec(33).name).take(3) =~= "Management fees"@.take(3));
        } else if k == 8 {
            assert(default_spec(34).name.take(9) =~= "Rental - "@);
            assert(schedule_labels("E"@)[8] == ("E-12", "Mortgage interest paid"));
            assert(reported_name(default_spec(34).name).take(3) =~= "Mortgage interest paid"@.take(3));
        } else if k == 9 {
            assert(default_spec(35).name.take(9) =~= "Rental - "@);
            assert(schedule_labels("E"@)[9] == ("E-13", "Other interest"));
            assert(reported_name(default_spec(35).name).take(3) =~= "Other interest"@.take(3));
        } else if k == 10 {
            assert(default_spec(36).name.take(9) =~= "Rental - "@);
            assert(schedule_labels("E"@)[10] == ("E-14", "Repairs"));
            assert(reported_name(default_spec(36).name).take(3) =~= "Repairs"@.take(3));
        } else if k == 11 {
            assert(default_spec(37).name.take(9) =~= "Rental - "@);
            assert(schedule_labels("E"@)[11] == ("E-15", "Supplies"));
            assert(reported_name(default_spec(37).name).take(3) =~= "Supplies"@.take(3));
        } else if k == 12 {
            assert(default_spec(38).name.take(9) =~= "Rental - "@);
            assert(schedule_labels("E"@)[12] == ("E-16", "Taxes"));
            assert(reported_name(default_spec(38).name).take(3) =~= "Taxes"@.take(3));
        } else if k == 13 {
            assert(default_spec(39).name.take(9) =~= "Rental - "@);
            assert(schedule_labels("E"@)[13] == ("E-17", "Utilities"));
            assert(reported_name(default_spec(39).name).take(3) =~= "Utilities"@.take(3));
        } else if k == 14 {
            assert(default_spec(40).name.take(9) =~= "Rental - "@);
            assert(schedule_labels("E"@)[14] == ("E-18", "Depreciation expense"));
            assert(reported_name(default_spec(40).name).take(3) =~= "Depreciation expense"@.take(3));
        } else if k == 15 {
            assert(default_spec(41).name.take(9) =~= "Rental - "@);
            assert(schedule_labels("E"@)[15] == ("E-19", "Other"));
            assert(reported_name(default_spec(41).name).take(3) =~= "Other"@.take(3));
        }
    }
}

proof fn lemma_default_line_rows()
    ensures
        forall|i: int|
            0 <= i < 44 && (#[trigger] default_spec(i)).schedule_c_line is Some ==> line_row(
                default_spec(i).schedule_c_line->0,
            ) == i,
        forall|i: int| (0 <= i < 3 || 42 <= i < 44) ==> (#[trigger] default_spec(i)).schedule_c_line is None,
{
    reveal(default_spec);
    reveal_strlit("L8");
    reveal_strlit("L9");
    reveal_strlit("L10");
    reveal_strlit("L11");
    reveal_strlit("L15");
    reveal_strlit("L17");
    reveal_strlit("L18");
    reveal_strlit("L20b");
    reveal_strlit("L22");
    reveal_strlit("L24a");
    reveal_strlit("L24b");
    reveal_strlit("L25");
    reveal_strlit("L27a");
    reveal_strlit("A-1");
    reveal_strlit("A-5a");
    reveal_strlit("A-5b");
    reveal_strlit("A-5c");
    reveal_strlit("A-8a");
    reveal_strlit("A-10");
    reveal_strlit("A-12");
    reveal_strlit("A-13");
    reveal_strlit("A-15");
    reveal_strlit("A-16");
    reveal_strlit("E-3");
    reveal_strlit("E-5");
    reveal_strlit("E-6");
    reveal_strlit("E-7");
    reveal_strlit("E-8");
    reveal_strlit("E-9");
    reveal_strlit("E-10");
    reveal_strlit("E-11");
    reveal_strlit("E-12");
    reveal_strlit("E-13");
    reveal_strlit("E-14");
    reveal_strlit("E-15");
    reveal_strlit("E-16");
    reveal_strlit("E-17");
    reveal_strlit("E-18");
    reveal_strlit("E-19");
    assert forall|i: int|
        0 <= i < 44 && (#[trigger] default_spec(i)).schedule_c_line is Some implies line_row(
            default_spec(i).schedule_c_line->0,
        ) == i by {
        if i == 3 {
            assert(default_spec(3).schedule_c_line == Some("L8"@));
        } else if i == 4 {
            assert(default_spec(4).schedule_c_line == Some("L9"@));
        } else if i == 5 {
            assert(default_spec(5).schedule_c_line == Some("L10"@));
        } else if i == 6 {
            assert(default_spec(6).schedule_c_line == Some("L11"@));
        } else if i == 7 {
            assert(default_spec(7).schedule_c_line == Some("L15"@));
        } else if i == 8 {
            assert(default_spec(8).schedule_c_line == Some("L17"@));
        } else if i == 9 {
            assert(default_spec(9).schedule_c_line == Some("L18"@));
        } else if i == 10 {
            assert(default_spec(10).schedule_c_line == Some("L20b"@));
        } else if i == 11 {
            assert(default_spec(11).schedule_c_line == Some("L22"@));
        } else if i == 12 {
            assert(default_spec(12).schedule_c_line == Some("L24a"@));
        } else if i == 13 {
            assert(default_spec(13).schedule_c_line == Some("L24b"@));
        } else if i == 14 {
            assert(default_spec(14).schedule_c_line == Some("L25"@));
        } else if i == 15 {
            assert(default_spec(15).schedule_c_line == Some("L27a"@));
        } else if i == 16 {
            assert(default_spec(16).schedule_c_line == Some("A-1"@));
        } else if i == 17 {
            assert(default_spec(17).schedule_c_line == Some("A-5a"@));
        } else if i == 18 {
            assert(default_spec(18).schedule_c_line == Some("A-5b"@));
        } else if i == 19 {
            assert(default_spec(19).schedule_c_line == Some("A-5c"@));
        } else if i == 20 {
            assert(default_spec(20).schedule_c_line == Some("A-8a"@));
        } else if i == 21 {
            assert(default_spec(21).schedule_c_line == Some("A-10"@));
        } else if i == 22 {
            assert(default_spec(22).schedule_c_line == Some("A-12"@));
        } else if i == 23 {
            assert(default_spec(23).schedule_c_line == Some("A-13"@));
        } else if i == 24 {
            assert(default_spec(24).schedule_c_line == Some("A-15"@));
        } else if i == 25 {
            assert(default_spec(25).schedule_c_line == Some("A-16"@));
        } else if i == 26 {
            assert(default_spec(26).schedule_c_line == Some("E-3"@));
        } else if i == 27 {
            assert(default_spec(27).schedule_c_line == Some("E-5"@));
        } else if i == 28 {
            assert(default_spec(28).schedule_c_line == Some("E-6"@));
        } else if i == 29 {
            assert(default_spec(29).schedule_c_line == Some("E-7"@));
        } else if i == 30 {
            assert(default_spec(30).schedule_c_line == Some("E-8"@));
        } else if i == 31 {
            assert(default_spec(31).schedule_c_line == Some("E-9"@));
        } else if i == 32 {
            assert(default_spec(32).schedule_c_line == Some("E-10"@));
        } else if i == 33 {
            assert(default_spec(33).schedule_c_line == Some("E-11"@));
        } else if i == 34 {
            assert(default_spec(34).schedule_c_line == Some("E-12"@));
        } else if i == 35 {
            assert(default_spec(35).schedule_c_line == Some("E-13"@));
        } else if i == 36 {
            assert(default_spec(36).schedule_c_line == Some("E-14"@));
        } else if i == 37 {
            assert(default_spec(37).schedule_c_line == Some("E-15"@));
        } else if i == 38 {
            assert(default_spec(38).schedule_c_line == Some("E-16"@));
        } else if i == 39 {
            assert(default_spec(39).schedule_c_line == Some("E-17"@));
        } else if i == 40 {
            assert(default_spec(40).schedule_c_line == Some("E-18"@));
        } else if i == 41 {
            assert(default_spec(41).schedule_c_line == Some("E-19"@));
        }
    }
}

/// The kind of each default category: those on a tax line are expenses,
/// but for the rents line of Schedule E, which is income; of those on no
/// line, the business income ones come first and the personal ones last.
proof fn lemma_default_kinds()
    ensures
        forall|i: int|
            0 <= i < 44 ==> (#[trigger] default_spec(i)).category_type == (if default_spec(
                i,
            ).schedule_c_line is None {
                if i < 3 {
                    CategoryType::Income
                } else {
                    CategoryType::Personal
                }
            } else if default_spec(i).schedule_c_line == Some("E-3"@) {
                CategoryType::Income
            } else {
                CategoryType::Expense
            }),
{
    reveal(default_spec);
    reveal_strlit("E-3");
    assert forall|i: int| 0 <= i < 44 implies (#[trigger] default_spec(i)).category_type == (if default_spec(
        i,
    ).schedule_c_line is None {
        if i < 3 {
            CategoryType::Income
        } else {
            CategoryType::Personal
        }
    } else if default_spec(i).schedule_c_line == Some("E-3"@) {
        CategoryType::Income
    } else {
        CategoryType::Expense
    }) by {
        if 3 <= i < 42 && i != 26 {
            let l = default_spec(i).schedule_c_line->0;
            lemma_default_line_rows();
            assert(line_row(l) == i);
            if l == "E-3"@ {
                assert(line_row("E-3"@) == 26);
            }
        }
    }
}

/// The default catalogue follows the tax forms: one category for each
/// line of Schedule C (rows 3 on), Schedule A (rows 16 on) and Schedule E
/// (rows 26 on), in form order, carrying that line's code and named after
/// its label (the same first three letters); the business income and
/// personal categories carry no line; no two categories share a line; and
/// every category on a line is an expense but the one on the rents line.
pub proof fn lemma_default_lines_follow_the_forms()
    ensures
        schedule_labels("C"@).len() == 13,
        schedule_labels("A"@).len() == 10,
        schedule_labels("E"@).len() == 16,
        forall|k: int|
            0 <= k < 13 ==> default_spec(3 + k).schedule_c_line == Some((#[trigger] schedule_labels("C"@)[k]).0@)
                && same_start(reported_name(default_spec(3 + k).name), schedule_labels("C"@)[k].1@),
        forall|k: int|
            0 <= k < 10 ==> default_spec(16 + k).schedule_c_line == Some((#[trigger] schedule_labels("A"@)[k]).0@)
                && same_start(reported_name(default_spec(16 + k).name), schedule_labels("A"@)[k].1@),
        forall|k: int|
            0 <= k < 16 ==> default_spec(26 + k).schedule_c_line == Some((#[trigger] schedule_labels("E"@)[k]).0@)
                && same_start(reported_name(default_spec(26 + k).name), schedule_labels("E"@)[k].1@),
        forall|i: int| (0 <= i < 3 || 42 <= i < 44) ==> (#[trigger] default_spec(i)).schedule_c_line is None,
        forall|i: int, j: int|
            0 <= i < 44 && 0 <= j < 44 && i != j && (#[trigger] default_spec(i)).schedule_c_line is Some
                ==> default_spec(i).schedule_c_line != (#[trigger] default_spec(j)).schedule_c_line,
        forall|i: int|
            0 <= i < 44 ==> (#[trigger] default_spec(i)).category_type == (if default_spec(
                i,
            ).schedule_c_line is None {
                if i < 3 {
                    CategoryType::Income
                } else {
                    CategoryType::Personal
                }
            } else if default_spec(i).schedule_c_line == Some(schedule_labels("E"@)[0].0@) {
                CategoryType::Income
            } else {
                CategoryType::Expense
            }),
{
    lemma_default_kinds();
    lemma_schedule_c_rows();
    lemma_schedule_a_rows();
    lemma_schedule_e_rows();
    lemma_default_line_rows();
}

} // verus!
