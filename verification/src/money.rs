//! Monetary amounts held as `rust_decimal` holds them: a sign flag, a
//! 96-bit unsigned magnitude and a decimal scale of at most 28.

use vstd::prelude::*;
use std::str::FromStr;

verus! {

/// A decimal amount: `(-1)^negative * units / 10^scale`.
#[derive(Clone, Copy, Debug, PartialEq, Eq, Structural)]
pub struct Money {
    pub negative: bool,
    pub units: u128,
    pub scale: u32,
}

/// Largest magnitude a decimal holds, `2^96 - 1`.
pub open spec fn max_units() -> nat {
    0xffff_ffff_ffff_ffff_ffff_ffffnat
}

impl Money {
    /// Within the range of `rust_decimal::Decimal`.
    pub open spec fn wf(self) -> bool {
        self.units <= max_units() && self.scale <= 28
    }

    /// The signed magnitude, in units of `10^-scale`.
    pub open spec fn signed_units(self) -> int {
        if self.negative {
            -(self.units as int)
        } else {
            self.units as int
        }
    }

    /// Strictly positive (money coming in).
    pub open spec fn spec_is_income(self) -> bool {
        self.units > 0 && !self.negative
    }

    /// Strictly negative (money going out).
    pub open spec fn spec_is_expense(self) -> bool {
        self.units > 0 && self.negative
    }

    /// Zero, with scale 0.
    pub fn zero() -> (r: Money)
        ensures
            r == (Money { negative: false, units: 0, scale: 0 }),
    {
        Money { negative: false, units: 0, scale: 0 }
    }

    /// The amount with its sign flag flipped, as `Neg` on a decimal does.
    pub fn negate(&self) -> (r: Money)
        ensures
            r == (Money { negative: !self.negative, ..*self }),
    {
        Money { negative: !self.negative, ..*self }
    }

    /// The amount with a clear sign flag, as `abs` on a decimal gives it.
    pub fn abs(&self) -> (r: Money)
        ensures
            r == (Money { negative: false, ..*self }),
    {
        Money { negative: false, ..*self }
    }

    pub fn is_income(&self) -> (r: bool)
        ensures
            r == self.spec_is_income(),
    {
        self.units > 0 && !self.negative
    }

    pub fn is_expense(&self) -> (r: bool)
        ensures
            r == self.spec_is_expense(),
    {
        self.units > 0 && self.negative
    }

    /// The decimal text of this amount, as `Display` of a decimal prints it.
    pub fn to_decimal_string(&self) -> (r: String)
        ensures
            r@ == money_text(*self),
    {
        let v = money_chars(self);
        crate::text::string_from_chars(v.as_slice())
    }
}

pub open spec fn digit_char(d: nat) -> char {
    if d == 0 {
        '0'
    } else if d == 1 {
        '1'
    } else if d == 2 {
        '2'
    } else if d == 3 {
        '3'
    } else if d == 4 {
        '4'
    } else if d == 5 {
        '5'
    } else if d == 6 {
        '6'
    } else if d == 7 {
        '7'
    } else if d == 8 {
        '8'
    } else {
        '9'
    }
}

/// Decimal digits of `n` without leading zeros (empty for zero).
pub open spec fn nat_digits(n: nat) -> Seq<char>
    decreases n,
{
    if n == 0 {
        Seq::empty()
    } else {
        nat_digits(n / 10).push(digit_char(n % 10))
    }
}

/// Decimal text of `n` (`"0"` for zero).
pub open spec fn nat_text(n: nat) -> Seq<char> {
    if n == 0 {
        seq!['0']
    } else {
        nat_digits(n)
    }
}

/// `s` with zeros in front up to width `w`.
pub open spec fn zero_pad(s: Seq<char>, w: nat) -> Seq<char> {
    if s.len() >= w {
        s
    } else {
        Seq::new((w - s.len()) as nat, |i: int| '0') + s
    }
}

/// The text of a decimal: a `-` for a set sign flag, the integral digits
/// (at least `0`), and for a positive scale a point and exactly `scale`
/// fractional digits.
pub open spec fn money_text(m: Money) -> Seq<char> {
    let sign = if m.negative {
        seq!['-']
    } else {
        Seq::empty()
    };
    if m.scale == 0 {
        sign + nat_text(m.units as nat)
    } else {
        let p = zero_pad(nat_digits(m.units as nat), m.scale as nat);
        let w = p.len() - m.scale;
        sign + (if w == 0 {
            seq!['0']
        } else {
            p.take(w)
        }) + seq!['.'] + p.skip(w)
    }
}

pub fn digit_to_char(d: u128) -> (c: char)
    requires
        d < 10,
    ensures
        c == digit_char(d as nat),
{
    if d == 0 {
        '0'
    } else if d == 1 {
        '1'
    } else if d == 2 {
        '2'
    } else if d == 3 {
        '3'
    } else if d == 4 {
        '4'
    } else if d == 5 {
        '5'
    } else if d == 6 {
        '6'
    } else if d == 7 {
        '7'
    } else if d == 8 {
        '8'
    } else {
        '9'
    }
}

/// `nat_digits(n)`.
pub fn digits_of(n: u128) -> (r: Vec<char>)
    ensures
        r@ == nat_digits(n as nat),
{
    let mut acc: Vec<char> = Vec::new();
    let mut x = n;
    while x > 0
        invariant
            nat_digits(n as nat) == nat_digits(x as nat) + acc@,
        decreases x,
    {
        let d = x % 10;
        let ghost before = acc@;
        acc.insert(0, digit_to_char(d));
        assert(nat_digits(x as nat) == nat_digits((x / 10) as nat).push(digit_char((x % 10) as nat)));
        assert(nat_digits((x / 10) as nat).push(digit_char(d as nat)) + before =~= nat_digits(
            (x / 10) as nat,
        ) + acc@);
        x = x / 10;
    }
    assert(nat_digits(0) + acc@ =~= acc@);
    acc
}

/// `nat_text(n)`.
pub fn text_of(n: u128) -> (r: Vec<char>)
    ensures
        r@ == nat_text(n as nat),
{
    if n == 0 {
        let mut r: Vec<char> = Vec::new();
        r.push('0');
        assert(r@ =~= seq!['0']);
        r
    } else {
        digits_of(n)
    }
}

/// `zero_pad(v, w)`.
pub fn zero_padded(v: &Vec<char>, w: usize) -> (r: Vec<char>)
    ensures
        r@ == zero_pad(v@, w as nat),
{
    if v.len() >= w {
        return v.clone();
    }
    let mut r: Vec<char> = Vec::new();
    let k = w - v.len();
    let mut i: usize = 0;
    while i < k
        invariant
            i <= k,
            r@ == Seq::new(i as nat, |j: int| '0'),
        decreases k - i,
    {
        r.push('0');
        i += 1;
        assert(r@ =~= Seq::new(i as nat, |j: int| '0'));
    }
    crate::text::push_all(&mut r, v);
    r
}

/// `money_text(m)`.
pub fn money_chars(m: &Money) -> (r: Vec<char>)
    ensures
        r@ == money_text(*m),
{
    let mut out: Vec<char> = Vec::new();
    if m.negative {
        out.push('-');
    }
    let ghost sign = out@;
    assert(sign == (if m.negative {
        seq!['-']
    } else {
        Seq::<char>::empty()
    }));
    if m.scale == 0 {
        let t = text_of(m.units);
        crate::text::push_all(&mut out, &t);
        return out;
    }
    let d = digits_of(m.units);
    let p = zero_padded(&d, m.scale as usize);
    let w = p.len() - m.scale as usize;
    if w == 0 {
        out.push('0');
    } else {
        let head = crate::text::copy_range(&p, 0, w);
        assert(head@ =~= p@.take(w as int));
        crate::text::push_all(&mut out, &head);
    }
    out.push('.');
    let tail = crate::text::copy_range(&p, w, p.len());
    assert(tail@ =~= p@.skip(w as int));
    crate::text::push_all(&mut out, &tail);
    assert(out@ =~= money_text(*m));
    out
}

/// `10^n`.
pub open spec fn pow10(n: nat) -> nat
    decreases n,
{
    if n == 0 {
        1
    } else {
        10 * pow10((n - 1) as nat)
    }
}

proof fn lemma_pow10_mono(a: nat, b: nat)
    requires
        a <= b,
    ensures
        1 <= pow10(a) <= pow10(b),
    decreases b,
{
    if b > a {
        lemma_pow10_mono(a, (b - 1) as nat);
    } else if a > 0 {
        lemma_pow10_mono((a - 1) as nat, (a - 1) as nat);
    }
}

/// An amount with no fractional part held without decimals (`1000.00`
/// becomes `1000`); other amounts as they are.
pub open spec fn integral_form(t: (bool, nat, nat)) -> (bool, nat, nat) {
    if t.1 % pow10(t.2) == 0 {
        (t.0, t.1 / pow10(t.2), 0)
    } else {
        t
    }
}

/// The amount without decimals when its fractional part is zero.
pub fn to_integral_form(m: &Money) -> (r: Money)
    requires
        m.wf(),
    ensures
        money_triple(r) == integral_form(money_triple(*m)),
        r.wf(),
{
    let mut p: u128 = 1;
    let mut k: u32 = 0;
    proof {
        reveal_with_fuel(pow10, 29);
        assert(pow10(28) == 10000000000000000000000000000nat);
    }
    while k < m.scale
        invariant
            k <= m.scale <= 28,
            p == pow10(k as nat),
            pow10(28) == 10000000000000000000000000000nat,
        decreases m.scale - k,
    {
        proof {
            lemma_pow10_mono((k + 1) as nat, 28);
        }
        p = p * 10;
        k = k + 1;
    }
    if m.units % p == 0 {
        Money { negative: m.negative, units: m.units / p, scale: 0 }
    } else {
        *m
    }
}

/// Name for what `Decimal::from_str` returns for a text: the sign flag,
/// magnitude and scale of the parsed decimal, or `None` when it fails.
pub uninterp spec fn decimal_parse(s: Seq<char>) -> Option<(bool, nat, nat)>;

/// The triple a money value is parsed into.
pub open spec fn money_triple(m: Money) -> (bool, nat, nat) {
    (m.negative, m.units as nat, m.scale as nat)
}

/// Calls `rust_decimal::Decimal::from_str`. The result is named by
/// `decimal_parse`; the contract also states that a parsed decimal is
/// within the range the type documents (96-bit magnitude, scale 0 to 28).
#[verifier::external_body]
pub(crate) fn parse_decimal(s: &str) -> (r: Option<Money>)
    ensures
        match r {
            Some(m) => decimal_parse(s@) == Some(money_triple(m)) && m.wf(),
            None => decimal_parse(s@) is None,
        },
{
    match rust_decimal::Decimal::from_str(s) {
        Ok(d) => Some(
            Money { negative: d.is_sign_negative(), units: d.mantissa().unsigned_abs(), scale: d.scale() },
        ),
        Err(_) => None,
    }
}

/// Name for what `Decimal::checked_add` returns for two decimals, each
/// given as sign flag, magnitude and scale: their sum, or `None` when it
/// overflows.
pub uninterp spec fn decimal_sum(a: (bool, nat, nat), b: (bool, nat, nat)) -> Option<(bool, nat, nat)>;

/// Name for what `Decimal::checked_sub` returns for two decimals: `a - b`,
/// or `None` when it overflows.
pub uninterp spec fn decimal_difference(a: (bool, nat, nat), b: (bool, nat, nat)) -> Option<(bool, nat, nat)>;

/// Calls `rust_decimal::Decimal::checked_add`. The result is named by
/// `decimal_sum`; a decimal that comes back is within the type's range.
#[verifier::external_body]
fn decimal_checked_add(a: &Money, b: &Money) -> (r: Option<Money>)
    requires
        a.wf(),
        b.wf(),
    ensures
        match r {
            Some(m) => decimal_sum(money_triple(*a), money_triple(*b)) == Some(money_triple(m)) && m.wf(),
            None => decimal_sum(money_triple(*a), money_triple(*b)) is None,
        },
{
    let x = rust_decimal::Decimal::from_parts(a.units as u32, (a.units >> 32) as u32, (a.units >> 64) as u32, a.negative, a.scale);
    let y = rust_decimal::Decimal::from_parts(b.units as u32, (b.units >> 32) as u32, (b.units >> 64) as u32, b.negative, b.scale);
    match x.checked_add(y) {
        Some(d) => Some(Money { negative: d.is_sign_negative(), units: d.mantissa().unsigned_abs(), scale: d.scale() }),
        None => None,
    }
}

/// Calls `rust_decimal::Decimal::checked_sub`. The result is named by
/// `decimal_difference`; a decimal that comes back is within the type's
/// range.
#[verifier::external_body]
fn decimal_checked_sub(a: &Money, b: &Money) -> (r: Option<Money>)
    requires
        a.wf(),
        b.wf(),
    ensures
        match r {
            Some(m) => decimal_difference(money_triple(*a), money_triple(*b)) == Some(money_triple(m)) && m.wf(),
            None => decimal_difference(money_triple(*a), money_triple(*b)) is None,
        },
{
    let x = rust_decimal::Decimal::from_parts(a.units as u32, (a.units >> 32) as u32, (a.units >> 64) as u32, a.negative, a.scale);
    let y = rust_decimal::Decimal::from_parts(b.units as u32, (b.units >> 32) as u32, (b.units >> 64) as u32, b.negative, b.scale);
    match x.checked_sub(y) {
        Some(d) => Some(Money { negative: d.is_sign_negative(), units: d.mantissa().unsigned_abs(), scale: d.scale() }),
        None => None,
    }
}

/// `a + b` as decimals, `None` when the sum overflows (where `+` on
/// decimals panics).
pub fn checked_add(a: &Money, b: &Money) -> (r: Option<Money>)
    requires
        a.wf(),
        b.wf(),
    ensures
        match r {
            Some(m) => decimal_sum(money_triple(*a), money_triple(*b)) == Some(money_triple(m)) && m.wf(),
            None => decimal_sum(money_triple(*a), money_triple(*b)) is None,
        },
{
    decimal_checked_add(a, b)
}

/// `a - b` as decimals, `None` when the difference overflows.
pub fn checked_sub(a: &Money, b: &Money) -> (r: Option<Money>)
    requires
        a.wf(),
        b.wf(),
    ensures
        match r {
            Some(m) => decimal_difference(money_triple(*a), money_triple(*b)) == Some(money_triple(m)) && m.wf(),
            None => decimal_difference(money_triple(*a), money_triple(*b)) is None,
        },
{
    decimal_checked_sub(a, b)
}

} // verus!
