//! Identifiers (UUIDs held as 128-bit integers), their text, timestamps and
//! the dedupe digest.

use vstd::prelude::*;
use sha2::Digest;

verus! {

/// A fresh random version-4 UUID (`uuid::Uuid::new_v4`), as its 128-bit
/// value. Nothing is promised of the value: it is random.
#[verifier::external_body]
pub(crate) fn new_uuid() -> u128 {
    uuid::Uuid::new_v4().as_u128()
}

/// Name for what `uuid::Uuid::parse_str` returns for a text, as the 128-bit
/// value, or `None` when the text is no UUID.
pub uninterp spec fn uuid_parse(s: Seq<char>) -> Option<int>;

/// Calls `uuid::Uuid::parse_str`; the result is named by `uuid_parse`.
#[verifier::external_body]
pub(crate) fn parse_uuid(s: &str) -> (r: Option<u128>)
    ensures
        match r {
            Some(v) => uuid_parse(s@) == Some(v as int),
            None => uuid_parse(s@) is None,
        },
{
    match uuid::Uuid::parse_str(s) {
        Ok(u) => Some(u.as_u128()),
        Err(_) => None,
    }
}

/// The current time (`chrono::Utc::now`) in microseconds since the Unix
/// epoch. Nothing is promised of the value: it is the clock's.
#[verifier::external_body]
pub(crate) fn now_micros() -> i64 {
    chrono::Utc::now().timestamp_micros()
}

/// Name for the lowercase hexadecimal SHA-256 digest of the UTF-8 bytes of a text.
pub uninterp spec fn sha256_text(s: Seq<char>) -> Seq<char>;

/// Calls `sha2::Sha256::digest` on the UTF-8 bytes of `s` and renders the
/// 32-byte digest in lowercase hexadecimal; the result is named by
/// `sha256_text` and has 64 characters.
#[verifier::external_body]
pub(crate) fn sha256_hex(s: &str) -> (r: String)
    ensures
        r@ == sha256_text(s@),
        r@.len() == 64,
{
    format!("{:x}", sha2::Sha256::digest(s.as_bytes()))
}

pub open spec fn hex_char(d: nat) -> char {
    if d < 10 {
        crate::money::digit_char(d)
    } else if d == 10 {
        'a'
    } else if d == 11 {
        'b'
    } else if d == 12 {
        'c'
    } else if d == 13 {
        'd'
    } else if d == 14 {
        'e'
    } else {
        'f'
    }
}

/// The `k` lowest hexadecimal digits of `n`, most significant first.
pub open spec fn hex_fixed(n: nat, k: nat) -> Seq<char>
    decreases k,
{
    if k == 0 {
        Seq::empty()
    } else {
        hex_fixed(n / 16, (k - 1) as nat).push(hex_char(n % 16))
    }
}

/// The hyphenated lowercase text of a UUID (`8-4-4-4-12` hex digits), as
/// `uuid::Uuid` displays it.
pub open spec fn uuid_text(id: u128) -> Seq<char> {
    let h = hex_fixed(id as nat, 32);
    h.subrange(0, 8) + seq!['-'] + h.subrange(8, 12) + seq!['-'] + h.subrange(12, 16) + seq!['-']
        + h.subrange(16, 20) + seq!['-'] + h.subrange(20, 32)
}

fn hex_to_char(d: u128) -> (c: char)
    requires
        d < 16,
    ensures
        c == hex_char(d as nat),
{
    if d < 10 {
        crate::money::digit_to_char(d)
    } else if d == 10 {
        'a'
    } else if d == 11 {
        'b'
    } else if d == 12 {
        'c'
    } else if d == 13 {
        'd'
    } else if d == 14 {
        'e'
    } else {
        'f'
    }
}

/// `uuid_text(id)` as characters.
pub fn uuid_chars(id: u128) -> (r: Vec<char>)
    ensures
        r@ == uuid_text(id),
{
    let mut acc: Vec<char> = Vec::new();
    let mut x = id;
    let mut k: usize = 32;
    while k > 0
        invariant
            k <= 32,
            hex_fixed(id as nat, 32) == hex_fixed(x as nat, k as nat) + acc@,
        decreases k,
    {
        let ghost before = acc@;
        acc.insert(0, hex_to_char(x % 16));
        assert(hex_fixed(x as nat, k as nat) == hex_fixed((x / 16) as nat, (k - 1) as nat).push(
            hex_char((x % 16) as nat),
        ));
        assert(hex_fixed((x / 16) as nat, (k - 1) as nat).push(hex_char((x % 16) as nat)) + before
            =~= hex_fixed((x / 16) as nat, (k - 1) as nat) + acc@);
        x = x / 16;
        k -= 1;
    }
    assert(hex_fixed(x as nat, 0) + acc@ =~= acc@);
    proof {
        lemma_hex_fixed_len(id as nat, 32);
    }
    let mut out = crate::text::copy_range(&acc, 0, 8);
    out.push('-');
    crate::text::push_all(&mut out, &crate::text::copy_range(&acc, 8, 12));
    out.push('-');
    crate::text::push_all(&mut out, &crate::text::copy_range(&acc, 12, 16));
    out.push('-');
    crate::text::push_all(&mut out, &crate::text::copy_range(&acc, 16, 20));
    out.push('-');
    crate::text::push_all(&mut out, &crate::text::copy_range(&acc, 20, 32));
    assert(out@ =~= uuid_text(id));
    out
}

proof fn lemma_hex_fixed_len(n: nat, k: nat)
    ensures
        hex_fixed(n, k).len() == k,
    decreases k,
{
    if k > 0 {
        lemma_hex_fixed_len(n / 16, (k - 1) as nat);
    }
}

/// The hyphenated text of a UUID as a `String`.
pub fn uuid_string(id: u128) -> (r: String)
    ensures
        r@ == uuid_text(id),
{
    let v = uuid_chars(id);
    crate::text::string_from_chars(v.as_slice())
}

/// Creation and last-change times of an entity, in microseconds.
#[derive(Clone, Copy, Debug, PartialEq, Eq, Structural)]
pub struct EntityMetadata {
    pub created_at: i64,
    pub updated_at: i64,
}

impl EntityMetadata {
    /// Both times set to the same reading of the clock.
    pub fn new() -> (r: EntityMetadata)
        ensures
            r.created_at == r.updated_at,
    {
        let now = now_micros();
        EntityMetadata { created_at: now, updated_at: now }
    }

    /// Records a change: the last-change time is read from the clock again.
    pub fn touch(&mut self)
        ensures
            final(self).created_at == old(self).created_at,
    {
        self.updated_at = now_micros();
    }
}

} // verus!
