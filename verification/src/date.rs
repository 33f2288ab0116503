//! Calendar dates as year, month and day, with the `chrono` calls that parse
//! and build them.

use vstd::prelude::*;
use chrono::Datelike;
use crate::money::{digits_of, nat_digits, zero_pad, zero_padded};
use crate::text::push_all;

verus! {

/// A calendar date.
#[derive(Clone, Copy, Debug, PartialEq, Eq, PartialOrd, Ord, Structural)]
pub struct Date {
    pub year: i32,
    pub month: u32,
    pub day: u32,
}

pub open spec fn is_leap_year(y: int) -> bool {
    (y % 4 == 0 && y % 100 != 0) || y % 400 == 0
}

pub open spec fn days_in_month(y: int, m: int) -> int {
    if m == 2 {
        if is_leap_year(y) {
            29
        } else {
            28
        }
    } else if m == 4 || m == 6 || m == 9 || m == 11 {
        30
    } else {
        31
    }
}

/// A day that exists in the proleptic Gregorian calendar, in the year range
/// of `chrono::NaiveDate`.
pub open spec fn valid_ymd(y: int, m: int, d: int) -> bool {
    &&& -262143 <= y <= 262142
    &&& 1 <= m <= 12
    &&& 1 <= d <= days_in_month(y, m)
}

/// Name for what `NaiveDate::parse_from_str(s, fmt)` returns, as year,
/// month and day, or `None` when parsing fails.
pub uninterp spec fn chrono_parse_date(s: Seq<char>, fmt: Seq<char>) -> Option<(int, int, int)>;

pub open spec fn date_triple(d: Date) -> (int, int, int) {
    (d.year as int, d.month as int, d.day as int)
}

/// Calls `chrono::NaiveDate::parse_from_str`. The result is named by
/// `chrono_parse_date`; the contract also states that a parsed date is a
/// valid calendar day, as a `NaiveDate` always is.
#[verifier::external_body]
pub(crate) fn parse_naive_date(s: &str, fmt: &str) -> (r: Option<Date>)
    ensures
        match r {
            Some(d) => chrono_parse_date(s@, fmt@) == Some(date_triple(d)) && valid_ymd(
                d.year as int,
                d.month as int,
                d.day as int,
            ),
            None => chrono_parse_date(s@, fmt@) is None,
        },
{
    match chrono::NaiveDate::parse_from_str(s, fmt) {
        Ok(d) => Some(Date { year: d.year(), month: d.month(), day: d.day() }),
        Err(_) => None,
    }
}

/// Calls `chrono::NaiveDate::from_ymd_opt`, which gives a date exactly
/// when the day exists and the year is within the type's range.
#[verifier::external_body]
pub(crate) fn date_from_ymd(y: i32, m: u32, d: u32) -> (r: Option<Date>)
    ensures
        r is Some <==> valid_ymd(y as int, m as int, d as int),
        r matches Some(x) ==> x == (Date { year: y, month: m, day: d }),
{
    match chrono::NaiveDate::from_ymd_opt(y, m, d) {
        Some(x) => Some(Date { year: x.year(), month: x.month(), day: x.day() }),
        None => None,
    }
}

/// The ISO text of a date as `chrono` displays it: a four-digit year for
/// years 0 to 9999, otherwise a sign and at least four digits, then
/// two-digit month and day, separated by `-`.
pub open spec fn date_text(d: Date) -> Seq<char> {
    let y = d.year as int;
    let year = if 0 <= y <= 9999 {
        zero_pad(nat_digits(y as nat), 4)
    } else if y < 0 {
        seq!['-'] + zero_pad(nat_digits((-y) as nat), 4)
    } else {
        seq!['+'] + zero_pad(nat_digits(y as nat), 4)
    };
    year + seq!['-'] + zero_pad(nat_digits(d.month as nat), 2) + seq!['-'] + zero_pad(
        nat_digits(d.day as nat),
        2,
    )
}

pub fn date_chars(d: &Date) -> (r: Vec<char>)
    ensures
        r@ == date_text(*d),
{
    let mut out: Vec<char> = Vec::new();
    let y = d.year;
    if y < 0 {
        out.push('-');
        let mag: u128 = (0i64 - y as i64) as u128;
        let p = zero_padded(&digits_of(mag), 4);
        push_all(&mut out, &p);
    } else {
        if y > 9999 {
            out.push('+');
        }
        let p = zero_padded(&digits_of(y as u128), 4);
        push_all(&mut out, &p);
    }
    out.push('-');
    push_all(&mut out, &zero_padded(&digits_of(d.month as u128), 2));
    out.push('-');
    push_all(&mut out, &zero_padded(&digits_of(d.day as u128), 2));
    assert(out@ =~= date_text(*d));
    out
}

impl Date {
    /// The ISO text of this date (`YYYY-MM-DD`).
    pub fn to_iso_string(&self) -> (r: String)
        ensures
            r@ == date_text(*self),
    {
        let v = date_chars(self);
        crate::text::string_from_chars(v.as_slice())
    }
}

/// An inclusive range of dates.
#[derive(Clone, Copy, Debug, PartialEq, Eq, Structural)]
pub struct DateRange {
    pub start: Date,
    pub end: Date,
}

impl DateRange {
    /// January 1 to December 31 of `year`, when both days exist.
    pub fn year(year: i32) -> (r: Option<DateRange>)
        ensures
            r is Some <==> -262143 <= year <= 262142,
            r matches Some(x) ==> x == (DateRange {
                start: Date { year, month: 1, day: 1 },
                end: Date { year, month: 12, day: 31 },
            }),
    {
        let start = date_from_ymd(year, 1, 1);
        let end = date_from_ymd(year, 12, 31);
        match (start, end) {
            (Some(s), Some(e)) => Some(DateRange { start: s, end: e }),
            _ => None,
        }
    }

    /// The first to the last day of `month` in `year`, when the month exists.
    pub fn month(year: i32, month: u32) -> (r: Option<DateRange>)
        ensures
            r is Some <==> -262143 <= year <= 262142 && 1 <= month <= 12,
            r matches Some(x) ==> x == (DateRange {
                start: Date { year, month, day: 1 },
                end: Date { year, month, day: days_in_month(year as int, month as int) as u32 },
            }),
    {
        if month < 1 || month > 12 {
            return None;
        }
        let last: u32 = if month == 2 {
            if (year % 4 == 0 && year % 100 != 0) || year % 400 == 0 {
                29
            } else {
                28
            }
        } else if month == 4 || month == 6 || month == 9 || month == 11 {
            30
        } else {
            31
        };
        let start = date_from_ymd(year, month, 1);
        let end = date_from_ymd(year, month, last);
        match (start, end) {
            (Some(s), Some(e)) => Some(DateRange { start: s, end: e }),
            _ => None,
        }
    }
}

} // verus!
