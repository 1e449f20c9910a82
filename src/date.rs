//! Calendar dates, as a date picker holds them.
use vstd::prelude::*;

use crate::json::{decimal, quote, quoted, ToJson};

verus! {

/// The earliest year that chrono's `NaiveDate` represents.
pub const MIN_YEAR: i32 = -262143;

/// The latest year that chrono's `NaiveDate` represents.
pub const MAX_YEAR: i32 = 262142;

pub open spec fn is_leap_year(y: int) -> bool {
    y % 4 == 0 && (y % 100 != 0 || y % 400 == 0)
}

pub open spec fn days_in_month(y: int, m: int) -> int {
    if m == 2 {
        if is_leap_year(y) {
            29
        } else {
            28
        }
    } else if m == 4 || m == 6 || m == 9 || m == 11 {
        30
    } else {
        31
    }
}

/// An existing day of the proleptic Gregorian calendar, within the years chrono handles.
pub open spec fn valid_date(y: int, m: int, d: int) -> bool {
    &&& MIN_YEAR <= y <= MAX_YEAR
    &&& 1 <= m <= 12
    &&& 1 <= d <= days_in_month(y, m)
}

/// The decimal digits of `n`, with leading zeros up to `width` digits.
pub open spec fn padded(n: nat, width: nat) -> Seq<char> {
    let digits = decimal(n);
    if digits.len() >= width {
        digits
    } else {
        Seq::new((width - digits.len()) as nat, |i: int| '0') + digits
    }
}

/// A year as `%Y` writes it: four digits for 0 to 9999, otherwise a sign and at
/// least four digits.
pub open spec fn year_text(y: int) -> Seq<char> {
    if 0 <= y <= 9999 {
        padded(y as nat, 4)
    } else if y > 9999 {
        seq!['+'] + padded(y as nat, 4)
    } else {
        seq!['-'] + padded((-y) as nat, 4)
    }
}

/// The `YYYY-MM-DD` form of a date.
pub open spec fn iso_date(y: int, m: int, d: int) -> Seq<char> {
    year_text(y) + seq!['-'] + padded(m as nat, 2) + seq!['-'] + padded(d as nat, 2)
}

/// Relies on chrono's `NaiveDate::from_ymd_opt`: it gives a date exactly when the
/// year is in chrono's range, the month in 1..=12 and the day exists in that month.
#[verifier::external_body]
fn date_exists(year: i32, month: u32, day: u32) -> (r: bool)
    ensures
        r == valid_date(year as int, month as int, day as int),
{
    chrono::NaiveDate::from_ymd_opt(year, month, day).is_some()
}

/// Relies on chrono's `NaiveDate::format` with `%Y-%m-%d`: the year as `%Y`
/// writes it, then month and day as two zero-padded digits each.
#[verifier::external_body]
fn iso_text(year: i32, month: u32, day: u32) -> (r: String)
    requires
        valid_date(year as int, month as int, day as int),
    ensures
        r@ == iso_date(year as int, month as int, day as int),
{
    chrono::NaiveDate::from_ymd_opt(year, month, day).unwrap().format("%Y-%m-%d").to_string()
}

/// A calendar date: a year, a month and a day that exists in that month.
#[derive(Clone, Copy, Debug, PartialEq, Eq)]
pub struct Date {
    year: i32,
    month: u32,
    day: u32,
}

impl Date {
    #[verifier::type_invariant]
    spec fn inv(self) -> bool {
        valid_date(self.year as int, self.month as int, self.day as int)
    }

    pub closed spec fn year(&self) -> int {
        self.year as int
    }

    pub closed spec fn month(&self) -> int {
        self.month as int
    }

    pub closed spec fn day(&self) -> int {
        self.day as int
    }

    /// The date with the given year, month (1 to 12) and day of the month, if it exists.
    pub fn from_ymd(year: i32, month: u32, day: u32) -> (r: Option<Date>)
        ensures
            r is Some <==> valid_date(year as int, month as int, day as int),
            r matches Some(d) ==> d.year() == year && d.month() == month && d.day() == day,
    {
        if date_exists(year, month, day) {
            Some(Date { year, month, day })
        } else {
            None
        }
    }

    /// The date as `YYYY-MM-DD`.
    pub fn to_iso_string(&self) -> (r: String)
        ensures
            r@ == iso_date(self.year(), self.month(), self.day()),
    {
        proof {
            use_type_invariant(self);
        }
        iso_text(self.year, self.month, self.day)
    }
}

impl ToJson for Date {
    open spec fn json(&self) -> Seq<char> {
        quoted(iso_date(self.year(), self.month(), self.day()))
    }

    fn to_json(&self) -> (r: String) {
        let s = self.to_iso_string();
        quote(s.as_str())
    }
}

} // verus!
