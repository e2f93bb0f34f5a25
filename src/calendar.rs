use vstd::prelude::*;

use chrono::{Datelike, TimeZone};

use crate::text::{padded_decimal, padded_decimal_text};

verus! {

/// A calendar date, with no time of day and no time zone.
#[derive(Clone, Copy, Debug, PartialEq, Eq, Structural)]
pub struct Date {
    pub year: i32,
    pub month: u32,
    pub day: u32,
}

impl Date {
    /// Month and day are within their ranges.
    pub open spec fn well_formed(&self) -> bool {
        1 <= self.month <= 12 && 1 <= self.day <= 31
    }
}

/// The year as `YYYY`; outside 0 to 9999 with a sign and at least four digits.
pub open spec fn iso_year(y: int) -> Seq<char> {
    if 0 <= y <= 9999 {
        padded_decimal(y as nat, 4)
    } else if y < 0 {
        seq!['-'] + padded_decimal((-y) as nat, 4)
    } else {
        seq!['+'] + padded_decimal(y as nat, 4)
    }
}

/// The date as `YYYY-MM-DD`.
pub open spec fn iso_date(d: Date) -> Seq<char> {
    iso_year(d.year as int) + seq!['-'] + padded_decimal(d.month as nat, 2) + seq!['-']
        + padded_decimal(d.day as nat, 2)
}

/// The earliest instant, in seconds after the Unix epoch, that the library handles: about the
/// year -251,500, thousands of years inside the range of dates that chrono represents.
pub const MIN_INSTANT: i64 = -8_000_000_000_000;

/// The latest instant, in seconds after the Unix epoch, that the library handles: about the year
/// 255,500, thousands of years inside the range of dates that chrono represents.
pub const MAX_INSTANT: i64 = 8_000_000_000_000;

/// Relies on chrono's TimeZone::timestamp_opt for Local, which gives a single local date-time for
/// every instant within chrono's range, and on DateTime::date_naive for its calendar date in the
/// machine's local time.
#[verifier::external_body]
pub fn local_date(utc_secs: i64) -> (r: Date)
    requires
        MIN_INSTANT <= utc_secs <= MAX_INSTANT,
    ensures
        r.well_formed(),
{
    let d = chrono::Local.timestamp_opt(utc_secs, 0).single().expect("instant within range").date_naive();
    Date { year: d.year(), month: d.month(), day: d.day() }
}

/// Writes the date as `YYYY-MM-DD`.
pub fn iso_date_text(d: &Date) -> (r: String)
    ensures
        r@ == iso_date(*d),
{
    proof {
        reveal_strlit("-");
        reveal_strlit("+");
    }
    let mut r = if d.year >= 0 && d.year <= 9999 {
        padded_decimal_text(d.year as u64, 4)
    } else if d.year < 0 {
        let magnitude: u64 = ((-(d.year as i64)) as u64);
        let digits = padded_decimal_text(magnitude, 4);
        let mut s = String::from_str("-");
        s.append(digits.as_str());
        s
    } else {
        let digits = padded_decimal_text(d.year as u64, 4);
        let mut s = String::from_str("+");
        s.append(digits.as_str());
        s
    };
    assert(r@ =~= iso_year(d.year as int));
    r.append("-");
    let month = padded_decimal_text(d.month as u64, 2);
    r.append(month.as_str());
    r.append("-");
    let day = padded_decimal_text(d.day as u64, 2);
    r.append(day.as_str());
    assert(r@ =~= iso_date(*d));
    r
}

} // verus!
