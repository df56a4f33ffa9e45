//! Calendar dates, read with chrono.
use chrono::Datelike;
use vstd::prelude::*;

verus! {

/// What chrono's `NaiveDate::parse_from_str(s, "%Y-%m-%d")` reads from `s`,
/// as (year, month, day), or `None` where it refuses `s`.
pub uninterp spec fn iso_date_of(s: Seq<char>) -> Option<(i32, u32, u32)>;

/// A leap year of the proleptic Gregorian calendar.
pub open spec fn is_leap_year(year: int) -> bool {
    year % 4 == 0 && (year % 100 != 0 || year % 400 == 0)
}

/// The number of days of month `month` (1 to 12) of `year`.
pub open spec fn month_length(year: int, month: int) -> int {
    if month == 2 {
        if is_leap_year(year) {
            29
        } else {
            28
        }
    } else if month == 4 || month == 6 || month == 9 || month == 11 {
        30
    } else {
        31
    }
}

/// A date that chrono's `NaiveDate` holds: a year in its range
/// (`MIN_YEAR` -262143 to `MAX_YEAR` 262142), a month, and a day of that
/// month.
pub open spec fn valid_date(year: int, month: int, day: int) -> bool {
    &&& -262143 <= year <= 262142
    &&& 1 <= month <= 12
    &&& 1 <= day <= month_length(year, month)
}

/// The days of `year` before the first of month `month`.
pub open spec fn days_before_month(year: int, month: int) -> int
    decreases month,
{
    if month <= 1 {
        0
    } else {
        days_before_month(year, month - 1) + month_length(year, month - 1)
    }
}

/// The day number of a date in the proleptic Gregorian calendar, with
/// January 1 of year 1 as day 1 (`Datelike::num_days_from_ce`).
pub open spec fn days_from_ce(year: int, month: int, day: int) -> int {
    let p = year - 1;
    365 * p + p / 4 - p / 100 + p / 400 + days_before_month(year, month) + day
}

/// Reads a `YYYY-MM-DD` date with `chrono::NaiveDate::parse_from_str`.
///
/// Trusted: the result is the name `iso_date_of` of the text; a date that
/// chrono accepts is one that `NaiveDate` holds (`valid_date`).
#[verifier::external_body]
pub(crate) fn parse_iso_date(s: &str) -> (r: Option<(i32, u32, u32)>)
    ensures
        r == iso_date_of(s@),
        r matches Some((y, m, d)) ==> valid_date(y as int, m as int, d as int),
{
    match chrono::NaiveDate::parse_from_str(s, "%Y-%m-%d") {
        Ok(date) => Some((date.year(), date.month(), date.day())),
        Err(_) => None,
    }
}

/// The day number of a date, from `chrono::NaiveDate::from_ymd_opt` and
/// `Datelike::num_days_from_ce`.
///
/// Trusted: `from_ymd_opt` accepts exactly the dates that `NaiveDate`
/// holds (`valid_date`), and `num_days_from_ce` counts days from January 1
/// of year 1 as day 1 (`days_from_ce`).
#[verifier::external_body]
pub(crate) fn day_number(year: i32, month: u32, day: u32) -> (r: Option<i32>)
    ensures
        r is Some <==> valid_date(year as int, month as int, day as int),
        r matches Some(n) ==> n as int == days_from_ce(year as int, month as int, day as int),
{
    match chrono::NaiveDate::from_ymd_opt(year, month, day) {
        Some(date) => Some(date.num_days_from_ce()),
        None => None,
    }
}

/// Today's date in UTC, written `YYYY-MM-DD`, from `chrono::Utc::now()`
/// and `format("%Y-%m-%d")`.
///
/// Trusted: which date it is depends on the clock, so only its form is
/// stated: chrono reads the text back as a date (`iso_date_of` is `Some`),
/// since `%Y-%m-%d` writes every date that chrono holds in a form that the
/// same pattern parses.
#[verifier::external_body]
pub(crate) fn today_utc_string() -> (r: String)
    ensures
        iso_date_of(r@) is Some,
{
    chrono::Utc::now().format("%Y-%m-%d").to_string()
}

/// The number of days from the date `start` to the date `end`, both read
/// with `parse_iso_date`; `None` where either is refused.
pub open spec fn days_between_spec(start: Seq<char>, end: Seq<char>) -> Option<int> {
    match (iso_date_of(start), iso_date_of(end)) {
        (Some((sy, sm, sd)), Some((ey, em, ed))) => Some(
            days_from_ce(ey as int, em as int, ed as int) - days_from_ce(sy as int, sm as int, sd as int),
        ),
        _ => None,
    }
}

/// The number of days from `start` to `end`, both `YYYY-MM-DD` dates.
pub fn days_between(start: &str, end: &str) -> (r: Option<i64>)
    ensures
        match r {
            Some(d) => days_between_spec(start@, end@) == Some(d as int),
            None => days_between_spec(start@, end@) is None,
        },
{
    let s = parse_iso_date(start);
    let e = parse_iso_date(end);
    match (s, e) {
        (Some((sy, sm, sd)), Some((ey, em, ed))) => {
            match (day_number(sy, sm, sd), day_number(ey, em, ed)) {
                (Some(a), Some(b)) => Some(b as i64 - a as i64),
                _ => None,
            }
        },
        _ => None,
    }
}

} // verus!
