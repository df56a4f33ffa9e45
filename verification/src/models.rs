//! The EDGAR records that the standardizer and the watcher read: XBRL fact
//! values, fiscal periods, company metadata and feed entries.
use vstd::prelude::*;

use crate::dates::days_between;
use crate::dates::days_between_spec;
use crate::dates::iso_date_of;
use crate::dates::parse_iso_date;
use crate::standardizer::resolution::copy_opt_string;
use crate::text::opt_str_is;

verus! {

/// A fiscal quarter.
#[derive(Debug, Clone, Copy, PartialEq, Eq, Structural, Hash, PartialOrd, Ord)]
pub enum Quarter {
    Q1,
    Q2,
    Q3,
    Q4,
}

/// A fiscal year, or one quarter of it.
#[derive(Debug, Clone, Copy, PartialEq, Eq, Structural, Hash, PartialOrd, Ord)]
pub struct FiscalPeriod {
    pub year: i32,
    /// `None` for the whole year.
    pub quarter: Option<Quarter>,
}

impl FiscalPeriod {
    /// The whole fiscal year `year`.
    pub fn annual(year: i32) -> (p: FiscalPeriod)
        ensures
            p == (FiscalPeriod { year, quarter: None }),
    {
        FiscalPeriod { year, quarter: None }
    }

    /// Quarter `quarter` of fiscal year `year`.
    pub fn quarterly(year: i32, quarter: Quarter) -> (p: FiscalPeriod)
        ensures
            p == (FiscalPeriod { year, quarter: Some(quarter) }),
    {
        FiscalPeriod { year, quarter: Some(quarter) }
    }
}

/// A calendar date.
#[derive(Debug, Clone, Copy, PartialEq, Eq, Structural)]
pub struct CalendarDate {
    pub year: i32,
    pub month: u32,
    pub day: u32,
}

/// One reported value of an XBRL fact.
///
/// The amount itself is kept by the caller, beside the fact, at the same
/// position; the fact records whether there is one.
#[derive(Debug, Clone)]
pub struct FactValue {
    /// Date the filing was filed, `YYYY-MM-DD`.
    pub filed: String,
    /// Start of the reported period; `None` for an instant.
    pub start: Option<String>,
    /// End of the reported period, `YYYY-MM-DD`.
    pub end: String,
    /// Whether the fact carries an amount.
    pub has_val: bool,
    /// Accession number of the filing.
    pub accession: String,
    /// Form type of the filing, such as `10-K`.
    pub form: Option<String>,
    /// Fiscal year as EDGAR reports it.
    pub fiscal_year: Option<i32>,
    /// Fiscal period as EDGAR reports it: `FY`, `Q1`..`Q4`.
    pub fiscal_period: Option<String>,
    /// SEC frame, such as `CY2023`, when EDGAR picked this fact for it.
    pub frame: Option<String>,
}

/// Whether an optional string holds exactly the characters of `lit`.
pub open spec fn opt_is(o: Option<String>, lit: Seq<char>) -> bool {
    o matches Some(s) && s@ == lit
}

/// A fact reports a whole fiscal year: its fiscal period is `FY`.
pub open spec fn fact_is_annual(f: FactValue) -> bool {
    opt_is(f.fiscal_period, "FY"@)
}

/// A fact reports one quarter: its fiscal period is `Q1`..`Q4`.
pub open spec fn fact_is_quarterly(f: FactValue) -> bool {
    opt_is(f.fiscal_period, "Q1"@) || opt_is(f.fiscal_period, "Q2"@) || opt_is(
        f.fiscal_period,
        "Q3"@,
    ) || opt_is(f.fiscal_period, "Q4"@)
}

/// The end date of a fact, as chrono reads it.
pub open spec fn fact_end_date(f: FactValue) -> Option<CalendarDate> {
    match iso_date_of(f.end@) {
        Some((y, m, d)) => Some(CalendarDate { year: y, month: m, day: d }),
        None => None,
    }
}

/// The length of a fact's period in days; `None` for an instant or where a
/// date cannot be read.
pub open spec fn fact_duration_days(f: FactValue) -> Option<int> {
    match f.start {
        Some(s) => days_between_spec(s@, f.end@),
        None => None,
    }
}

impl FactValue {
    /// A copy of this fact.
    pub fn copy(&self) -> (r: FactValue)
        ensures
            r == *self,
    {
        FactValue {
            filed: self.filed.clone(),
            start: copy_opt_string(&self.start),
            end: self.end.clone(),
            has_val: self.has_val,
            accession: self.accession.clone(),
            form: copy_opt_string(&self.form),
            fiscal_year: self.fiscal_year,
            fiscal_period: copy_opt_string(&self.fiscal_period),
            frame: copy_opt_string(&self.frame),
        }
    }

    /// Whether this fact reports a whole fiscal year.
    pub fn is_annual(&self) -> (r: bool)
        ensures
            r == fact_is_annual(*self),
    {
        opt_str_is(&self.fiscal_period, "FY")
    }

    /// Whether this fact reports one fiscal quarter.
    pub fn is_quarterly(&self) -> (r: bool)
        ensures
            r == fact_is_quarterly(*self),
    {
        opt_str_is(&self.fiscal_period, "Q1") || opt_str_is(&self.fiscal_period, "Q2")
            || opt_str_is(&self.fiscal_period, "Q3") || opt_str_is(&self.fiscal_period, "Q4")
    }

    /// The end date of the reported period.
    pub fn end_date(&self) -> (r: Option<CalendarDate>)
        ensures
            r == fact_end_date(*self),
            r matches Some(d) ==> 1 <= d.month <= 12 && -262143 <= d.year <= 262143,
    {
        match parse_iso_date(self.end.as_str()) {
            Some((y, m, d)) => Some(CalendarDate { year: y, month: m, day: d }),
            None => None,
        }
    }

    /// The length of the reported period in days; `None` for an instant.
    pub fn duration_days(&self) -> (r: Option<i64>)
        ensures
            match r {
                Some(d) => fact_duration_days(*self) == Some(d as int),
                None => fact_duration_days(*self) is None,
            },
    {
        match &self.start {
            Some(s) => days_between(s.as_str(), self.end.as_str()),
            None => None,
        }
    }
}

/// Company metadata as EDGAR's submissions API gives it.
#[derive(Debug, Clone)]
pub struct Company {
    pub cik: u64,
    pub name: String,
    pub tickers: Vec<String>,
    pub exchanges: Vec<String>,
    /// Standard Industrial Classification code.
    pub sic: Option<String>,
    pub sic_description: Option<String>,
    pub state_of_incorporation: Option<String>,
    /// Fiscal year end as `MMDD`, such as `0930`.
    pub fiscal_year_end: Option<String>,
    pub entity_type: Option<String>,
    pub category: Option<String>,
    pub ein: Option<String>,
    pub phone: Option<String>,
    pub website: Option<String>,
    pub investor_website: Option<String>,
    pub description: Option<String>,
}

/// One entry of EDGAR's recent-filings feed.
#[derive(Debug, Clone)]
pub struct FeedEntry {
    pub title: String,
    pub link: String,
    pub company_name: Option<String>,
    pub cik: Option<String>,
    pub form_type: Option<String>,
    pub accession_number: Option<String>,
}

} // verus!
