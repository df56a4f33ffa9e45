//! Fiscal year ends and the fiscal period that a fact reports.
use vstd::prelude::*;

use crate::models::CalendarDate;
use crate::models::Company;
use crate::models::FactValue;
use crate::models::FiscalPeriod;
use crate::models::Quarter;
use crate::models::fact_duration_days;
use crate::models::fact_end_date;
use crate::text::chars_of;
use crate::text::parse_u32;
use crate::text::parse_u32_spec;
use crate::text::str_eq;

verus! {

/// Taking the first two bytes of `f` falls on a character boundary, or `f`
/// is shorter than two bytes.
pub open spec fn two_byte_prefix_ok(f: Seq<char>) -> bool {
    ||| f.len() == 0
    ||| (f[0] as u32) < 0x80 && (f.len() == 1 || (f[1] as u32) < 0x80)
    ||| 0x80 <= (f[0] as u32) && (f[0] as u32) < 0x800
}

/// The fiscal year-end month: the number written by the first two
/// characters of the `MMDD` field, or 12 (December) where there is no such
/// number.
pub open spec fn fiscal_year_end_month(fye: Option<String>) -> u32 {
    match fye {
        Some(f) => if f@.len() >= 2 && (f@[0] as u32) < 0x80 && (f@[1] as u32) < 0x80 {
            match parse_u32_spec(f@.take(2)) {
                Some(m) => m,
                None => 12,
            }
        } else {
            12
        },
        None => 12,
    }
}

/// Detect a company's fiscal year-end month from its metadata.
///
/// EDGAR stores the fiscal year end as `MMDD` (`0930` for September 30);
/// without it the calendar year is assumed.
pub fn detect_fiscal_year_end(company: &Company) -> (m: u32)
    requires
        company.fiscal_year_end matches Some(f) ==> two_byte_prefix_ok(f@),
    ensures
        m == fiscal_year_end_month(company.fiscal_year_end),
{
    match &company.fiscal_year_end {
        Some(f) => {
            let v = chars_of(f.as_str());
            if v.len() >= 2 && (v[0] as u32) < 0x80 && (v[1] as u32) < 0x80 {
                let mut two: Vec<char> = Vec::new();
                two.push(v[0]);
                two.push(v[1]);
                assert(two@ =~= f@.take(2));
                match parse_u32(&two) {
                    Some(m) => m,
                    None => 12,
                }
            } else {
                12
            }
        },
        None => 12,
    }
}

/// The quarter of the fiscal year that ends in month `end_month`, for a
/// fiscal year ending in month `fy_end_month`.
pub open spec fn quarter_of_month(end_month: u32, fy_end_month: u32) -> Quarter {
    let after = if end_month > fy_end_month {
        end_month - fy_end_month
    } else {
        end_month + 12 - fy_end_month
    };
    if 1 <= after <= 3 {
        Quarter::Q1
    } else if 4 <= after <= 6 {
        Quarter::Q2
    } else if 7 <= after <= 9 {
        Quarter::Q3
    } else {
        Quarter::Q4
    }
}

/// The fiscal quarter that ends in month `end_month`.
pub fn quarter_from_end_month(end_month: u32, fy_end_month: u32) -> (q: Quarter)
    requires
        end_month <= fy_end_month ==> fy_end_month <= end_month + 12 <= u32::MAX,
    ensures
        q == quarter_of_month(end_month, fy_end_month),
{
    let months_after_fye = if end_month > fy_end_month {
        end_month - fy_end_month
    } else {
        end_month + 12 - fy_end_month
    };
    if 1 <= months_after_fye && months_after_fye <= 3 {
        Quarter::Q1
    } else if 4 <= months_after_fye && months_after_fye <= 6 {
        Quarter::Q2
    } else if 7 <= months_after_fye && months_after_fye <= 9 {
        Quarter::Q3
    } else {
        Quarter::Q4
    }
}

/// The fiscal year that a period ending on `end` belongs to.
pub open spec fn fiscal_year_of(end: CalendarDate, fy_end_month: u32) -> i32 {
    if end.month <= fy_end_month {
        end.year
    } else {
        (end.year + 1) as i32
    }
}

/// The fiscal period of a fact.
///
/// EDGAR's own fiscal year and period are used when both are present
/// (`FY` and `Q4` both give the year); otherwise the period is read from
/// the dates: 350 to 380 days is a year, 80 to 100 days a quarter, an
/// instant (no start) is classed at the year end, anything else has none.
pub open spec fn classify_period_spec(fact: FactValue, fy_end_month: u32) -> Option<FiscalPeriod> {
    match (fact.fiscal_year, fact.fiscal_period) {
        (Some(fy), Some(fp)) => if fp@ == "Q1"@ {
            Some(FiscalPeriod { year: fy, quarter: Some(Quarter::Q1) })
        } else if fp@ == "Q2"@ {
            Some(FiscalPeriod { year: fy, quarter: Some(Quarter::Q2) })
        } else if fp@ == "Q3"@ {
            Some(FiscalPeriod { year: fy, quarter: Some(Quarter::Q3) })
        } else if fp@ == "Q4"@ || fp@ == "FY"@ {
            Some(FiscalPeriod { year: fy, quarter: None })
        } else {
            None
        },
        _ => match fact_end_date(fact) {
            None => None,
            Some(end) => {
                let year = fiscal_year_of(end, fy_end_month);
                match fact_duration_days(fact) {
                    Some(d) => if 350 <= d <= 380 {
                        Some(FiscalPeriod { year, quarter: None })
                    } else if 80 <= d <= 100 {
                        Some(
                            FiscalPeriod {
                                year,
                                quarter: Some(quarter_of_month(end.month, fy_end_month)),
                            },
                        )
                    } else {
                        None
                    },
                    None => Some(FiscalPeriod { year, quarter: None }),
                }
            },
        },
    }
}

/// Classifying `fact` does not subtract past zero: where the quarter is
/// read from the end month, the fiscal year-end month is at most twelve
/// months after it.
pub open spec fn classify_period_defined(fact: FactValue, fy_end_month: u32) -> bool {
    ||| fact.fiscal_year is Some && fact.fiscal_period is Some
    ||| match (fact_end_date(fact), fact_duration_days(fact)) {
        (Some(end), Some(d)) => (350 <= d <= 380) || !(80 <= d <= 100) || fy_end_month <= end.month
            + 12,
        _ => true,
    }
}

/// Determine the fiscal period for a fact based on its dates and the fiscal year-end.
pub fn classify_period(fact: &FactValue, fy_end_month: u32) -> (r: Option<FiscalPeriod>)
    requires
        classify_period_defined(*fact, fy_end_month),
    ensures
        r == classify_period_spec(*fact, fy_end_month),
{
    // If EDGAR already provides fiscal year and period, use those
    if let (Some(fy), Some(fp)) = (fact.fiscal_year, &fact.fiscal_period) {
        let fp = fp.as_str();
        if str_eq(fp, "Q1") {
            return Some(FiscalPeriod::quarterly(fy, Quarter::Q1));
        } else if str_eq(fp, "Q2") {
            return Some(FiscalPeriod::quarterly(fy, Quarter::Q2));
        } else if str_eq(fp, "Q3") {
            return Some(FiscalPeriod::quarterly(fy, Quarter::Q3));
        } else if str_eq(fp, "Q4") || str_eq(fp, "FY") {
            return Some(FiscalPeriod::annual(fy));
        } else {
            return None;
        }
    }
    // Fall back to date-based classification
    let end_date = match fact.end_date() {
        Some(d) => d,
        None => return None,
    };
    let duration_days = fact.duration_days();
    let fiscal_year: i32 = if end_date.month <= fy_end_month {
        end_date.year
    } else {
        end_date.year + 1
    };
    match duration_days {
        Some(d) => {
            if 350 <= d && d <= 380 {
                Some(FiscalPeriod::annual(fiscal_year))
            } else if 80 <= d && d <= 100 {
                let quarter = quarter_from_end_month(end_date.month, fy_end_month);
                Some(FiscalPeriod::quarterly(fiscal_year, quarter))
            } else {
                None
            }
        },
        // Instant fact (balance sheet): classed as annual at the fiscal year end
        None => Some(FiscalPeriod::annual(fiscal_year)),
    }
}

/// `classify_period` where it is defined; `None` where classifying `fact`
/// would subtract past zero (a fiscal year-end month more than twelve
/// months after the end month of a quarter-long fact).
pub fn try_classify_period(fact: &FactValue, fy_end_month: u32) -> (r: Option<Option<FiscalPeriod>>)
    ensures
        r is Some <==> classify_period_defined(*fact, fy_end_month),
        r matches Some(p) ==> p == classify_period_spec(*fact, fy_end_month),
{
    let defined = if fact.fiscal_year.is_some() && fact.fiscal_period.is_some() {
        true
    } else {
        match (fact.end_date(), fact.duration_days()) {
            (Some(end), Some(d)) => (350 <= d && d <= 380) || !(80 <= d && d <= 100) || fy_end_month
                <= end.month + 12,
            _ => true,
        }
    };
    if defined {
        Some(classify_period(fact, fy_end_month))
    } else {
        None
    }
}

/// Where EDGAR gives a fiscal year `y` and period, that decides: `Q1`,
/// `Q2` and `Q3` are those quarters of `y`, `Q4` and `FY` the whole year
/// `y`, and any other period name gives no period, whatever the dates and
/// the fiscal year-end month.
pub proof fn lemma_edgar_period_decides(fact: FactValue, fy_end_month: u32)
    requires
        fact.fiscal_year is Some,
        fact.fiscal_period is Some,
    ensures
        ({
            let y = fact.fiscal_year->0;
            let fp = fact.fiscal_period->0@;
            let r = classify_period_spec(fact, fy_end_month);
            &&& fp == "Q1"@ ==> r == Some(FiscalPeriod { year: y, quarter: Some(Quarter::Q1) })
            &&& fp == "Q2"@ ==> r == Some(FiscalPeriod { year: y, quarter: Some(Quarter::Q2) })
            &&& fp == "Q3"@ ==> r == Some(FiscalPeriod { year: y, quarter: Some(Quarter::Q3) })
            &&& fp == "Q4"@ ==> r == Some(FiscalPeriod { year: y, quarter: None })
            &&& fp == "FY"@ ==> r == Some(FiscalPeriod { year: y, quarter: None })
            &&& !(fp == "Q1"@ || fp == "Q2"@ || fp == "Q3"@ || fp == "Q4"@ || fp == "FY"@) ==> r is None
        }),
{
    reveal_strlit("Q1");
    reveal_strlit("Q2");
    reveal_strlit("Q3");
    reveal_strlit("Q4");
    reveal_strlit("FY");
    assert("Q1"@ != "Q2"@ && "Q1"@ != "Q3"@ && "Q1"@ != "Q4"@ && "Q1"@ != "FY"@) by {
        assert("Q1"@[1] != "Q2"@[1] && "Q1"@[1] != "Q3"@[1] && "Q1"@[1] != "Q4"@[1] && "Q1"@[0] != "FY"@[0]);
    }
    assert("Q2"@ != "Q3"@ && "Q2"@ != "Q4"@ && "Q2"@ != "FY"@) by {
        assert("Q2"@[1] != "Q3"@[1] && "Q2"@[1] != "Q4"@[1] && "Q2"@[0] != "FY"@[0]);
    }
    assert("Q3"@ != "Q4"@ && "Q3"@ != "FY"@) by {
        assert("Q3"@[1] != "Q4"@[1] && "Q3"@[0] != "FY"@[0]);
    }
}

/// Without EDGAR's fiscal year and period, the dates decide. The fiscal
/// year is the end date's year, or the next one when the end month falls
/// after the fiscal year-end month. A fact spanning 350 to 380 days, or an
/// instant, is that whole year; one spanning 80 to 100 days is the quarter
/// that ends 1-3, 4-6, 7-9 or 10-12 months after the fiscal year-end month
/// (Q1 to Q4); any other span, or an unreadable end date, gives no period.
/// (Every date chrono reads has a month of at least 1 and a year below
/// `i32::MAX`, as `FactValue::end_date` ensures.)
pub proof fn lemma_dates_decide(fact: FactValue, fy_end_month: u32)
    requires
        !(fact.fiscal_year is Some && fact.fiscal_period is Some),
        fy_end_month <= 12,
        fact_end_date(fact) matches Some(e) ==> e.year < i32::MAX && 1 <= e.month,
    ensures
        ({
            let r = classify_period_spec(fact, fy_end_month);
            match fact_end_date(fact) {
                None => r is None,
                Some(end) => {
                    let year: int = if end.month > fy_end_month {
                        end.year + 1
                    } else {
                        end.year as int
                    };
                    let after: int = if end.month > fy_end_month {
                        end.month - fy_end_month
                    } else {
                        end.month + 12 - fy_end_month
                    };
                    match fact_duration_days(fact) {
                        None => r matches Some(p) && p.year == year && p.quarter is None,
                        Some(d) => if 350 <= d <= 380 {
                            r matches Some(p) && p.year == year && p.quarter is None
                        } else if 80 <= d <= 100 {
                            r matches Some(p) && p.year == year && p.quarter == Some(
                                if after <= 3 {
                                    Quarter::Q1
                                } else if after <= 6 {
                                    Quarter::Q2
                                } else if after <= 9 {
                                    Quarter::Q3
                                } else {
                                    Quarter::Q4
                                },
                            )
                        } else {
                            r is None
                        },
                    }
                },
            }
        }),
{
}

} // verus!
