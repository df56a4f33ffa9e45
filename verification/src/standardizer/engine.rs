//! The standardization engine: an index over a company's XBRL facts, and
//! which facts each metric draws on in each fiscal period.
use vstd::prelude::*;

use crate::models::Company;
use crate::models::FactValue;
use crate::models::FiscalPeriod;
use crate::models::Quarter;
use crate::models::fact_is_annual;
use crate::models::fact_is_quarterly;
use crate::models::opt_is;
use crate::standardizer::dedup::dedup_facts;
use crate::standardizer::dedup::dedup_order;
use crate::standardizer::dedup::is_chosen;
use crate::standardizer::dedup::is_dedup_of;
use crate::standardizer::resolution::copy_opt_string;
use crate::text::lex_lt;
use crate::standardizer::period_align::detect_fiscal_year_end;
use crate::standardizer::period_align::fiscal_year_end_month;
use crate::standardizer::period_align::two_byte_prefix_ok;
use crate::standardizer::catalog::DefinitionView;
use crate::standardizer::catalog::MetricCatalog;
use crate::standardizer::catalog::MetricDefinition;
use crate::standardizer::catalog::DefaultCatalog;
use crate::standardizer::catalog::defs_view;
use crate::standardizer::catalog::extend_definitions;
use crate::standardizer::catalog::sector::sector_definitions;
use crate::standardizer::catalog::sector::sector_definitions_spec;
use crate::standardizer::output::StandardMetric;
use crate::standardizer::output::metric_is_ratio;
use crate::standardizer::resolution::MetricResolution;
use crate::standardizer::resolution::ResolutionView;
use crate::standardizer::resolution::TagSpec;
use crate::standardizer::resolution::TagSpecView;
use crate::standardizer::resolution::specs_view;
use crate::text::opt_str_is;
use crate::text::str_eq;

verus! {

/// The facts reported for one (taxonomy, tag, unit).
#[derive(Debug, Clone)]
pub struct FactSeries {
    pub taxonomy: String,
    pub tag: String,
    /// Human-readable label of the tag, when the filer gave one.
    pub label: Option<String>,
    pub unit: String,
    pub facts: Vec<FactValue>,
}

/// Index over a company's XBRL facts for lookup by taxonomy, tag and unit.
/// Each series holds its facts deduplicated per end date and sorted by end.
#[derive(Debug)]
pub struct FactIndex {
    series: Vec<FactSeries>,
    /// For each series, the position in the input series of each kept fact.
    origins: Vec<Vec<usize>>,
    fy_end_month: u32,
}

/// The facts kept by deduplication, in increasing order of end date.
pub open spec fn deduped_facts(facts: Seq<FactValue>) -> Seq<FactValue> {
    dedup_order(facts).map_values(|k: usize| facts[k as int])
}

/// Facts in strictly increasing order of end date: at most one per end date.
pub open spec fn sorted_by_end_date(facts: Seq<FactValue>) -> bool {
    forall|p: int, q: int| 0 <= p < q < facts.len() ==> lex_lt(facts[p].end@, facts[q].end@)
}

/// Series `s` of the index is series `s` of the input, with its facts
/// deduplicated and sorted by end date.
pub open spec fn indexed_series(input: FactSeries, s: FactSeries) -> bool {
    &&& s.taxonomy == input.taxonomy
    &&& s.tag == input.tag
    &&& s.label == input.label
    &&& s.unit == input.unit
    &&& s.facts@ == deduped_facts(input.facts@)
}

/// Series `i` is the one kept for its key: no later series has the same
/// (taxonomy, tag, unit), as a map keyed by them keeps the last insert.
pub open spec fn is_series_for(
    series: Seq<FactSeries>,
    i: int,
    taxonomy: Seq<char>,
    tag: Seq<char>,
    unit: Seq<char>,
) -> bool {
    &&& 0 <= i < series.len()
    &&& has_key(series[i], taxonomy, tag, unit)
    &&& forall|j: int| i < j < series.len() ==> !has_key(#[trigger] series[j], taxonomy, tag, unit)
}

/// A series has the key (taxonomy, tag, unit).
pub open spec fn has_key(s: FactSeries, taxonomy: Seq<char>, tag: Seq<char>, unit: Seq<char>) -> bool {
    s.taxonomy@ == taxonomy && s.tag@ == tag && s.unit@ == unit
}

/// Some series has the key (taxonomy, tag, unit).
pub open spec fn key_present(series: Seq<FactSeries>, taxonomy: Seq<char>, tag: Seq<char>, unit: Seq<char>) -> bool {
    exists|j: int| 0 <= j < series.len() && has_key(#[trigger] series[j], taxonomy, tag, unit)
}

/// The unit under which a tag specification is found: its own unit, or
/// else the first of the common units that has a series.
pub open spec fn unit_for(series: Seq<FactSeries>, spec: TagSpecView) -> Option<Seq<char>> {
    match spec.unit {
        Some(u) => if key_present(series, spec.taxonomy, spec.tag, u) {
            Some(u)
        } else {
            None
        },
        None => if key_present(series, spec.taxonomy, spec.tag, "USD"@) {
            Some("USD"@)
        } else if key_present(series, spec.taxonomy, spec.tag, "shares"@) {
            Some("shares"@)
        } else if key_present(series, spec.taxonomy, spec.tag, "USD/shares"@) {
            Some("USD/shares"@)
        } else if key_present(series, spec.taxonomy, spec.tag, "pure"@) {
            Some("pure"@)
        } else {
            None
        },
    }
}

/// Fact `f` matches a fiscal period: its fiscal year is the period's year,
/// and its fiscal period is `FY` (or it is a 10-K without one) for a year,
/// or the quarter's name for a quarter.
pub open spec fn fact_matches_period(f: FactValue, period: FiscalPeriod) -> bool {
    &&& f.fiscal_year == Some(period.year)
    &&& match period.quarter {
        None => opt_is(f.fiscal_period, "FY"@) || (opt_is(f.form, "10-K"@) && f.fiscal_period is None),
        Some(Quarter::Q1) => opt_is(f.fiscal_period, "Q1"@),
        Some(Quarter::Q2) => opt_is(f.fiscal_period, "Q2"@),
        Some(Quarter::Q3) => opt_is(f.fiscal_period, "Q3"@),
        Some(Quarter::Q4) => opt_is(f.fiscal_period, "Q4"@),
    }
}

/// The last position of `order` whose fact matches `period` (and has a
/// frame, when `framed_only`).
pub open spec fn last_match(
    facts: Seq<FactValue>,
    order: Seq<usize>,
    period: FiscalPeriod,
    framed_only: bool,
) -> Option<int>
    decreases order.len(),
{
    if order.len() == 0 {
        None
    } else {
        let f = facts[order.last() as int];
        if fact_matches_period(f, period) && (!framed_only || f.frame is Some) {
            Some(order.len() - 1)
        } else {
            last_match(facts, order.drop_last(), period, framed_only)
        }
    }
}

/// The fact that best matches a period among those at the positions
/// `order`: the last matching framed fact, or else the last matching fact.
pub open spec fn period_match(facts: Seq<FactValue>, order: Seq<usize>, period: FiscalPeriod) -> Option<int> {
    match last_match(facts, order, period, true) {
        Some(p) => Some(order[p] as int),
        None => match last_match(facts, order, period, false) {
            Some(p) => Some(order[p] as int),
            None => None,
        },
    }
}

proof fn lemma_last_match_bounds(facts: Seq<FactValue>, order: Seq<usize>, period: FiscalPeriod, framed_only: bool)
    ensures
        last_match(facts, order, period, framed_only) matches Some(p) ==> 0 <= p < order.len(),
    decreases order.len(),
{
    if order.len() > 0 {
        lemma_last_match_bounds(facts, order.drop_last(), period, framed_only);
    }
}

fn matches_period(f: &FactValue, period: &FiscalPeriod) -> (r: bool)
    ensures
        r == fact_matches_period(*f, *period),
{
    let fy_match = match f.fiscal_year {
        Some(y) => y == period.year,
        None => false,
    };
    let period_match = match period.quarter {
        None => opt_str_is(&f.fiscal_period, "FY") || (opt_str_is(&f.form, "10-K")
            && f.fiscal_period.is_none()),
        Some(Quarter::Q1) => opt_str_is(&f.fiscal_period, "Q1"),
        Some(Quarter::Q2) => opt_str_is(&f.fiscal_period, "Q2"),
        Some(Quarter::Q3) => opt_str_is(&f.fiscal_period, "Q3"),
        Some(Quarter::Q4) => opt_str_is(&f.fiscal_period, "Q4"),
    };
    fy_match && period_match
}

fn find_last_match(facts: &[FactValue], order: &Vec<usize>, period: &FiscalPeriod, framed_only: bool) -> (r: Option<usize>)
    requires
        forall|q: int| 0 <= q < order@.len() ==> #[trigger] order@[q] < facts@.len(),
    ensures
        match r {
            Some(p) => last_match(facts@, order@, *period, framed_only) == Some(p as int),
            None => last_match(facts@, order@, *period, framed_only) is None,
        },
{
    let mut k: usize = order.len();
    assert(order@.take(k as int) =~= order@);
    while k > 0
        invariant
            k <= order@.len(),
            forall|q: int| 0 <= q < order@.len() ==> #[trigger] order@[q] < facts@.len(),
            last_match(facts@, order@, *period, framed_only) == last_match(
                facts@,
                order@.take(k as int),
                *period,
                framed_only,
            ),
        decreases k,
    {
        let f = &facts[order[k - 1]];
        let ghost t = order@.take(k as int);
        assert(t.last() == order@[k - 1]);
        assert(t.drop_last() =~= order@.take(k - 1));
        if matches_period(f, period) && (!framed_only || f.frame.is_some()) {
            return Some(k - 1);
        }
        k = k - 1;
    }
    None
}

/// Find the fact that best matches a fiscal period, among the facts at
/// the positions `order` (as `dedup_facts` gives them): the last matching
/// framed fact, or else the last matching fact.
pub fn find_period_match(facts: &[FactValue], order: &Vec<usize>, period: &FiscalPeriod) -> (r: Option<usize>)
    requires
        forall|q: int| 0 <= q < order@.len() ==> #[trigger] order@[q] < facts@.len(),
    ensures
        r matches Some(i) ==> i < facts@.len(),
        match r {
            Some(i) => period_match(facts@, order@, *period) == Some(i as int),
            None => period_match(facts@, order@, *period) is None,
        },
{
    proof {
        lemma_last_match_bounds(facts@, order@, *period, true);
        lemma_last_match_bounds(facts@, order@, *period, false);
    }
    // Prefer framed facts
    match find_last_match(facts, order, period, true) {
        Some(p) => Some(order[p]),
        None => match find_last_match(facts, order, period, false) {
            Some(p) => Some(order[p]),
            None => None,
        },
    }
}

/// The number of a quarter, 1 to 4.
pub open spec fn quarter_number(q: Quarter) -> int {
    match q {
        Quarter::Q1 => 1,
        Quarter::Q2 => 2,
        Quarter::Q3 => 3,
        Quarter::Q4 => 4,
    }
}

/// The quarter that a fiscal period name `Q1`..`Q4` stands for.
pub open spec fn quarter_named(fp: Option<String>) -> Option<Quarter> {
    if opt_is(fp, "Q1"@) {
        Some(Quarter::Q1)
    } else if opt_is(fp, "Q2"@) {
        Some(Quarter::Q2)
    } else if opt_is(fp, "Q3"@) {
        Some(Quarter::Q3)
    } else if opt_is(fp, "Q4"@) {
        Some(Quarter::Q4)
    } else {
        None
    }
}

/// Period `a` comes strictly before period `b`: by year, then by quarter.
pub open spec fn period_before(a: FiscalPeriod, b: FiscalPeriod) -> bool {
    ||| a.year < b.year
    ||| a.year == b.year && match (a.quarter, b.quarter) {
        (Some(qa), Some(qb)) => quarter_number(qa) < quarter_number(qb),
        (None, Some(_)) => true,
        _ => false,
    }
}

/// A sequence of periods in strictly increasing order.
pub open spec fn strictly_increasing(ps: Seq<FiscalPeriod>) -> bool {
    forall|i: int, j: int| 0 <= i < j < ps.len() ==> period_before(ps[i], ps[j])
}

impl FactIndex {
    /// Every series holds its facts sorted by end date, and each has its
    /// positions in the input.
    #[verifier::type_invariant]
    closed spec fn index_wf(&self) -> bool {
        &&& self.origins@.len() == self.series@.len()
        &&& forall|s: int| 0 <= s < self.series@.len() ==> sorted_by_end_date(#[trigger] self.series@[s].facts@)
    }

    /// Builds the index from the series of a company's facts: each series
    /// keeps its facts deduplicated per end date (as `dedup_facts` chooses
    /// them) and sorted by end date; a later series replaces an earlier one
    /// with the same (taxonomy, tag, unit).
    pub fn build(series: Vec<FactSeries>, company: &Company) -> (idx: Self)
        requires
            company.fiscal_year_end matches Some(f) ==> two_byte_prefix_ok(f@),
        ensures
            idx.spec_series().len() == series@.len(),
            forall|s: int| 0 <= s < series@.len() ==> indexed_series(series@[s], #[trigger] idx.spec_series()[s]),
            forall|s: int| 0 <= s < series@.len() ==> #[trigger] idx.spec_origins()[s] == dedup_order(series@[s].facts@),
            idx.spec_fy_end_month() == fiscal_year_end_month(company.fiscal_year_end),
    {
        let fy_end_month = detect_fiscal_year_end(company);
        let mut out: Vec<FactSeries> = Vec::new();
        let mut origins: Vec<Vec<usize>> = Vec::new();
        let mut i: usize = 0;
        while i < series.len()
            invariant
                i <= series@.len(),
                out@.len() == i,
                origins@.len() == i,
                forall|s: int| 0 <= s < i ==> indexed_series(series@[s], #[trigger] out@[s]),
                forall|s: int| 0 <= s < i ==> #[trigger] origins@[s]@ == dedup_order(series@[s].facts@),
                forall|s: int| 0 <= s < i ==> sorted_by_end_date(#[trigger] out@[s].facts@),
            decreases series.len() - i,
        {
            let src = &series[i];
            let order = dedup_facts(src.facts.as_slice());
            let ghost fs = src.facts@;
            let mut facts: Vec<FactValue> = Vec::new();
            let mut j: usize = 0;
            while j < order.len()
                invariant
                    fs == src.facts@,
                    is_dedup_of(fs, order@),
                    j <= order@.len(),
                    facts@ == order@.take(j as int).map_values(|k: usize| fs[k as int]),
                decreases order.len() - j,
            {
                assert(is_chosen(fs, order@[j as int] as int));
                let f = src.facts[order[j]].copy();
                proof {
                    assert(order@.take(j + 1) =~= order@.take(j as int).push(order@[j as int]));
                }
                facts.push(f);
                assert(facts@ =~= order@.take(j + 1).map_values(|k: usize| fs[k as int]));
                j = j + 1;
            }
            proof {
                assert(order@.take(j as int) =~= order@);
                assert forall|p: int, q: int| 0 <= p < q < facts@.len() implies lex_lt(
                    facts@[p].end@,
                    facts@[q].end@,
                ) by {
                    assert(facts@[p] == fs[order@[p] as int]);
                    assert(facts@[q] == fs[order@[q] as int]);
                }
            }
            let ns = FactSeries {
                taxonomy: src.taxonomy.clone(),
                tag: src.tag.clone(),
                label: copy_opt_string(&src.label),
                unit: src.unit.clone(),
                facts,
            };
            out.push(ns);
            origins.push(order);
            i = i + 1;
        }
        FactIndex { series: out, origins, fy_end_month }
    }

    /// The series of the index.
    pub closed spec fn spec_series(&self) -> Seq<FactSeries> {
        self.series@
    }

    /// For each series, the input position of each of its facts.
    pub closed spec fn spec_origins(&self) -> Seq<Seq<usize>> {
        self.origins@.map_values(|o: Vec<usize>| o@)
    }

    /// The position in the input of the fact `r` of the index, if `r`
    /// names one.
    pub fn origin(&self, r: FactRef) -> (o: Option<usize>)
        ensures
            o == (if r.series < self.spec_series().len() && r.fact < self.spec_origins()[r.series as int].len() {
                Some(self.spec_origins()[r.series as int][r.fact as int])
            } else {
                None::<usize>
            }),
    {
        proof {
            use_type_invariant(self);
        }
        if r.series < self.origins.len() && r.fact < self.origins[r.series].len() {
            Some(self.origins[r.series][r.fact])
        } else {
            None
        }
    }

    /// The fiscal year-end month of the company.
    pub closed spec fn spec_fy_end_month(&self) -> u32 {
        self.fy_end_month
    }

    /// The fiscal year-end month of the company.
    pub fn fy_end_month(&self) -> (m: u32)
        ensures
            m == self.spec_fy_end_month(),
    {
        self.fy_end_month
    }

    /// The position of the series for a taxonomy/tag/unit combination.
    pub fn find_series(&self, taxonomy: &str, tag: &str, unit: &str) -> (r: Option<usize>)
        ensures
            match r {
                Some(i) => is_series_for(self.spec_series(), i as int, taxonomy@, tag@, unit@),
                None => !key_present(self.spec_series(), taxonomy@, tag@, unit@),
            },
    {
        let mut k: usize = self.series.len();
        while k > 0
            invariant
                k <= self.series@.len(),
                forall|j: int| k <= j < self.series@.len() ==> !has_key(#[trigger] self.series@[j], taxonomy@, tag@, unit@),
            decreases k,
        {
            let s = &self.series[k - 1];
            if str_eq(s.taxonomy.as_str(), taxonomy) && str_eq(s.tag.as_str(), tag) && str_eq(
                s.unit.as_str(),
                unit,
            ) {
                return Some(k - 1);
            }
            k = k - 1;
        }
        None
    }

    /// Look up facts for a specific taxonomy/tag/unit combination: one per
    /// end date, sorted by end date.
    pub fn lookup(&self, taxonomy: &str, tag: &str, unit: &str) -> (r: Option<&[FactValue]>)
        ensures
            match r {
                Some(facts) => exists|i: int|
                    is_series_for(self.spec_series(), i, taxonomy@, tag@, unit@) && facts@
                        == #[trigger] self.spec_series()[i].facts@,
                None => !key_present(self.spec_series(), taxonomy@, tag@, unit@),
            },
            r matches Some(facts) ==> sorted_by_end_date(facts@),
    {
        proof {
            use_type_invariant(self);
        }
        match self.find_series(taxonomy, tag, unit) {
            Some(i) => Some(self.series[i].facts.as_slice()),
            None => None,
        }
    }

    /// The position of the series for a tag specification: under its unit,
    /// or, without one, under the first of USD, shares, USD/shares and pure
    /// that has a series.
    pub fn find_tag_series(&self, spec: &TagSpec) -> (r: Option<usize>)
        ensures
            match r {
                Some(i) => unit_for(self.spec_series(), spec@) matches Some(u) && is_series_for(
                    self.spec_series(),
                    i as int,
                    spec.taxonomy@,
                    spec.tag@,
                    u,
                ),
                None => unit_for(self.spec_series(), spec@) is None,
            },
    {
        let taxonomy = spec.taxonomy.as_str();
        let tag = spec.tag.as_str();
        match &spec.unit {
            Some(unit) => self.find_series(taxonomy, tag, unit.as_str()),
            None => {
                // Try common units
                match self.find_series(taxonomy, tag, "USD") {
                    Some(i) => return Some(i),
                    None => {},
                }
                match self.find_series(taxonomy, tag, "shares") {
                    Some(i) => return Some(i),
                    None => {},
                }
                match self.find_series(taxonomy, tag, "USD/shares") {
                    Some(i) => return Some(i),
                    None => {},
                }
                self.find_series(taxonomy, tag, "pure")
            },
        }
    }

    /// Look up facts matching a TagSpec, one per end date and sorted by end
    /// date. If unit is None, try common units.
    pub fn lookup_tag(&self, spec: &TagSpec) -> (r: Option<&[FactValue]>)
        ensures
            match r {
                Some(facts) => exists|i: int|
                    unit_for(self.spec_series(), spec@) matches Some(u) && is_series_for(
                        self.spec_series(),
                        i,
                        spec.taxonomy@,
                        spec.tag@,
                        u,
                    ) && facts@ == #[trigger] self.spec_series()[i].facts@,
                None => unit_for(self.spec_series(), spec@) is None,
            },
            r matches Some(facts) ==> sorted_by_end_date(facts@),
    {
        proof {
            use_type_invariant(self);
        }
        match self.find_tag_series(spec) {
            Some(i) => Some(self.series[i].facts.as_slice()),
            None => None,
        }
    }

    /// The fiscal periods that some fact reports (quarters when
    /// `quarterly`, whole years otherwise), in increasing order.
    fn collect_periods(&self, quarterly: bool) -> (r: Vec<FiscalPeriod>)
        ensures
            strictly_increasing(r@),
            forall|p: FiscalPeriod| period_reported(self.spec_series(), p, quarterly) <==> r@.contains(p),
    {
        let mut ps: Vec<FiscalPeriod> = Vec::new();
        let mut s: usize = 0;
        while s < self.series.len()
            invariant
                s <= self.series@.len(),
                strictly_increasing(ps@),
                forall|p: FiscalPeriod| period_in(self.series@, s as int, 0, p, quarterly) <==> ps@.contains(p),
            decreases self.series.len() - s,
        {
            let facts = &self.series[s].facts;
            let mut k: usize = 0;
            while k < facts.len()
                invariant
                    s < self.series@.len(),
                    facts@ == self.series@[s as int].facts@,
                    k <= facts@.len(),
                    strictly_increasing(ps@),
                    forall|p: FiscalPeriod|
                        period_in(self.series@, s as int, k as int, p, quarterly) <==> ps@.contains(p),
                decreases facts.len() - k,
            {
                let f = &facts[k];
                proof {
                    lemma_period_in_step(self.series@, s as int, k as int, quarterly);
                }
                let found: Option<FiscalPeriod> = if quarterly {
                    if f.is_quarterly() {
                        match (f.fiscal_year, quarter_of_name(&f.fiscal_period)) {
                            (Some(fy), Some(q)) => Some(FiscalPeriod::quarterly(fy, q)),
                            _ => None,
                        }
                    } else {
                        None
                    }
                } else if f.is_annual() {
                    match f.fiscal_year {
                        Some(fy) => Some(FiscalPeriod::annual(fy)),
                        None => None,
                    }
                } else {
                    None
                };
                assert(forall|p: FiscalPeriod|
                    period_at(self.series@, s as int, k as int, p, quarterly) <==> found == Some(p));
                let ghost before_ps = ps@;
                match found {
                    Some(p) => insert_period(&mut ps, p),
                    None => {},
                }
                proof {
                    assert forall|p: FiscalPeriod|
                        period_in(self.series@, s as int, k + 1, p, quarterly) <==> ps@.contains(p) by {
                        assert(period_in(self.series@, s as int, k as int, p, quarterly) <==> before_ps.contains(p));
                    }
                }
                k = k + 1;
            }
            proof {
                lemma_period_in_next_series(self.series@, s as int, quarterly);
                assert forall|p: FiscalPeriod|
                    period_in(self.series@, s + 1, 0, p, quarterly) <==> ps@.contains(p) by {
                    assert(period_in(self.series@, s + 1, 0, p, quarterly) <==> period_in(
                        self.series@,
                        s as int,
                        self.series@[s as int].facts@.len() as int,
                        p,
                        quarterly,
                    ));
                }
            }
            s = s + 1;
        }
        proof {
            assert forall|p: FiscalPeriod|
                period_reported(self.series@, p, quarterly) <==> period_in(
                    self.series@,
                    self.series@.len() as int,
                    0,
                    p,
                    quarterly,
                ) by {
                if period_reported(self.series@, p, quarterly) {
                    let (a, b) = choose|a: int, b: int| #[trigger] period_at(self.series@, a, b, p, quarterly);
                    assert(period_at(self.series@, a, b, p, quarterly));
                }
            }
        }
        ps
    }

    /// Get all unique fiscal periods present in the data for annual
    /// reporting: the years that some `FY` fact reports, in increasing order.
    pub fn annual_periods(&self) -> (r: Vec<FiscalPeriod>)
        ensures
            strictly_increasing(r@),
            forall|p: FiscalPeriod| period_reported(self.spec_series(), p, false) <==> r@.contains(p),
    {
        self.collect_periods(false)
    }

    /// Get all unique fiscal periods for quarterly reporting: the (year,
    /// quarter) pairs that some `Q1`..`Q4` fact reports, in increasing order.
    pub fn quarterly_periods(&self) -> (r: Vec<FiscalPeriod>)
        ensures
            strictly_increasing(r@),
            forall|p: FiscalPeriod| period_reported(self.spec_series(), p, true) <==> r@.contains(p),
    {
        self.collect_periods(true)
    }
}

fn quarter_of_name(fp: &Option<String>) -> (r: Option<Quarter>)
    ensures
        r == quarter_named(*fp),
{
    if opt_str_is(fp, "Q1") {
        Some(Quarter::Q1)
    } else if opt_str_is(fp, "Q2") {
        Some(Quarter::Q2)
    } else if opt_str_is(fp, "Q3") {
        Some(Quarter::Q3)
    } else if opt_str_is(fp, "Q4") {
        Some(Quarter::Q4)
    } else {
        None
    }
}

/// Fact `k` of series `s` reports period `p`: a quarterly fact with `p`'s
/// year and quarter when `quarterly`, an `FY` fact with `p`'s year (and
/// `p` a whole year) otherwise.
pub open spec fn period_at(series: Seq<FactSeries>, s: int, k: int, p: FiscalPeriod, quarterly: bool) -> bool {
    &&& 0 <= s < series.len()
    &&& 0 <= k < series[s].facts@.len()
    &&& series[s].facts@[k].fiscal_year == Some(p.year)
    &&& if quarterly {
        fact_is_quarterly(series[s].facts@[k]) && p.quarter is Some && quarter_named(
            series[s].facts@[k].fiscal_period,
        ) == p.quarter
    } else {
        fact_is_annual(series[s].facts@[k]) && p.quarter is None
    }
}

/// Some fact reports period `p`.
pub open spec fn period_reported(series: Seq<FactSeries>, p: FiscalPeriod, quarterly: bool) -> bool {
    exists|a: int, b: int| #[trigger] period_at(series, a, b, p, quarterly)
}

/// Some fact before fact `k` of series `s` reports period `p`.
pub open spec fn period_in(series: Seq<FactSeries>, s: int, k: int, p: FiscalPeriod, quarterly: bool) -> bool {
    exists|a: int, b: int|
        #![trigger period_at(series, a, b, p, quarterly)]
        (a < s || (a == s && b < k)) && period_at(series, a, b, p, quarterly)
}

proof fn lemma_period_in_step(series: Seq<FactSeries>, s: int, k: int, quarterly: bool)
    requires
        0 <= s < series.len(),
        0 <= k < series[s].facts@.len(),
    ensures
        forall|p: FiscalPeriod|
            period_in(series, s, k + 1, p, quarterly) <==> (period_in(series, s, k, p, quarterly) || period_at(
                series,
                s,
                k,
                p,
                quarterly,
            )),
{
    assert forall|p: FiscalPeriod|
        period_in(series, s, k + 1, p, quarterly) implies (period_in(series, s, k, p, quarterly) || period_at(
            series,
            s,
            k,
            p,
            quarterly,
        )) by {
        let (a, b) = choose|a: int, b: int|
            #![trigger period_at(series, a, b, p, quarterly)]
            (a < s || (a == s && b < k + 1)) && period_at(series, a, b, p, quarterly);
        if !(a == s && b == k) {
            assert(period_in(series, s, k, p, quarterly));
        }
    }
}

proof fn lemma_period_in_next_series(series: Seq<FactSeries>, s: int, quarterly: bool)
    requires
        0 <= s < series.len(),
    ensures
        forall|p: FiscalPeriod|
            period_in(series, s + 1, 0, p, quarterly) <==> period_in(
                series,
                s,
                series[s].facts@.len() as int,
                p,
                quarterly,
            ),
{
    assert forall|p: FiscalPeriod| period_in(series, s + 1, 0, p, quarterly) implies period_in(
        series,
        s,
        series[s].facts@.len() as int,
        p,
        quarterly,
    ) by {
        let (a, b) = choose|a: int, b: int|
            #![trigger period_at(series, a, b, p, quarterly)]
            (a < s + 1 || (a == s + 1 && b < 0)) && period_at(series, a, b, p, quarterly);
        assert(a < s || (a == s && b < series[s].facts@.len()));
    }
}

/// Inserts `p` into an increasing sequence of periods, unless it is there.
fn insert_period(periods: &mut Vec<FiscalPeriod>, p: FiscalPeriod)
    requires
        strictly_increasing(old(periods)@),
    ensures
        strictly_increasing(final(periods)@),
        forall|x: FiscalPeriod| final(periods)@.contains(x) <==> (old(periods)@.contains(x) || x == p),
{
    let ghost old_ps = periods@;
    let mut i: usize = 0;
    while i < periods.len()
        invariant
            i <= periods@.len(),
            periods@ == old_ps,
            strictly_increasing(old_ps),
            forall|j: int| 0 <= j < i ==> period_before(#[trigger] old_ps[j], p),
        ensures
            i <= periods@.len(),
            periods@ == old_ps,
            forall|j: int| 0 <= j < i ==> period_before(#[trigger] old_ps[j], p),
            i < periods@.len() ==> !period_before(periods@[i as int], p),
        decreases periods.len() - i,
    {
        if !before(&periods[i], &p) {
            break;
        }
        i = i + 1;
    }
    if i < periods.len() && periods[i] == p {
        proof {
            assert forall|x: FiscalPeriod| periods@.contains(x) <==> (old_ps.contains(x) || x == p) by {
                if x == p {
                    assert(periods@[i as int] == p);
                }
            }
        }
        return;
    }
    proof {
        if i < periods@.len() {
            lemma_period_order_total(p, old_ps[i as int]);
            assert forall|j: int| i <= j < old_ps.len() implies period_before(p, #[trigger] old_ps[j]) by {
                if j > i {
                    lemma_period_before_transitive(p, old_ps[i as int], old_ps[j]);
                }
            }
        }
    }
    periods.insert(i, p);
    proof {
        let n = periods@;
        assert(n == old_ps.insert(i as int, p));
        assert forall|a: int, b: int| 0 <= a < b < n.len() implies period_before(n[a], n[b]) by {
            if a < i && b < i {
            } else if a < i && b == i {
            } else if a < i {
                assert(n[b] == old_ps[b - 1]);
                lemma_period_before_transitive(n[a], p, n[b]);
            } else if a == i {
                assert(n[b] == old_ps[b - 1]);
            } else {
                assert(n[a] == old_ps[a - 1]);
                assert(n[b] == old_ps[b - 1]);
            }
        }
        assert forall|x: FiscalPeriod| n.contains(x) <==> (old_ps.contains(x) || x == p) by {
            if n.contains(x) {
                let j = choose|j: int| 0 <= j < n.len() && n[j] == x;
                if j < i {
                    assert(old_ps[j] == x);
                } else if j > i {
                    assert(old_ps[j - 1] == x);
                }
            }
            if old_ps.contains(x) {
                let j = choose|j: int| 0 <= j < old_ps.len() && old_ps[j] == x;
                if j < i {
                    assert(n[j] == x);
                } else {
                    assert(n[j + 1] == x);
                }
            }
            if x == p {
                assert(n[i as int] == p);
            }
        }
    }
}

fn quarter_index(q: Quarter) -> (r: u8)
    ensures
        r as int == quarter_number(q),
{
    match q {
        Quarter::Q1 => 1,
        Quarter::Q2 => 2,
        Quarter::Q3 => 3,
        Quarter::Q4 => 4,
    }
}

fn before(a: &FiscalPeriod, b: &FiscalPeriod) -> (r: bool)
    ensures
        r == period_before(*a, *b),
{
    if a.year < b.year {
        return true;
    }
    if a.year > b.year {
        return false;
    }
    match (a.quarter, b.quarter) {
        (Some(qa), Some(qb)) => quarter_index(qa) < quarter_index(qb),
        (None, Some(_)) => true,
        _ => false,
    }
}

proof fn lemma_period_before_transitive(a: FiscalPeriod, b: FiscalPeriod, c: FiscalPeriod)
    requires
        period_before(a, b),
        period_before(b, c),
    ensures
        period_before(a, c),
{
}

proof fn lemma_period_order_total(a: FiscalPeriod, b: FiscalPeriod)
    ensures
        a != b ==> (period_before(a, b) || period_before(b, a)),
{
    if a.year == b.year {
        match (a.quarter, b.quarter) {
            (Some(qa), Some(qb)) => {
                if quarter_number(qa) == quarter_number(qb) {
                    assert(qa == qb);
                }
            },
            _ => {},
        }
    }
}

/// Two series positions kept for the same key are the same position.
proof fn lemma_series_for_unique(
    series: Seq<FactSeries>,
    i: int,
    j: int,
    taxonomy: Seq<char>,
    tag: Seq<char>,
    unit: Seq<char>,
)
    requires
        is_series_for(series, i, taxonomy, tag, unit),
        is_series_for(series, j, taxonomy, tag, unit),
    ensures
        i == j,
{
    if i < j {
        assert(!has_key(series[j], taxonomy, tag, unit));
    } else if j < i {
        assert(!has_key(series[i], taxonomy, tag, unit));
    }
}

/// The position of the series that a tag specification is looked up in.
pub open spec fn series_for_spec(series: Seq<FactSeries>, spec: TagSpecView) -> Option<int> {
    match unit_for(series, spec) {
        Some(u) => Some(choose|i: int| is_series_for(series, i, spec.taxonomy, spec.tag, u)),
        None => None,
    }
}

/// A fact of a series: its series position and its position in the series.
#[derive(Debug, Clone, Copy, PartialEq, Eq, Structural)]
pub struct FactRef {
    pub series: usize,
    pub fact: usize,
}

/// The fact that a tag specification gives for a period: in its series,
/// deduplicated, the best match for the period, provided it carries an
/// amount.
pub open spec fn tag_fact(series: Seq<FactSeries>, spec: TagSpecView, period: FiscalPeriod) -> Option<FactRef> {
    match series_for_spec(series, spec) {
        None => None,
        Some(i) => {
            let facts = series[i].facts@;
            match period_match(facts, dedup_order(facts), period) {
                Some(k) => if facts[k].has_val {
                    Some(FactRef { series: i as usize, fact: k as usize })
                } else {
                    None
                },
                None => None,
            }
        },
    }
}

/// The name of a tag as a source: `taxonomy:tag`.
pub open spec fn source_name(spec: TagSpecView) -> Seq<char> {
    spec.taxonomy + ":"@ + spec.tag
}

/// Names joined with ` + `.
pub open spec fn join_plus(names: Seq<Seq<char>>) -> Seq<char>
    decreases names.len(),
{
    if names.len() == 0 {
        Seq::empty()
    } else if names.len() == 1 {
        names[0]
    } else {
        join_plus(names.drop_last()) + " + "@ + names.last()
    }
}

/// What a metric draws on in a period.
#[derive(Debug)]
pub enum Resolved {
    /// One fact.
    One(FactRef),
    /// The sum of these facts.
    Sum(Vec<FactRef>),
    /// The first fact minus the second.
    Difference(FactRef, FactRef),
    /// The first resolution divided by the second.
    Ratio(Box<Resolved>, Box<Resolved>),
    /// The formula with this number, over the metrics already resolved.
    Custom(u32),
}

/// The view of what a metric draws on.
pub enum ResolvedView {
    One(FactRef),
    Sum(Seq<FactRef>),
    Difference(FactRef, FactRef),
    Ratio(Box<ResolvedView>, Box<ResolvedView>),
    Custom(u32),
}

/// The view of a `Resolved`.
pub open spec fn resolved_view(r: Resolved) -> ResolvedView
    decreases r,
{
    match r {
        Resolved::One(f) => ResolvedView::One(f),
        Resolved::Sum(v) => ResolvedView::Sum(v@),
        Resolved::Difference(a, b) => ResolvedView::Difference(a, b),
        Resolved::Ratio(a, b) => ResolvedView::Ratio(Box::new(resolved_view(*a)), Box::new(resolved_view(*b))),
        Resolved::Custom(n) => ResolvedView::Custom(n),
    }
}

/// The first position from `from` on whose tag gives a fact for the period.
pub open spec fn first_found(series: Seq<FactSeries>, specs: Seq<TagSpecView>, period: FiscalPeriod, from: int) -> Option<int>
    decreases specs.len() - from,
{
    if from < 0 || from >= specs.len() {
        None
    } else if tag_fact(series, specs[from], period) is Some {
        Some(from)
    } else {
        first_found(series, specs, period, from + 1)
    }
}

/// The positions of the specifications whose tag gives a fact for the period.
pub open spec fn all_found(series: Seq<FactSeries>, specs: Seq<TagSpecView>, period: FiscalPeriod) -> Seq<int>
    decreases specs.len(),
{
    if specs.len() == 0 {
        Seq::empty()
    } else {
        let before = all_found(series, specs.drop_last(), period);
        if tag_fact(series, specs.last(), period) is Some {
            before.push(specs.len() - 1)
        } else {
            before
        }
    }
}

/// What a resolution draws on in a period, with the name of its source,
/// or `None` where the facts are missing:
/// - first match: the fact of the first tag that gives one, named by the tag;
/// - sum: the facts of all tags that give one (none: `None`), names joined by ` + `;
/// - difference: the facts of both tags (either missing: `None`), `a - b`;
/// - ratio: both resolutions (either missing: `None`), named `ratio`;
/// - custom: its formula, named `computed`.
pub open spec fn resolve_spec(series: Seq<FactSeries>, r: ResolutionView, period: FiscalPeriod) -> Option<(ResolvedView, Seq<char>)>
    decreases r,
{
    match r {
        ResolutionView::FirstMatch(specs) => match first_found(series, specs, period, 0) {
            Some(j) => Some(
                (ResolvedView::One(tag_fact(series, specs[j], period)->0), source_name(specs[j])),
            ),
            None => None,
        },
        ResolutionView::Sum(specs) => {
            let found = all_found(series, specs, period);
            if found.len() == 0 {
                None
            } else {
                Some(
                    (
                        ResolvedView::Sum(found.map_values(|j: int| tag_fact(series, specs[j], period)->0)),
                        join_plus(found.map_values(|j: int| source_name(specs[j]))),
                    ),
                )
            }
        },
        ResolutionView::Difference(a, b) => match (tag_fact(series, a, period), tag_fact(series, b, period)) {
            (Some(fa), Some(fb)) => Some(
                (ResolvedView::Difference(fa, fb), source_name(a) + " - "@ + source_name(b)),
            ),
            _ => None,
        },
        ResolutionView::Ratio(a, b) => match (resolve_spec(series, *a, period), resolve_spec(series, *b, period)) {
            (Some((ra, _)), Some((rb, _))) => Some((ResolvedView::Ratio(Box::new(ra), Box::new(rb)), "ratio"@)),
            _ => None,
        },
        ResolutionView::Custom(n) => Some((ResolvedView::Custom(n), "computed"@)),
    }
}

fn tag_source(spec: &TagSpec) -> (r: String)
    ensures
        r@ == source_name(spec@),
{
    let mut s = spec.taxonomy.clone();
    s.append(":");
    s.append(spec.tag.as_str());
    s
}

impl FactIndex {
    /// The fact that a tag specification gives for a period: looked up,
    /// deduplicated and matched to the period, provided it carries an amount.
    pub fn match_tag(&self, spec: &TagSpec, period: &FiscalPeriod) -> (r: Option<FactRef>)
        ensures
            r == tag_fact(self.spec_series(), spec@, *period),
    {
        match self.find_tag_series(spec) {
            None => None,
            Some(i) => {
                proof {
                    let u = unit_for(self.series@, spec@)->0;
                    let c = choose|c: int| is_series_for(self.series@, c, spec.taxonomy@, spec.tag@, u);
                    lemma_series_for_unique(self.series@, i as int, c, spec.taxonomy@, spec.tag@, u);
                }
                let facts = self.series[i].facts.as_slice();
                let order = dedup_facts(facts);
                match find_period_match(facts, &order, period) {
                    Some(k) => {
                        if facts[k].has_val {
                            Some(FactRef { series: i, fact: k })
                        } else {
                            None
                        }
                    },
                    None => None,
                }
            },
        }
    }

    /// Resolve a metric for a specific period: which facts it draws on,
    /// and the name of its source.
    pub fn resolve_for_period(&self, resolution: &MetricResolution, period: &FiscalPeriod) -> (r: Option<(Resolved, String)>)
        ensures
            match r {
                Some((x, s)) => resolve_spec(self.spec_series(), resolution@, *period) == Some((resolved_view(x), s@)),
                None => resolve_spec(self.spec_series(), resolution@, *period) is None,
            },
        decreases resolution,
    {
        match resolution {
            MetricResolution::FirstMatch(specs) => {
                let mut j: usize = 0;
                while j < specs.len()
                    invariant
                        j <= specs@.len(),
                        *resolution matches MetricResolution::FirstMatch(s) && s@ == specs@,
                        first_found(self.series@, specs_view(specs@), *period, 0) == first_found(self.series@, specs_view(specs@), *period, j as int),
                    decreases specs.len() - j,
                {
                    match self.match_tag(&specs[j], period) {
                        Some(f) => {
                            assert(first_found(self.series@, specs_view(specs@), *period, j as int) == Some(j as int));
                            return Some((Resolved::One(f), tag_source(&specs[j])));
                        },
                        None => {},
                    }
                    j = j + 1;
                }
                None
            },
            MetricResolution::Sum(specs) => {
                let mut refs: Vec<FactRef> = Vec::new();
                let mut source = String::new();
                let ghost mut names: Seq<Seq<char>> = Seq::empty();
                let mut j: usize = 0;
                while j < specs.len()
                    invariant
                        j <= specs@.len(),
                        refs@ == all_found(self.series@, specs_view(specs@).take(j as int), *period).map_values(
                            |k: int| tag_fact(self.series@, specs_view(specs@)[k], *period)->0,
                        ),
                        names == all_found(self.series@, specs_view(specs@).take(j as int), *period).map_values(
                            |k: int| source_name(specs_view(specs@)[k]),
                        ),
                        source@ == join_plus(names),
                        forall|q: int| 0 <= q < all_found(self.series@, specs_view(specs@).take(j as int), *period).len()
                            ==> 0 <= #[trigger] all_found(self.series@, specs_view(specs@).take(j as int), *period)[q] < j,
                    decreases specs.len() - j,
                {
                    let ghost prev = all_found(self.series@, specs_view(specs@).take(j as int), *period);
                    proof {
                        assert(specs_view(specs@).take(j + 1).drop_last() =~= specs_view(specs@).take(j as int));
                        assert(specs_view(specs@).take(j + 1).last() == specs@[j as int]@);
                    }
                    match self.match_tag(&specs[j], period) {
                        Some(f) => {
                            let name = tag_source(&specs[j]);
                            if refs.len() > 0 {
                                source.append(" + ");
                            }
                            source.append(name.as_str());
                            refs.push(f);
                            proof {
                                let now = all_found(self.series@, specs_view(specs@).take(j + 1), *period);
                                assert(now == prev.push(j as int));
                                let old_names = names;
                                names = names.push(name@);
                                assert(names =~= now.map_values(|k: int| source_name(specs_view(specs@)[k])));
                                assert(refs@ =~= now.map_values(|k: int| tag_fact(self.series@, specs_view(specs@)[k], *period)->0));
                                if old_names.len() == 0 {
                                    assert(names =~= seq![name@]);
                                } else {
                                    assert(names.drop_last() =~= old_names);
                                }
                            }
                        },
                        None => {
                            proof {
                                let now = all_found(self.series@, specs_view(specs@).take(j + 1), *period);
                                assert(now == prev);
                            }
                        },
                    }
                    j = j + 1;
                }
                assert(specs_view(specs@).take(j as int) =~= specs_view(specs@));
                if refs.len() == 0 {
                    None
                } else {
                    Some((Resolved::Sum(refs), source))
                }
            },
            MetricResolution::Difference(a, b) => {
                let fa = match self.match_tag(a, period) {
                    Some(f) => f,
                    None => return None,
                };
                let fb = match self.match_tag(b, period) {
                    Some(f) => f,
                    None => return None,
                };
                let mut s = tag_source(a);
                s.append(" - ");
                let sb = tag_source(b);
                s.append(sb.as_str());
                Some((Resolved::Difference(fa, fb), s))
            },
            MetricResolution::Ratio(a, b) => {
                let (ra, _) = match self.resolve_for_period(a, period) {
                    Some(x) => x,
                    None => return None,
                };
                let (rb, _) = match self.resolve_for_period(b, period) {
                    Some(x) => x,
                    None => return None,
                };
                Some((Resolved::Ratio(Box::new(ra), Box::new(rb)), String::from_str("ratio")))
            },
            MetricResolution::Custom(n) => Some((Resolved::Custom(*n), String::from_str("computed"))),
        }
    }
}

/// The unit of a metric: shares for share counts, USD/shares for
/// per-share amounts, `ratio` for ratios, USD otherwise.
pub open spec fn metric_unit(m: StandardMetric) -> Seq<char> {
    match m {
        StandardMetric::SharesOutstandingBasic | StandardMetric::SharesOutstandingDiluted => "shares"@,
        StandardMetric::EarningsPerShareBasic | StandardMetric::EarningsPerShareDiluted
        | StandardMetric::DividendsPerShare | StandardMetric::BookValuePerShare
        | StandardMetric::RevenuePerShare | StandardMetric::FreeCashFlowPerShare => "USD/shares"@,
        _ => if metric_is_ratio(m) {
            "ratio"@
        } else {
            "USD"@
        },
    }
}

/// The unit of a metric.
pub fn infer_unit(metric: &StandardMetric) -> (r: String)
    ensures
        r@ == metric_unit(*metric),
{
    match metric {
        StandardMetric::SharesOutstandingBasic | StandardMetric::SharesOutstandingDiluted => String::from_str("shares"),
        StandardMetric::EarningsPerShareBasic | StandardMetric::EarningsPerShareDiluted
        | StandardMetric::DividendsPerShare | StandardMetric::BookValuePerShare
        | StandardMetric::RevenuePerShare | StandardMetric::FreeCashFlowPerShare => String::from_str("USD/shares"),
        m => if m.is_ratio() {
            String::from_str("ratio")
        } else {
            String::from_str("USD")
        },
    }
}

/// A metric resolved in a period: what it draws on, its unit and the name
/// of its source.
#[derive(Debug)]
pub struct MetricSource {
    pub metric: StandardMetric,
    pub unit: String,
    pub resolved: Resolved,
    pub source_tag: String,
}

/// The metrics resolved in one period: primary metrics first, then the
/// computed ones, each in the order of the definitions.
#[derive(Debug)]
pub struct PeriodPlan {
    pub period: FiscalPeriod,
    pub primary: Vec<MetricSource>,
    pub computed: Vec<MetricSource>,
}

/// What standardization draws on: annual and quarterly periods, each in
/// increasing order.
#[derive(Debug)]
pub struct StandardizationPlan {
    pub annual: Vec<PeriodPlan>,
    pub quarterly: Vec<PeriodPlan>,
}

/// The view of a resolved metric: metric, resolution and source name.
pub open spec fn source_view(m: MetricSource) -> (StandardMetric, ResolvedView, Seq<char>) {
    (m.metric, resolved_view(m.resolved), m.source_tag@)
}

/// The metrics that resolve in a period, in the order of the definitions:
/// among the computed definitions (resolved by a formula) when `computed`,
/// among the primary ones otherwise.
pub open spec fn period_sources(
    series: Seq<FactSeries>,
    defs: Seq<DefinitionView>,
    period: FiscalPeriod,
    computed: bool,
) -> Seq<(StandardMetric, ResolvedView, Seq<char>)>
    decreases defs.len(),
{
    if defs.len() == 0 {
        Seq::empty()
    } else {
        let before = period_sources(series, defs.drop_last(), period, computed);
        let d = defs.last();
        if (d.resolution is Custom) == computed {
            match resolve_spec(series, d.resolution, period) {
                Some((rv, src)) => before.push((d.metric, rv, src)),
                None => before,
            }
        } else {
            before
        }
    }
}

/// A period plan holds, for its period, the sources of `defs`, each with
/// the unit of its metric.
pub open spec fn is_period_plan(series: Seq<FactSeries>, defs: Seq<DefinitionView>, p: PeriodPlan) -> bool {
    &&& p.primary@.map_values(|m: MetricSource| source_view(m)) == period_sources(series, defs, p.period, false)
    &&& p.computed@.map_values(|m: MetricSource| source_view(m)) == period_sources(series, defs, p.period, true)
    &&& forall|i: int| 0 <= i < p.primary@.len() ==> (#[trigger] p.primary@[i]).unit@ == metric_unit(p.primary@[i].metric)
    &&& forall|i: int| 0 <= i < p.computed@.len() ==> (#[trigger] p.computed@[i]).unit@ == metric_unit(p.computed@[i].metric)
}

/// The periods of a sequence of plans.
pub open spec fn plan_periods(ps: Seq<PeriodPlan>) -> Seq<FiscalPeriod> {
    ps.map_values(|p: PeriodPlan| p.period)
}

/// The standardization engine that converts raw XBRL facts into
/// standardized financials, with the metrics of its catalog.
pub struct StandardizationEngine<C: MetricCatalog> {
    catalog: C,
}

impl StandardizationEngine<DefaultCatalog> {
    /// An engine with the default catalog.
    pub fn new() -> (e: Self)
        ensures
            e.spec_catalog() == DefaultCatalog,
    {
        StandardizationEngine { catalog: DefaultCatalog }
    }
}

/// The optional string as characters.
pub open spec fn opt_chars(o: Option<String>) -> Option<Seq<char>> {
    match o {
        Some(s) => Some(s@),
        None => None,
    }
}

impl<C: MetricCatalog> StandardizationEngine<C> {
    /// An engine with the metrics of `catalog`.
    pub fn with_catalog(catalog: C) -> (e: Self)
        ensures
            e.spec_catalog() == catalog,
    {
        StandardizationEngine { catalog }
    }

    /// The catalog of the engine.
    pub closed spec fn spec_catalog(&self) -> C {
        self.catalog
    }

    /// The definitions the engine uses for a company: those of its catalog,
    /// then those of the company's sector.
    pub open spec fn definitions_for(&self, company: Company) -> Seq<DefinitionView> {
        self.spec_catalog().spec_definitions() + sector_definitions_spec(opt_chars(company.sic))
    }

    fn plan_period(&self, index: &FactIndex, defs: &Vec<MetricDefinition>, period: FiscalPeriod) -> (p: PeriodPlan)
        ensures
            p.period == period,
            is_period_plan(index.spec_series(), defs_view(defs@), p),
    {
        let mut primary: Vec<MetricSource> = Vec::new();
        let mut computed: Vec<MetricSource> = Vec::new();
        let ghost series = index.spec_series();
        let mut i: usize = 0;
        while i < defs.len()
            invariant
                i <= defs@.len(),
                series == index.spec_series(),
                primary@.map_values(|m: MetricSource| source_view(m)) == period_sources(series, defs_view(defs@).take(i as int), period, false),
                computed@.map_values(|m: MetricSource| source_view(m)) == period_sources(series, defs_view(defs@).take(i as int), period, true),
                forall|k: int| 0 <= k < primary@.len() ==> (#[trigger] primary@[k]).unit@ == metric_unit(primary@[k].metric),
                forall|k: int| 0 <= k < computed@.len() ==> (#[trigger] computed@[k]).unit@ == metric_unit(computed@[k].metric),
            decreases defs.len() - i,
        {
            let def = &defs[i];
            let ghost dv = defs_view(defs@);
            proof {
                assert(dv.take(i + 1).drop_last() =~= dv.take(i as int));
                assert(dv.take(i + 1).last() == def@);
            }
            let is_computed = def.resolution.is_custom();
            let ghost before_p = primary@;
            let ghost before_c = computed@;
            match index.resolve_for_period(&def.resolution, &period) {
                Some((resolved, source_tag)) => {
                    let src = MetricSource { metric: def.metric, unit: infer_unit(&def.metric), resolved, source_tag };
                    if is_computed {
                        computed.push(src);
                        assert(computed@.map_values(|m: MetricSource| source_view(m)) =~= before_c.map_values(|m: MetricSource| source_view(m)).push(source_view(src)));
                    } else {
                        primary.push(src);
                        assert(primary@.map_values(|m: MetricSource| source_view(m)) =~= before_p.map_values(|m: MetricSource| source_view(m)).push(source_view(src)));
                    }
                },
                None => {},
            }
            i = i + 1;
        }
        assert(defs_view(defs@).take(i as int) =~= defs_view(defs@));
        PeriodPlan { period, primary, computed }
    }

    /// Which facts each metric draws on, for every fiscal year and quarter
    /// that the facts report, with the definitions of the catalog and of
    /// the company's sector. Computed metrics are planned after the primary
    /// ones, since their formulas read the primary values.
    pub fn plan(&self, index: &FactIndex, company: &Company) -> (p: StandardizationPlan)
        ensures
            strictly_increasing(plan_periods(p.annual@)),
            forall|q: FiscalPeriod| period_reported(index.spec_series(), q, false) <==> plan_periods(p.annual@).contains(q),
            strictly_increasing(plan_periods(p.quarterly@)),
            forall|q: FiscalPeriod| period_reported(index.spec_series(), q, true) <==> plan_periods(p.quarterly@).contains(q),
            forall|i: int| 0 <= i < p.annual@.len() ==> is_period_plan(index.spec_series(), self.definitions_for(*company), #[trigger] p.annual@[i]),
            forall|i: int| 0 <= i < p.quarterly@.len() ==> is_period_plan(index.spec_series(), self.definitions_for(*company), #[trigger] p.quarterly@[i]),
    {
        let mut defs = self.catalog.definitions();
        let sic: Option<&str> = match &company.sic {
            Some(s) => Some(s.as_str()),
            None => None,
        };
        // Add sector-specific definitions
        extend_definitions(&mut defs, sector_definitions(sic));
        assert(defs_view(defs@) == self.definitions_for(*company));
        let annual = self.plan_periods(index, &defs, index.annual_periods());
        let quarterly = self.plan_periods(index, &defs, index.quarterly_periods());
        StandardizationPlan { annual, quarterly }
    }

    fn plan_periods(&self, index: &FactIndex, defs: &Vec<MetricDefinition>, periods: Vec<FiscalPeriod>) -> (r: Vec<PeriodPlan>)
        ensures
            plan_periods(r@) == periods@,
            forall|i: int| 0 <= i < r@.len() ==> is_period_plan(index.spec_series(), defs_view(defs@), #[trigger] r@[i]),
    {
        let mut out: Vec<PeriodPlan> = Vec::new();
        let mut i: usize = 0;
        while i < periods.len()
            invariant
                i <= periods@.len(),
                plan_periods(out@) == periods@.take(i as int),
                forall|k: int| 0 <= k < out@.len() ==> is_period_plan(index.spec_series(), defs_view(defs@), #[trigger] out@[k]),
            decreases periods.len() - i,
        {
            let ghost before = out@;
            out.push(self.plan_period(index, defs, periods[i]));
            assert(plan_periods(out@) =~= plan_periods(before).push(periods@[i as int]));
            assert(periods@.take(i + 1) =~= periods@.take(i as int).push(periods@[i as int]));
            i = i + 1;
        }
        assert(periods@.take(i as int) =~= periods@);
        out
    }
}

} // verus!
