//! Coverage analysis: which metrics a company's facts leave unresolved,
//! and which of its tags might hold them.
use vstd::prelude::*;

use crate::models::Company;
use crate::models::FiscalPeriod;
use crate::models::fact_is_annual;
use crate::standardizer::catalog::DefaultCatalog;
use crate::standardizer::catalog::default_definitions_spec;
use crate::standardizer::catalog::DefinitionView;
use crate::standardizer::catalog::MetricCatalog;
use crate::standardizer::catalog::MetricDefinition;
use crate::standardizer::catalog::copy_definitions;
use crate::standardizer::catalog::defs_view;
use crate::standardizer::catalog::extend_definitions;
use crate::standardizer::catalog::sector::sector_definitions;
use crate::standardizer::catalog::sector::sector_definitions_spec;
use crate::standardizer::engine::FactRef;
use crate::standardizer::engine::FactSeries;
use crate::standardizer::engine::opt_chars;
use crate::standardizer::engine::source_name;
use crate::standardizer::learned_tags::lemma_view_tag_specs;
use crate::standardizer::learned_tags::view_tag_specs;
use crate::standardizer::output::StandardMetric;
use crate::standardizer::output::metric_display_name;
use crate::standardizer::resolution::specs_view;
use crate::text::contains_seq;
use crate::text::lemma_lex_irreflexive;
use crate::text::lemma_lex_total;
use crate::text::lemma_lex_transitive;
use crate::text::lex_lt;
use crate::text::lowercase_of;
use crate::text::str_contains;
use crate::text::str_eq;
use crate::text::str_lt;
use crate::text::strings_contain;
use crate::text::strings_view;
use crate::text::to_lower;

verus! {

/// A candidate XBRL tag that might map to a missing standard metric.
#[derive(Debug, Clone)]
pub struct CandidateTag {
    pub taxonomy: String,
    pub tag: String,
    pub label: Option<String>,
    /// The fact holding the tag's latest annual value, if any.
    pub latest_value: Option<FactRef>,
    pub unit: String,
    pub match_reason: String,
}

/// The view of a candidate tag.
pub struct CandidateView {
    pub taxonomy: Seq<char>,
    pub tag: Seq<char>,
    pub label: Option<Seq<char>>,
    pub latest_value: Option<FactRef>,
    pub unit: Seq<char>,
    pub match_reason: Seq<char>,
}

impl View for CandidateTag {
    type V = CandidateView;

    open spec fn view(&self) -> CandidateView {
        CandidateView {
            taxonomy: self.taxonomy@,
            tag: self.tag@,
            label: opt_chars(self.label),
            latest_value: self.latest_value,
            unit: self.unit@,
            match_reason: self.match_reason@,
        }
    }
}

/// The views of a sequence of candidates.
pub open spec fn candidates_view(s: Seq<CandidateTag>) -> Seq<CandidateView> {
    s.map_values(|c: CandidateTag| c@)
}

/// A standard metric that could not be resolved from the company's XBRL data.
#[derive(Debug, Clone)]
pub struct MissingMetric {
    pub metric: StandardMetric,
    pub display_name: String,
    pub tags_tried: Vec<String>,
    pub candidates: Vec<CandidateTag>,
}

/// The view of a missing metric.
pub struct MissingView {
    pub metric: StandardMetric,
    pub display_name: Seq<char>,
    pub tags_tried: Seq<Seq<char>>,
    pub candidates: Seq<CandidateView>,
}

impl View for MissingMetric {
    type V = MissingView;

    open spec fn view(&self) -> MissingView {
        MissingView {
            metric: self.metric,
            display_name: self.display_name@,
            tags_tried: strings_view(self.tags_tried@),
            candidates: candidates_view(self.candidates@),
        }
    }
}

/// The metrics that resolved in a company's latest annual period.
#[derive(Debug, Clone)]
pub struct ResolvedPeriod {
    pub period: FiscalPeriod,
    pub metrics: Vec<StandardMetric>,
}

/// What the coverage analysis finds for a company's latest annual period:
/// how many primary metrics were expected and resolved, and, for each
/// missing one, the tags tried and the candidate tags found.
#[derive(Debug)]
pub struct CoverageReport {
    pub entity_name: String,
    pub period: FiscalPeriod,
    pub expected_count: usize,
    pub resolved_count: usize,
    pub missing_metrics: Vec<MissingMetric>,
}

/// Analyzes coverage gaps for a company's latest annual period.
pub struct CoverageAnalyzer;

/// The keyword fragments searched for a metric's candidate tags.
pub open spec fn metric_keywords(m: StandardMetric) -> Seq<Seq<char>> {
    match m {
        StandardMetric::Revenue => seq!["revenue"@, "sales"@, "net sales"@],
        StandardMetric::CostOfRevenue => seq!["cost of revenue"@, "cost of goods"@, "cost of sales"@, "cogs"@],
        StandardMetric::GrossProfit => seq!["gross profit"@],
        StandardMetric::ResearchAndDevelopment => seq!["research"@, "development"@, "r&d"@, "technology"@, "product development"@],
        StandardMetric::SellingGeneralAdmin => seq!["selling"@, "general and administrative"@, "sg&a"@, "marketing"@, "administrative"@],
        StandardMetric::OperatingExpenses => seq!["operating expense"@, "total operating"@],
        StandardMetric::OperatingIncome => seq!["operating income"@, "operating loss"@, "income from operations"@],
        StandardMetric::InterestExpense => seq!["interest expense"@, "interest cost"@],
        StandardMetric::InterestIncome => seq!["interest income"@, "investment income"@],
        StandardMetric::OtherNonOperatingIncome => seq!["non-operating"@, "nonoperating"@, "other income"@],
        StandardMetric::PretaxIncome => seq!["pretax"@, "pre-tax"@, "before income tax"@, "before tax"@],
        StandardMetric::IncomeTaxExpense => seq!["income tax"@, "tax expense"@, "tax benefit"@],
        StandardMetric::NetIncome => seq!["net income"@, "net loss"@, "net earnings"@],
        StandardMetric::NetIncomeToCommon => seq!["net income"@, "common stockholder"@, "common shareholder"@],
        StandardMetric::DepreciationAmortization => seq!["depreciation"@, "amortization"@, "d&a"@],
        StandardMetric::CashAndEquivalents => seq!["cash"@, "cash equivalent"@],
        StandardMetric::ShortTermInvestments => seq!["short-term investment"@, "marketable securities"@],
        StandardMetric::CashAndShortTermInvestments => seq!["cash and short-term"@, "cash and investment"@],
        StandardMetric::AccountsReceivable => seq!["accounts receivable"@, "receivable"@, "trade receivable"@],
        StandardMetric::Inventory => seq!["inventory"@, "inventories"@],
        StandardMetric::OtherCurrentAssets => seq!["other current asset"@, "prepaid"@],
        StandardMetric::TotalCurrentAssets => seq!["current assets"@, "total current asset"@],
        StandardMetric::PropertyPlantEquipment => seq!["property"@, "plant"@, "equipment"@, "pp&e"@, "ppe"@],
        StandardMetric::Goodwill => seq!["goodwill"@],
        StandardMetric::IntangibleAssets => seq!["intangible"@],
        StandardMetric::OtherNonCurrentAssets => seq!["other non-current"@, "other noncurrent"@, "other asset"@],
        StandardMetric::TotalAssets => seq!["total assets"@, "assets"@],
        StandardMetric::AccountsPayable => seq!["accounts payable"@, "trade payable"@],
        StandardMetric::ShortTermDebt => seq!["short-term debt"@, "short-term borrowing"@, "commercial paper"@],
        StandardMetric::CurrentPortionLongTermDebt => seq!["current portion"@, "long-term debt current"@],
        StandardMetric::OtherCurrentLiabilities => seq!["other current liabilit"@, "accrued liabilit"@],
        StandardMetric::TotalCurrentLiabilities => seq!["current liabilities"@, "total current liabilit"@],
        StandardMetric::LongTermDebt => seq!["long-term debt"@, "long term debt"@],
        StandardMetric::OtherNonCurrentLiabilities => seq!["other non-current liabilit"@, "other noncurrent liabilit"@],
        StandardMetric::TotalLiabilities => seq!["total liabilities"@],
        StandardMetric::CommonStock => seq!["common stock"@],
        StandardMetric::RetainedEarnings => seq!["retained earnings"@, "accumulated deficit"@],
        StandardMetric::AccumulatedOtherComprehensiveIncome => seq!["other comprehensive income"@, "oci"@],
        StandardMetric::TotalStockholdersEquity => seq!["stockholders equity"@, "shareholders equity"@, "total equity"@],
        StandardMetric::TotalLiabilitiesAndEquity => seq!["liabilities and equity"@, "liabilities and stockholders"@],
        StandardMetric::OperatingCashFlow => seq!["operating activities"@, "cash from operations"@],
        StandardMetric::CapitalExpenditures => seq!["capital expenditure"@, "purchase of property"@, "capex"@],
        StandardMetric::InvestingCashFlow => seq!["investing activities"@],
        StandardMetric::FinancingCashFlow => seq!["financing activities"@],
        StandardMetric::DividendsPaid => seq!["dividend"@, "distribution"@],
        StandardMetric::ShareRepurchases => seq!["repurchase"@, "buyback"@, "treasury stock"@],
        StandardMetric::NetChangeInCash => seq!["change in cash"@, "increase decrease"@],
        StandardMetric::EarningsPerShareBasic => seq!["earnings per share"@, "eps"@, "basic"@],
        StandardMetric::EarningsPerShareDiluted => seq!["earnings per share"@, "eps"@, "diluted"@],
        StandardMetric::DividendsPerShare => seq!["dividend per share"@],
        StandardMetric::SharesOutstandingBasic => seq!["shares outstanding"@, "weighted average"@],
        StandardMetric::SharesOutstandingDiluted => seq!["diluted shares"@, "weighted average diluted"@],
        _ => Seq::empty(),
    }
}

/// Keyword fragments for each primary metric, used to find candidate tags.
pub fn search_keywords(metric: &StandardMetric) -> (r: Vec<&'static str>)
    ensures
        r@.map_values(|s: &str| s@) == metric_keywords(*metric),
{
    let mut v: Vec<&'static str> = Vec::new();
    match metric {
        StandardMetric::Revenue => {
            v.push("revenue");
            v.push("sales");
            v.push("net sales");
        },
        StandardMetric::CostOfRevenue => {
            v.push("cost of revenue");
            v.push("cost of goods");
            v.push("cost of sales");
            v.push("cogs");
        },
        StandardMetric::GrossProfit => {
            v.push("gross profit");
        },
        StandardMetric::ResearchAndDevelopment => {
            v.push("research");
            v.push("development");
            v.push("r&d");
            v.push("technology");
            v.push("product development");
        },
        StandardMetric::SellingGeneralAdmin => {
            v.push("selling");
            v.push("general and administrative");
            v.push("sg&a");
            v.push("marketing");
            v.push("administrative");
        },
        StandardMetric::OperatingExpenses => {
            v.push("operating expense");
            v.push("total operating");
        },
        StandardMetric::OperatingIncome => {
            v.push("operating income");
            v.push("operating loss");
            v.push("income from operations");
        },
        StandardMetric::InterestExpense => {
            v.push("interest expense");
            v.push("interest cost");
        },
        StandardMetric::InterestIncome => {
            v.push("interest income");
            v.push("investment income");
        },
        StandardMetric::OtherNonOperatingIncome => {
            v.push("non-operating");
            v.push("nonoperating");
            v.push("other income");
        },
        StandardMetric::PretaxIncome => {
            v.push("pretax");
            v.push("pre-tax");
            v.push("before income tax");
            v.push("before tax");
        },
        StandardMetric::IncomeTaxExpense => {
            v.push("income tax");
            v.push("tax expense");
            v.push("tax benefit");
        },
        StandardMetric::NetIncome => {
            v.push("net income");
            v.push("net loss");
            v.push("net earnings");
        },
        StandardMetric::NetIncomeToCommon => {
            v.push("net income");
            v.push("common stockholder");
            v.push("common shareholder");
        },
        StandardMetric::DepreciationAmortization => {
            v.push("depreciation");
            v.push("amortization");
            v.push("d&a");
        },
        StandardMetric::CashAndEquivalents => {
            v.push("cash");
            v.push("cash equivalent");
        },
        StandardMetric::ShortTermInvestments => {
            v.push("short-term investment");
            v.push("marketable securities");
        },
        StandardMetric::CashAndShortTermInvestments => {
            v.push("cash and short-term");
            v.push("cash and investment");
        },
        StandardMetric::AccountsReceivable => {
            v.push("accounts receivable");
            v.push("receivable");
            v.push("trade receivable");
        },
        StandardMetric::Inventory => {
            v.push("inventory");
            v.push("inventories");
        },
        StandardMetric::OtherCurrentAssets => {
            v.push("other current asset");
            v.push("prepaid");
        },
        StandardMetric::TotalCurrentAssets => {
            v.push("current assets");
            v.push("total current asset");
        },
        StandardMetric::PropertyPlantEquipment => {
            v.push("property");
            v.push("plant");
            v.push("equipment");
            v.push("pp&e");
            v.push("ppe");
        },
        StandardMetric::Goodwill => {
            v.push("goodwill");
        },
        StandardMetric::IntangibleAssets => {
            v.push("intangible");
        },
        StandardMetric::OtherNonCurrentAssets => {
            v.push("other non-current");
            v.push("other noncurrent");
            v.push("other asset");
        },
        StandardMetric::TotalAssets => {
            v.push("total assets");
            v.push("assets");
        },
        StandardMetric::AccountsPayable => {
            v.push("accounts payable");
            v.push("trade payable");
        },
        StandardMetric::ShortTermDebt => {
            v.push("short-term debt");
            v.push("short-term borrowing");
            v.push("commercial paper");
        },
        StandardMetric::CurrentPortionLongTermDebt => {
            v.push("current portion");
            v.push("long-term debt current");
        },
        StandardMetric::OtherCurrentLiabilities => {
            v.push("other current liabilit");
            v.push("accrued liabilit");
        },
        StandardMetric::TotalCurrentLiabilities => {
            v.push("current liabilities");
            v.push("total current liabilit");
        },
        StandardMetric::LongTermDebt => {
            v.push("long-term debt");
            v.push("long term debt");
        },
        StandardMetric::OtherNonCurrentLiabilities => {
            v.push("other non-current liabilit");
            v.push("other noncurrent liabilit");
        },
        StandardMetric::TotalLiabilities => {
            v.push("total liabilities");
        },
        StandardMetric::CommonStock => {
            v.push("common stock");
        },
        StandardMetric::RetainedEarnings => {
            v.push("retained earnings");
            v.push("accumulated deficit");
        },
        StandardMetric::AccumulatedOtherComprehensiveIncome => {
            v.push("other comprehensive income");
            v.push("oci");
        },
        StandardMetric::TotalStockholdersEquity => {
            v.push("stockholders equity");
            v.push("shareholders equity");
            v.push("total equity");
        },
        StandardMetric::TotalLiabilitiesAndEquity => {
            v.push("liabilities and equity");
            v.push("liabilities and stockholders");
        },
        StandardMetric::OperatingCashFlow => {
            v.push("operating activities");
            v.push("cash from operations");
        },
        StandardMetric::CapitalExpenditures => {
            v.push("capital expenditure");
            v.push("purchase of property");
            v.push("capex");
        },
        StandardMetric::InvestingCashFlow => {
            v.push("investing activities");
        },
        StandardMetric::FinancingCashFlow => {
            v.push("financing activities");
        },
        StandardMetric::DividendsPaid => {
            v.push("dividend");
            v.push("distribution");
        },
        StandardMetric::ShareRepurchases => {
            v.push("repurchase");
            v.push("buyback");
            v.push("treasury stock");
        },
        StandardMetric::NetChangeInCash => {
            v.push("change in cash");
            v.push("increase decrease");
        },
        StandardMetric::EarningsPerShareBasic => {
            v.push("earnings per share");
            v.push("eps");
            v.push("basic");
        },
        StandardMetric::EarningsPerShareDiluted => {
            v.push("earnings per share");
            v.push("eps");
            v.push("diluted");
        },
        StandardMetric::DividendsPerShare => {
            v.push("dividend per share");
        },
        StandardMetric::SharesOutstandingBasic => {
            v.push("shares outstanding");
            v.push("weighted average");
        },
        StandardMetric::SharesOutstandingDiluted => {
            v.push("diluted shares");
            v.push("weighted average diluted");
        },
        _ => {},
    }
    assert(v@.map_values(|s: &str| s@) =~= metric_keywords(*metric));
    v
}

/// The names (`taxonomy:tag`) of all tags the definitions refer to, in order.
pub open spec fn all_tag_names(defs: Seq<DefinitionView>) -> Seq<Seq<char>>
    decreases defs.len(),
{
    if defs.len() == 0 {
        Seq::empty()
    } else {
        all_tag_names(defs.drop_last()) + view_tag_specs(defs.last().resolution).map_values(
            |t| source_name(t),
        )
    }
}

/// The names of the tags a definition refers to.
fn definition_tag_names(def: &MetricDefinition) -> (r: Vec<String>)
    ensures
        strings_view(r@) == view_tag_specs(def@.resolution).map_values(|t| source_name(t)),
{
    let specs = def.resolution.tag_specs();
    proof {
        lemma_view_tag_specs(def.resolution);
    }
    let mut names: Vec<String> = Vec::new();
    let mut i: usize = 0;
    while i < specs.len()
        invariant
            i <= specs@.len(),
            names@.len() == i,
            forall|k: int| 0 <= k < i ==> (#[trigger] names@[k])@ == source_name(specs@[k]@),
        decreases specs.len() - i,
    {
        let mut n = specs[i].taxonomy.clone();
        n.append(":");
        n.append(specs[i].tag.as_str());
        names.push(n);
        i = i + 1;
    }
    assert(strings_view(names@) =~= specs_view(specs@).map_values(|t| source_name(t)));
    names
}

fn known_tag_names(defs: &Vec<MetricDefinition>) -> (r: Vec<String>)
    ensures
        strings_view(r@) == all_tag_names(defs_view(defs@)),
{
    let mut names: Vec<String> = Vec::new();
    let mut i: usize = 0;
    while i < defs.len()
        invariant
            i <= defs@.len(),
            strings_view(names@) == all_tag_names(defs_view(defs@).take(i as int)),
        decreases defs.len() - i,
    {
        let ghost before = names@;
        let mut more = definition_tag_names(&defs[i]);
        let ghost m = more@;
        names.append(&mut more);
        proof {
            let t = defs_view(defs@).take(i + 1);
            assert(t.drop_last() =~= defs_view(defs@).take(i as int));
            assert(t.last() == defs@[i as int]@);
            assert(strings_view(names@) =~= strings_view(before) + strings_view(m));
        }
        i = i + 1;
    }
    assert(defs_view(defs@).take(i as int) =~= defs_view(defs@));
    names
}

/// Fact `k` of series `s` is eligible as the latest annual value of the
/// tag (taxonomy, tag): an annual fact of that tag, in any unit, with an
/// amount and a non-empty end date.
pub open spec fn eligible(series: Seq<FactSeries>, s: int, k: int, taxonomy: Seq<char>, tag: Seq<char>) -> bool {
    &&& 0 <= s < series.len()
    &&& 0 <= k < series[s].facts@.len()
    &&& series[s].taxonomy@ == taxonomy
    &&& series[s].tag@ == tag
    &&& fact_is_annual(series[s].facts@[k])
    &&& series[s].facts@[k].has_val
    &&& series[s].facts@[k].end@.len() > 0
}

/// The end date of a fact reference.
pub open spec fn end_of(series: Seq<FactSeries>, s: int, k: int) -> Seq<char> {
    series[s].facts@[k].end@
}

/// Position (a, b) comes before position (s, k): by series, then by fact.
pub open spec fn pos_before(a: int, b: int, s: int, k: int) -> bool {
    a < s || (a == s && b < k)
}

/// The latest annual value of a tag: the first eligible fact (by series,
/// then fact) whose end date no eligible fact exceeds.
pub open spec fn is_latest(series: Seq<FactSeries>, taxonomy: Seq<char>, tag: Seq<char>, r: FactRef) -> bool {
    let s = r.series as int;
    let k = r.fact as int;
    &&& eligible(series, s, k, taxonomy, tag)
    &&& forall|a: int, b: int|
        eligible(series, a, b, taxonomy, tag) ==> !lex_lt(end_of(series, s, k), #[trigger] end_of(series, a, b))
    &&& forall|a: int, b: int|
        eligible(series, a, b, taxonomy, tag) && pos_before(a, b, s, k) ==> lex_lt(
            #[trigger] end_of(series, a, b),
            end_of(series, s, k),
        )
}

/// The latest annual value of a tag, if it has any eligible fact.
pub open spec fn latest_fact(series: Seq<FactSeries>, taxonomy: Seq<char>, tag: Seq<char>) -> Option<FactRef> {
    if exists|r: FactRef| is_latest(series, taxonomy, tag, r) {
        Some(choose|r: FactRef| is_latest(series, taxonomy, tag, r))
    } else {
        None
    }
}

proof fn lemma_latest_unique(series: Seq<FactSeries>, taxonomy: Seq<char>, tag: Seq<char>, r1: FactRef, r2: FactRef)
    requires
        is_latest(series, taxonomy, tag, r1),
        is_latest(series, taxonomy, tag, r2),
    ensures
        r1 == r2,
{
    let (s1, k1, s2, k2) = (r1.series as int, r1.fact as int, r2.series as int, r2.fact as int);
    assert(!lex_lt(end_of(series, s1, k1), end_of(series, s2, k2)));
    assert(!lex_lt(end_of(series, s2, k2), end_of(series, s1, k1)));
    if pos_before(s1, k1, s2, k2) {
        assert(lex_lt(end_of(series, s1, k1), end_of(series, s2, k2)));
    } else if pos_before(s2, k2, s1, k1) {
        assert(lex_lt(end_of(series, s2, k2), end_of(series, s1, k1)));
    }
}

/// What a scan that has looked at every position before (s, k) knows:
/// `best` is the latest eligible fact seen so far, the first among equals.
pub open spec fn scan_inv(
    ss: Seq<FactSeries>,
    taxonomy: Seq<char>,
    tag: Seq<char>,
    best: Option<FactRef>,
    s: int,
    k: int,
) -> bool {
    match best {
        None => forall|a: int, b: int| #[trigger] eligible(ss, a, b, taxonomy, tag) ==> !pos_before(a, b, s, k),
        Some(r) => {
            let (rs, rk) = (r.series as int, r.fact as int);
            &&& eligible(ss, rs, rk, taxonomy, tag)
            &&& pos_before(rs, rk, s, k)
            &&& forall|a: int, b: int|
                #[trigger] eligible(ss, a, b, taxonomy, tag) && pos_before(a, b, s, k) ==> !lex_lt(
                    end_of(ss, rs, rk),
                    end_of(ss, a, b),
                )
            &&& forall|a: int, b: int|
                #[trigger] eligible(ss, a, b, taxonomy, tag) && pos_before(a, b, rs, rk) ==> lex_lt(
                    end_of(ss, a, b),
                    end_of(ss, rs, rk),
                )
        },
    }
}

/// Passing over position (s, k) without taking it keeps the scan invariant.
proof fn lemma_scan_skip(
    ss: Seq<FactSeries>,
    taxonomy: Seq<char>,
    tag: Seq<char>,
    best: Option<FactRef>,
    s: int,
    k: int,
)
    requires
        scan_inv(ss, taxonomy, tag, best, s, k),
        !eligible(ss, s, k, taxonomy, tag) || (best is Some && !lex_lt(
            end_of(ss, best->0.series as int, best->0.fact as int),
            end_of(ss, s, k),
        )),
    ensures
        scan_inv(ss, taxonomy, tag, best, s, k + 1),
{
    match best {
        None => {
            assert forall|a: int, b: int| #[trigger] eligible(ss, a, b, taxonomy, tag) implies !pos_before(
                a,
                b,
                s,
                k + 1,
            ) by {
                assert(!pos_before(a, b, s, k));
            }
        },
        Some(r) => {
            let (rs, rk) = (r.series as int, r.fact as int);
            assert forall|a: int, b: int| #[trigger]
                eligible(ss, a, b, taxonomy, tag) && pos_before(a, b, s, k + 1) implies !lex_lt(
                end_of(ss, rs, rk),
                end_of(ss, a, b),
            ) by {
                if !pos_before(a, b, s, k) {
                    assert(a == s && b == k);
                }
            }
        },
    }
}

/// Taking position (s, k) as the new best keeps the scan invariant.
proof fn lemma_scan_take(
    ss: Seq<FactSeries>,
    taxonomy: Seq<char>,
    tag: Seq<char>,
    best: Option<FactRef>,
    s: int,
    k: int,
    r: FactRef,
)
    requires
        scan_inv(ss, taxonomy, tag, best, s, k),
        eligible(ss, s, k, taxonomy, tag),
        r.series == s,
        r.fact == k,
        best is None || lex_lt(end_of(ss, best->0.series as int, best->0.fact as int), end_of(ss, s, k)),
    ensures
        scan_inv(ss, taxonomy, tag, Some(r), s, k + 1),
{
    lemma_lex_irreflexive(end_of(ss, s, k));
    match best {
        None => {
            assert forall|a: int, b: int| #[trigger]
                eligible(ss, a, b, taxonomy, tag) && pos_before(a, b, s, k + 1) implies !lex_lt(
                end_of(ss, s, k),
                end_of(ss, a, b),
            ) by {
                assert(!pos_before(a, b, s, k));
                assert(a == s && b == k);
            }
            assert forall|a: int, b: int| #[trigger]
                eligible(ss, a, b, taxonomy, tag) && pos_before(a, b, s, k) implies lex_lt(
                end_of(ss, a, b),
                end_of(ss, s, k),
            ) by {
                assert(!pos_before(a, b, s, k));
            }
        },
        Some(q) => {
            let (qs, qk) = (q.series as int, q.fact as int);
            assert forall|a: int, b: int| #[trigger]
                eligible(ss, a, b, taxonomy, tag) && pos_before(a, b, s, k + 1) implies !lex_lt(
                end_of(ss, s, k),
                end_of(ss, a, b),
            ) by {
                if a == s && b == k {
                } else {
                    assert(pos_before(a, b, s, k));
                    assert(!lex_lt(end_of(ss, qs, qk), end_of(ss, a, b)));
                    lemma_lex_total(end_of(ss, qs, qk), end_of(ss, a, b));
                    if lex_lt(end_of(ss, s, k), end_of(ss, a, b)) {
                        lemma_lex_transitive(end_of(ss, qs, qk), end_of(ss, s, k), end_of(ss, a, b));
                    }
                }
            }
            assert forall|a: int, b: int| #[trigger]
                eligible(ss, a, b, taxonomy, tag) && pos_before(a, b, s, k) implies lex_lt(
                end_of(ss, a, b),
                end_of(ss, s, k),
            ) by {
                assert(!lex_lt(end_of(ss, qs, qk), end_of(ss, a, b)));
                lemma_lex_total(end_of(ss, qs, qk), end_of(ss, a, b));
                if end_of(ss, a, b) != end_of(ss, qs, qk) {
                    lemma_lex_transitive(end_of(ss, a, b), end_of(ss, qs, qk), end_of(ss, s, k));
                }
            }
        },
    }
}

/// Moving from the end of series `s` (or past a series of another tag) to
/// the start of the next keeps the scan invariant.
proof fn lemma_scan_next(
    ss: Seq<FactSeries>,
    taxonomy: Seq<char>,
    tag: Seq<char>,
    best: Option<FactRef>,
    s: int,
    k: int,
)
    requires
        0 <= s < ss.len(),
        scan_inv(ss, taxonomy, tag, best, s, k),
        k == ss[s].facts@.len() || ss[s].taxonomy@ != taxonomy || ss[s].tag@ != tag,
    ensures
        scan_inv(ss, taxonomy, tag, best, s + 1, 0),
{
    match best {
        None => {
            assert forall|a: int, b: int| #[trigger] eligible(ss, a, b, taxonomy, tag) implies !pos_before(
                a,
                b,
                s + 1,
                0,
            ) by {
                assert(!pos_before(a, b, s, k));
            }
        },
        Some(r) => {
            let (rs, rk) = (r.series as int, r.fact as int);
            assert forall|a: int, b: int| #[trigger]
                eligible(ss, a, b, taxonomy, tag) && pos_before(a, b, s + 1, 0) implies !lex_lt(
                end_of(ss, rs, rk),
                end_of(ss, a, b),
            ) by {
                assert(pos_before(a, b, s, k));
            }
        },
    }
}

/// Find the latest annual value of a tag and its unit.
fn find_latest_value(series: &[FactSeries], taxonomy: &str, tag: &str) -> (r: (Option<FactRef>, String))
    ensures
        r.0 == latest_fact(series@, taxonomy@, tag@),
        r.1@ == match r.0 {
            Some(f) => series@[f.series as int].unit@,
            None => "unknown"@,
        },
{
    let ghost ss = series@;
    let mut best: Option<FactRef> = None;
    let mut s: usize = 0;
    while s < series.len()
        invariant
            ss == series@,
            s <= ss.len(),
            scan_inv(ss, taxonomy@, tag@, best, s as int, 0),
            best is Some ==> best->0.series < ss.len() && best->0.fact < ss[best->0.series as int].facts@.len(),
        decreases series.len() - s,
    {
        let cur = &series[s];
        if str_eq(cur.taxonomy.as_str(), taxonomy) && str_eq(cur.tag.as_str(), tag) {
            let mut k: usize = 0;
            while k < cur.facts.len()
                invariant
                    ss == series@,
                    s < ss.len(),
                    *cur == ss[s as int],
                    cur.taxonomy@ == taxonomy@,
                    cur.tag@ == tag@,
                    k <= cur.facts@.len(),
                    scan_inv(ss, taxonomy@, tag@, best, s as int, k as int),
                    best is Some ==> best->0.series < ss.len() && best->0.fact < ss[best->0.series as int].facts@.len(),
                decreases cur.facts.len() - k,
            {
                let f = &cur.facts[k];
                let elig = f.is_annual() && f.has_val && f.end.as_str().unicode_len() > 0;
                assert(elig == eligible(ss, s as int, k as int, taxonomy@, tag@));
                let better = elig && match best {
                    None => true,
                    Some(r) => str_lt(series[r.series].facts[r.fact].end.as_str(), f.end.as_str()),
                };
                if better {
                    let r = FactRef { series: s, fact: k };
                    proof {
                        lemma_scan_take(ss, taxonomy@, tag@, best, s as int, k as int, r);
                    }
                    best = Some(r);
                } else {
                    proof {
                        lemma_scan_skip(ss, taxonomy@, tag@, best, s as int, k as int);
                    }
                }
                k = k + 1;
            }
            proof {
                lemma_scan_next(ss, taxonomy@, tag@, best, s as int, k as int);
            }
        } else {
            proof {
                lemma_scan_next(ss, taxonomy@, tag@, best, s as int, 0);
            }
        }
        s = s + 1;
    }
    match best {
        Some(r) => {
            proof {
                assert(is_latest(ss, taxonomy@, tag@, r)) by {
                    assert forall|a: int, b: int| #[trigger]
                        eligible(ss, a, b, taxonomy@, tag@) implies !lex_lt(
                        end_of(ss, r.series as int, r.fact as int),
                        end_of(ss, a, b),
                    ) by {
                        assert(pos_before(a, b, s as int, 0));
                    }
                }
                let c = choose|c: FactRef| is_latest(ss, taxonomy@, tag@, c);
                lemma_latest_unique(ss, taxonomy@, tag@, r, c);
            }
            (Some(r), series[r.series].unit.clone())
        },
        None => {
            proof {
                if exists|c: FactRef| is_latest(ss, taxonomy@, tag@, c) {
                    let c = choose|c: FactRef| is_latest(ss, taxonomy@, tag@, c);
                    assert(eligible(ss, c.series as int, c.fact as int, taxonomy@, tag@));
                    assert(pos_before(c.series as int, c.fact as int, s as int, 0));
                }
            }
            (None, String::from_str("unknown"))
        },
    }
}

/// Series `s` is the first series of its (taxonomy, tag) pair.
pub open spec fn first_of_tag(series: Seq<FactSeries>, s: int) -> bool {
    forall|j: int|
        0 <= j < s ==> !(#[trigger] series[j].taxonomy@ == series[s].taxonomy@ && series[j].tag@
            == series[s].tag@)
}

/// The characters of an optional label, the empty string when absent.
pub open spec fn label_or_empty(label: Option<Seq<char>>) -> Seq<char> {
    match label {
        Some(l) => l,
        None => Seq::empty(),
    }
}

/// Keyword `kw` hits a tag when its lowercase form occurs in the lowercase
/// label or the lowercase tag name.
pub open spec fn keyword_hits(label: Option<Seq<char>>, tag: Seq<char>, kw: Seq<char>) -> bool {
    contains_seq(lowercase_of(label_or_empty(label)), lowercase_of(kw)) || contains_seq(
        lowercase_of(tag),
        lowercase_of(kw),
    )
}

/// The first keyword, from position `from` on, that hits the tag.
pub open spec fn first_hit(label: Option<Seq<char>>, tag: Seq<char>, kws: Seq<Seq<char>>, from: int) -> Option<int>
    decreases kws.len() - from,
{
    if from < 0 || from >= kws.len() {
        None
    } else if keyword_hits(label, tag, kws[from]) {
        Some(from)
    } else {
        first_hit(label, tag, kws, from + 1)
    }
}

/// The first hit lies in the keywords and hits the tag.
proof fn lemma_first_hit(label: Option<Seq<char>>, tag: Seq<char>, kws: Seq<Seq<char>>, from: int)
    requires
        0 <= from,
    ensures
        first_hit(label, tag, kws, from) matches Some(j) ==> from <= j < kws.len() && keyword_hits(
            label,
            tag,
            kws[j],
        ),
    decreases kws.len() - from,
{
    if from < kws.len() && !keyword_hits(label, tag, kws[from]) {
        lemma_first_hit(label, tag, kws, from + 1);
    }
}

/// The candidate that series `s` gives, if any: the first series of a tag
/// the definitions do not know, whose label or name a keyword hits.
pub open spec fn candidate_at(series: Seq<FactSeries>, known: Seq<Seq<char>>, kws: Seq<Seq<char>>, s: int) -> Option<
    CandidateView,
> {
    let cur = series[s];
    let name = cur.taxonomy@ + ":"@ + cur.tag@;
    if first_of_tag(series, s) && !known.contains(name) {
        match first_hit(opt_chars(cur.label), cur.tag@, kws, 0) {
            Some(j) => {
                let latest = latest_fact(series, cur.taxonomy@, cur.tag@);
                Some(
                    CandidateView {
                        taxonomy: cur.taxonomy@,
                        tag: cur.tag@,
                        label: opt_chars(cur.label),
                        latest_value: latest,
                        unit: match latest {
                            Some(f) => series[f.series as int].unit@,
                            None => "unknown"@,
                        },
                        match_reason: "keyword: "@ + kws[j],
                    },
                )
            },
            None => None,
        }
    } else {
        None
    }
}

/// The candidates of the first `n` series, in series order.
pub open spec fn keyword_candidates(series: Seq<FactSeries>, known: Seq<Seq<char>>, kws: Seq<Seq<char>>, n: int) -> Seq<
    CandidateView,
>
    decreases n,
{
    if n <= 0 {
        Seq::empty()
    } else {
        let before = keyword_candidates(series, known, kws, n - 1);
        match candidate_at(series, known, kws, n - 1) {
            Some(c) => before.push(c),
            None => before,
        }
    }
}

/// Whether an earlier series has the same taxonomy and tag as series `s`.
fn tag_seen_before(series: &[FactSeries], s: usize) -> (r: bool)
    requires
        s < series@.len(),
    ensures
        r == !first_of_tag(series@, s as int),
{
    let mut j: usize = 0;
    while j < s
        invariant
            s < series@.len(),
            j <= s,
            forall|i: int|
                0 <= i < j ==> !(#[trigger] series@[i].taxonomy@ == series@[s as int].taxonomy@
                    && series@[i].tag@ == series@[s as int].tag@),
        decreases s - j,
    {
        if str_eq(series[j].taxonomy.as_str(), series[s].taxonomy.as_str()) && str_eq(
            series[j].tag.as_str(),
            series[s].tag.as_str(),
        ) {
            return true;
        }
        j = j + 1;
    }
    false
}

/// The first keyword that hits a tag, given its lowercase label and name.
fn find_keyword_hit(label_lower: &str, tag_lower: &str, keywords: &Vec<&'static str>, label: Ghost<Option<Seq<char>>>, tag: Ghost<Seq<char>>) -> (r: Option<usize>)
    requires
        label_lower@ == lowercase_of(label_or_empty(label@)),
        tag_lower@ == lowercase_of(tag@),
    ensures
        r == match first_hit(label@, tag@, keywords@.map_values(|k: &str| k@), 0) {
            Some(j) => Some(j as usize),
            None => None::<usize>,
        },
{
    let ghost kws = keywords@.map_values(|k: &str| k@);
    let mut i: usize = keywords.len();
    let mut found: Option<usize> = None;
    // Scan from the back so that the hit kept is the first one.
    while i > 0
        invariant
            i <= keywords@.len(),
            kws == keywords@.map_values(|k: &str| k@),
            label_lower@ == lowercase_of(label_or_empty(label@)),
            tag_lower@ == lowercase_of(tag@),
            match first_hit(label@, tag@, kws, i as int) {
                Some(j) => found == Some(j as usize),
                None => found is None,
            },
        decreases i,
    {
        i = i - 1;
        let kw = to_lower(keywords[i]);
        if str_contains(label_lower, kw.as_str()) || str_contains(tag_lower, kw.as_str()) {
            found = Some(i);
        }
    }
    found
}

/// Search the series for tags whose labels or names match keyword fragments
/// for a missing metric, skipping tags the definitions already know. The
/// candidates come in series order.
pub fn search_keyword_candidates(
    metric: &StandardMetric,
    series: &[FactSeries],
    definitions: &Vec<MetricDefinition>,
) -> (r: Vec<CandidateTag>)
    ensures
        candidates_view(r@) == keyword_candidates(
            series@,
            all_tag_names(defs_view(definitions@)),
            metric_keywords(*metric),
            series@.len() as int,
        ),
{
    let keywords = search_keywords(metric);
    let ghost kws = metric_keywords(*metric);
    let known = known_tag_names(definitions);
    let ghost kn = all_tag_names(defs_view(definitions@));
    let mut out: Vec<CandidateTag> = Vec::new();
    let mut s: usize = 0;
    while s < series.len()
        invariant
            s <= series@.len(),
            keywords@.map_values(|k: &str| k@) == kws,
            strings_view(known@) == kn,
            candidates_view(out@) == keyword_candidates(series@, kn, kws, s as int),
        decreases series.len() - s,
    {
        let ghost before = candidates_view(out@);
        let cur = &series[s];
        if !tag_seen_before(series, s) {
            let mut name = cur.taxonomy.clone();
            name.append(":");
            name.append(cur.tag.as_str());
            if !strings_contain(&known, name.as_str()) {
                let label_lower = match &cur.label {
                    Some(l) => to_lower(l.as_str()),
                    None => {
                        proof {
                            reveal_strlit("");
                            assert(""@ =~= Seq::<char>::empty());
                        }
                        to_lower("")
                    },
                };
                assert(label_lower@ == lowercase_of(label_or_empty(opt_chars(cur.label))));
                let tag_lower = to_lower(cur.tag.as_str());
                let hit = find_keyword_hit(
                    label_lower.as_str(),
                    tag_lower.as_str(),
                    &keywords,
                    Ghost(opt_chars(cur.label)),
                    Ghost(cur.tag@),
                );
                match hit {
                    Some(j) => {
                        proof {
                            lemma_first_hit(opt_chars(cur.label), cur.tag@, kws, 0);
                        }
                        let (latest_value, unit) = find_latest_value(series, cur.taxonomy.as_str(), cur.tag.as_str());
                        let mut reason = String::from_str("keyword: ");
                        reason.append(keywords[j]);
                        let c = CandidateTag {
                            taxonomy: cur.taxonomy.clone(),
                            tag: cur.tag.clone(),
                            label: cur.label.clone(),
                            latest_value,
                            unit,
                            match_reason: reason,
                        };
                        out.push(c);
                        proof {
                            assert(candidates_view(out@) =~= before.push(c@));
                        }
                    },
                    None => {},
                }
            }
        }
        s = s + 1;
    }
    out
}

/// A definition resolves from XBRL tags rather than from other metrics.
pub open spec fn is_primary(d: DefinitionView) -> bool {
    !(d.resolution is Custom)
}

/// A definition's metric resolved in the latest period.
pub open spec fn resolved_in(d: DefinitionView, latest: Option<Seq<StandardMetric>>) -> bool {
    latest matches Some(ms) && ms.contains(d.metric)
}

/// The number of primary definitions among the first `n`.
pub open spec fn expected_upto(defs: Seq<DefinitionView>, n: int) -> nat
    decreases n,
{
    if n <= 0 {
        0
    } else {
        expected_upto(defs, n - 1) + if is_primary(defs[n - 1]) {
            1nat
        } else {
            0nat
        }
    }
}

/// The number of primary definitions among the first `n` whose metric resolved.
pub open spec fn resolved_upto(defs: Seq<DefinitionView>, latest: Option<Seq<StandardMetric>>, n: int) -> nat
    decreases n,
{
    if n <= 0 {
        0
    } else {
        resolved_upto(defs, latest, n - 1) + if is_primary(defs[n - 1]) && resolved_in(defs[n - 1], latest) {
            1nat
        } else {
            0nat
        }
    }
}

/// What is reported of a missing primary definition.
pub open spec fn missing_of(series: Seq<FactSeries>, defs: Seq<DefinitionView>, d: DefinitionView) -> MissingView {
    MissingView {
        metric: d.metric,
        display_name: metric_display_name(d.metric),
        tags_tried: view_tag_specs(d.resolution).map_values(|t| source_name(t)),
        candidates: keyword_candidates(
            series,
            all_tag_names(defs),
            metric_keywords(d.metric),
            series.len() as int,
        ),
    }
}

/// The missing metrics among the first `n` definitions, in order.
pub open spec fn missing_upto(
    series: Seq<FactSeries>,
    defs: Seq<DefinitionView>,
    latest: Option<Seq<StandardMetric>>,
    n: int,
) -> Seq<MissingView>
    decreases n,
{
    if n <= 0 {
        Seq::empty()
    } else {
        let before = missing_upto(series, defs, latest, n - 1);
        if is_primary(defs[n - 1]) && !resolved_in(defs[n - 1], latest) {
            before.push(missing_of(series, defs, defs[n - 1]))
        } else {
            before
        }
    }
}

/// The definitions the analysis uses: those given, or else the default
/// catalog's followed by the company's sector definitions.
pub open spec fn coverage_definitions(company: Company, override_definitions: Option<Seq<DefinitionView>>) -> Seq<
    DefinitionView,
> {
    match override_definitions {
        Some(d) => d,
        None => default_definitions_spec() + sector_definitions_spec(opt_chars(company.sic)),
    }
}

/// The metrics of the latest period, if there is one.
pub open spec fn latest_metrics(latest: Option<ResolvedPeriod>) -> Option<Seq<StandardMetric>> {
    match latest {
        Some(p) => Some(p.metrics@),
        None => None,
    }
}

/// Whether `m` is among `ms`.
fn metric_listed(ms: &Vec<StandardMetric>, m: StandardMetric) -> (r: bool)
    ensures
        r == ms@.contains(m),
{
    let mut i: usize = 0;
    while i < ms.len()
        invariant
            i <= ms@.len(),
            forall|j: int| 0 <= j < i ==> ms@[j] != m,
        decreases ms.len() - i,
    {
        if ms[i] == m {
            assert(ms@[i as int] == m);
            return true;
        }
        i = i + 1;
    }
    false
}

impl CoverageAnalyzer {
    /// Analyze coverage gaps for a company's latest annual period.
    ///
    /// If `override_definitions` is given, those definitions are used in
    /// place of the default catalog and the sector definitions, so that
    /// callers can pass augmented definitions (with learned tags prepended).
    /// Only primary metrics, not those computed from others, are expected.
    pub fn analyze(
        entity_name: &str,
        series: &[FactSeries],
        company: &Company,
        latest: Option<&ResolvedPeriod>,
        override_definitions: Option<&Vec<MetricDefinition>>,
    ) -> (r: CoverageReport)
        ensures
            ({
                let defs = coverage_definitions(
                    *company,
                    match override_definitions {
                        Some(d) => Some(defs_view(d@)),
                        None => None,
                    },
                );
                let lm = latest_metrics(
                    match latest {
                        Some(p) => Some(*p),
                        None => None,
                    },
                );
                &&& r.entity_name@ == entity_name@
                &&& r.period == match latest {
                    Some(p) => p.period,
                    None => FiscalPeriod { year: 0, quarter: None },
                }
                &&& r.expected_count == expected_upto(defs, defs.len() as int)
                &&& r.resolved_count == resolved_upto(defs, lm, defs.len() as int)
                &&& r.missing_metrics@.map_values(|m: MissingMetric| m@) == missing_upto(
                    series@,
                    defs,
                    lm,
                    defs.len() as int,
                )
            }),
    {
        let definitions: Vec<MetricDefinition> = match override_definitions {
            Some(d) => copy_definitions(d),
            None => {
                let catalog = DefaultCatalog;
                let mut defs = catalog.definitions();
                let sic: Option<&str> = match &company.sic {
                    Some(s) => Some(s.as_str()),
                    None => None,
                };
                extend_definitions(&mut defs, sector_definitions(sic));
                defs
            },
        };
        let ghost dv = defs_view(definitions@);
        let ghost lm = latest_metrics(
            match latest {
                Some(p) => Some(*p),
                None => None,
            },
        );
        let mut expected_count: usize = 0;
        let mut resolved_count: usize = 0;
        let mut missing_metrics: Vec<MissingMetric> = Vec::new();
        let mut i: usize = 0;
        while i < definitions.len()
            invariant
                i <= definitions@.len(),
                dv == defs_view(definitions@),
                lm == latest_metrics(
                    match latest {
                        Some(p) => Some(*p),
                        None => None,
                    },
                ),
                expected_count == expected_upto(dv, i as int),
                resolved_count == resolved_upto(dv, lm, i as int),
                expected_count <= i,
                resolved_count <= expected_count,
                missing_metrics@.map_values(|m: MissingMetric| m@) == missing_upto(series@, dv, lm, i as int),
            decreases definitions.len() - i,
        {
            let def = &definitions[i];
            assert(dv[i as int] == def@);
            if !def.resolution.is_custom() {
                expected_count = expected_count + 1;
                let resolved = match latest {
                    Some(p) => metric_listed(&p.metrics, def.metric),
                    None => false,
                };
                if resolved {
                    resolved_count = resolved_count + 1;
                } else {
                    let ghost before = missing_metrics@.map_values(|m: MissingMetric| m@);
                    let tags_tried = definition_tag_names(def);
                    let candidates = search_keyword_candidates(&def.metric, series, &definitions);
                    let m = MissingMetric {
                        metric: def.metric,
                        display_name: String::from_str(def.metric.display_name()),
                        tags_tried,
                        candidates,
                    };
                    missing_metrics.push(m);
                    assert(missing_metrics@.map_values(|m: MissingMetric| m@) =~= before.push(m@));
                }
            }
            i = i + 1;
        }
        let period = match latest {
            Some(p) => p.period,
            None => FiscalPeriod::annual(0),
        };
        CoverageReport {
            entity_name: String::from_str(entity_name),
            period,
            expected_count,
            resolved_count,
            missing_metrics,
        }
    }
}

/// Every primary metric is either resolved or reported missing: among any
/// prefix of the definitions, the resolved and the missing metrics add up
/// to the expected ones.
pub proof fn lemma_coverage_counts(
    series: Seq<FactSeries>,
    defs: Seq<DefinitionView>,
    latest: Option<Seq<StandardMetric>>,
    n: int,
)
    ensures
        resolved_upto(defs, latest, n) + missing_upto(series, defs, latest, n).len() == expected_upto(defs, n),
    decreases n,
{
    if n > 0 {
        lemma_coverage_counts(series, defs, latest, n - 1);
    }
}

/// Every candidate of the first `n` series names the tag of one of them.
proof fn lemma_candidates_from_series(series: Seq<FactSeries>, known: Seq<Seq<char>>, kws: Seq<Seq<char>>, n: int)
    ensures
        forall|i: int|
            0 <= i < keyword_candidates(series, known, kws, n).len() ==> exists|j: int|
                0 <= j < n && #[trigger] keyword_candidates(series, known, kws, n)[i].taxonomy == series[j].taxonomy@
                    && keyword_candidates(series, known, kws, n)[i].tag == series[j].tag@,
    decreases n,
{
    if n > 0 {
        lemma_candidates_from_series(series, known, kws, n - 1);
        let before = keyword_candidates(series, known, kws, n - 1);
        let now = keyword_candidates(series, known, kws, n);
        assert forall|i: int| 0 <= i < now.len() implies exists|j: int|
            0 <= j < n && #[trigger] now[i].taxonomy == series[j].taxonomy@ && now[i].tag == series[j].tag@ by {
            if i < before.len() {
                assert(now[i] == before[i]);
                let j = choose|j: int|
                    0 <= j < n - 1 && #[trigger] before[i].taxonomy == series[j].taxonomy@ && before[i].tag
                        == series[j].tag@;
                assert(0 <= j < n);
            } else {
                assert(now[i].taxonomy == series[n - 1].taxonomy@);
            }
        }
    }
}

/// The keyword search never proposes a tag the definitions already know,
/// and proposes each (taxonomy, tag) pair at most once.
pub proof fn lemma_candidates_new_and_distinct(
    series: Seq<FactSeries>,
    known: Seq<Seq<char>>,
    kws: Seq<Seq<char>>,
    n: int,
)
    ensures
        forall|i: int|
            0 <= i < keyword_candidates(series, known, kws, n).len() ==> !known.contains(
                #[trigger] keyword_candidates(series, known, kws, n)[i].taxonomy + ":"@
                    + keyword_candidates(series, known, kws, n)[i].tag,
            ),
        forall|i: int, k: int|
            0 <= i < k < keyword_candidates(series, known, kws, n).len() ==> !(
            #[trigger] keyword_candidates(series, known, kws, n)[i].taxonomy == #[trigger] keyword_candidates(
                series,
                known,
                kws,
                n,
            )[k].taxonomy && keyword_candidates(series, known, kws, n)[i].tag == keyword_candidates(
                series,
                known,
                kws,
                n,
            )[k].tag),
    decreases n,
{
    if n > 0 {
        lemma_candidates_new_and_distinct(series, known, kws, n - 1);
        lemma_candidates_from_series(series, known, kws, n - 1);
        let before = keyword_candidates(series, known, kws, n - 1);
        let now = keyword_candidates(series, known, kws, n);
        if candidate_at(series, known, kws, n - 1) is Some {
            let c = now[before.len() as int];
            assert forall|i: int, k: int| 0 <= i < k < now.len() implies !(#[trigger] now[i].taxonomy
                == #[trigger] now[k].taxonomy && now[i].tag == now[k].tag) by {
                if k == before.len() {
                    assert(now[i] == before[i]);
                    let j = choose|j: int|
                        0 <= j < n - 1 && #[trigger] before[i].taxonomy == series[j].taxonomy@ && before[i].tag
                            == series[j].tag@;
                    assert(first_of_tag(series, n - 1));
                    assert(!(series[j].taxonomy@ == series[n - 1].taxonomy@ && series[j].tag@
                        == series[n - 1].tag@));
                } else {
                    assert(now[i] == before[i] && now[k] == before[k]);
                }
            }
            assert forall|i: int| 0 <= i < now.len() implies !known.contains(
                #[trigger] now[i].taxonomy + ":"@ + now[i].tag,
            ) by {
                if i < before.len() {
                    assert(now[i] == before[i]);
                }
            }
        }
    }
}

/// A total metric and the component metrics whose sum should come close
/// to it in a statement.
#[derive(Debug, Clone)]
pub struct GapCheck {
    pub total: StandardMetric,
    pub components: Vec<StandardMetric>,
}

/// The statement checks, in the order they are made: operating expenses,
/// total assets, total current assets and total liabilities against their
/// components.
pub open spec fn gap_checks() -> Seq<(StandardMetric, Seq<StandardMetric>)> {
    seq![
        (
            StandardMetric::OperatingExpenses,
            seq![
                StandardMetric::CostOfRevenue,
                StandardMetric::ResearchAndDevelopment,
                StandardMetric::SellingGeneralAdmin,
                StandardMetric::DepreciationAmortization,
            ],
        ),
        (
            StandardMetric::TotalAssets,
            seq![
                StandardMetric::TotalCurrentAssets,
                StandardMetric::PropertyPlantEquipment,
                StandardMetric::Goodwill,
                StandardMetric::IntangibleAssets,
                StandardMetric::OtherNonCurrentAssets,
            ],
        ),
        (
            StandardMetric::TotalCurrentAssets,
            seq![
                StandardMetric::CashAndEquivalents,
                StandardMetric::ShortTermInvestments,
                StandardMetric::AccountsReceivable,
                StandardMetric::Inventory,
                StandardMetric::OtherCurrentAssets,
            ],
        ),
        (
            StandardMetric::TotalLiabilities,
            seq![
                StandardMetric::TotalCurrentLiabilities,
                StandardMetric::LongTermDebt,
                StandardMetric::OtherNonCurrentLiabilities,
            ],
        ),
    ]
}

/// The checks that detect statement-level gaps, where a total differs from
/// the sum of its known components.
pub fn statement_gap_checks() -> (r: Vec<GapCheck>)
    ensures
        r@.map_values(|g: GapCheck| (g.total, g.components@)) == gap_checks(),
{
    let opex = GapCheck {
        total: StandardMetric::OperatingExpenses,
        components: vec![
            StandardMetric::CostOfRevenue,
            StandardMetric::ResearchAndDevelopment,
            StandardMetric::SellingGeneralAdmin,
            StandardMetric::DepreciationAmortization,
        ],
    };
    let assets = GapCheck {
        total: StandardMetric::TotalAssets,
        components: vec![
            StandardMetric::TotalCurrentAssets,
            StandardMetric::PropertyPlantEquipment,
            StandardMetric::Goodwill,
            StandardMetric::IntangibleAssets,
            StandardMetric::OtherNonCurrentAssets,
        ],
    };
    let current_assets = GapCheck {
        total: StandardMetric::TotalCurrentAssets,
        components: vec![
            StandardMetric::CashAndEquivalents,
            StandardMetric::ShortTermInvestments,
            StandardMetric::AccountsReceivable,
            StandardMetric::Inventory,
            StandardMetric::OtherCurrentAssets,
        ],
    };
    let liabilities = GapCheck {
        total: StandardMetric::TotalLiabilities,
        components: vec![
            StandardMetric::TotalCurrentLiabilities,
            StandardMetric::LongTermDebt,
            StandardMetric::OtherNonCurrentLiabilities,
        ],
    };
    let r = vec![opex, assets, current_assets, liabilities];
    assert(r@.map_values(|g: GapCheck| (g.total, g.components@)) =~= gap_checks());
    r
}

/// The components a statement total is checked against: operating expenses
/// against cost of revenue, R&D, SG&A and D&A; total assets against
/// current assets, PP&E, goodwill, intangibles and other non-current
/// assets; total current assets against cash, short-term investments,
/// receivables, inventory and other current assets; total liabilities
/// against current liabilities, long-term debt and other non-current
/// liabilities. No other total is checked, and no total is its own
/// component.
pub proof fn lemma_gap_check_components()
    ensures
        gap_checks().len() == 4,
        forall|i: int| 0 <= i < gap_checks().len() ==> !(#[trigger] gap_checks()[i]).1.contains(gap_checks()[i].0),
        gap_checks()[0].0 == StandardMetric::OperatingExpenses,
        gap_checks()[0].1.to_set() == set![
            StandardMetric::CostOfRevenue,
            StandardMetric::ResearchAndDevelopment,
            StandardMetric::SellingGeneralAdmin,
            StandardMetric::DepreciationAmortization,
        ],
        gap_checks()[1].0 == StandardMetric::TotalAssets,
        gap_checks()[1].1.to_set() == set![
            StandardMetric::TotalCurrentAssets,
            StandardMetric::PropertyPlantEquipment,
            StandardMetric::Goodwill,
            StandardMetric::IntangibleAssets,
            StandardMetric::OtherNonCurrentAssets,
        ],
        gap_checks()[2].0 == StandardMetric::TotalCurrentAssets,
        gap_checks()[2].1.to_set() == set![
            StandardMetric::CashAndEquivalents,
            StandardMetric::ShortTermInvestments,
            StandardMetric::AccountsReceivable,
            StandardMetric::Inventory,
            StandardMetric::OtherCurrentAssets,
        ],
        gap_checks()[3].0 == StandardMetric::TotalLiabilities,
        gap_checks()[3].1.to_set() == set![
            StandardMetric::TotalCurrentLiabilities,
            StandardMetric::LongTermDebt,
            StandardMetric::OtherNonCurrentLiabilities,
        ],
        forall|i: int| 0 <= i < gap_checks().len() ==> (#[trigger] gap_checks()[i]).1.no_duplicates(),
{
    let g = gap_checks();
    assert(g[0].1.to_set() =~= set![
        StandardMetric::CostOfRevenue,
        StandardMetric::ResearchAndDevelopment,
        StandardMetric::SellingGeneralAdmin,
        StandardMetric::DepreciationAmortization,
    ]);
    assert(g[1].1.to_set() =~= set![
        StandardMetric::TotalCurrentAssets,
        StandardMetric::PropertyPlantEquipment,
        StandardMetric::Goodwill,
        StandardMetric::IntangibleAssets,
        StandardMetric::OtherNonCurrentAssets,
    ]);
    assert(g[2].1.to_set() =~= set![
        StandardMetric::CashAndEquivalents,
        StandardMetric::ShortTermInvestments,
        StandardMetric::AccountsReceivable,
        StandardMetric::Inventory,
        StandardMetric::OtherCurrentAssets,
    ]);
    assert(g[3].1.to_set() =~= set![
        StandardMetric::TotalCurrentLiabilities,
        StandardMetric::LongTermDebt,
        StandardMetric::OtherNonCurrentLiabilities,
    ]);
    assert forall|i: int| 0 <= i < g.len() implies !(#[trigger] g[i]).1.contains(g[i].0) by {
        if g[i].1.contains(g[i].0) {
            let j = choose|j: int| 0 <= j < g[i].1.len() && g[i].1[j] == g[i].0;
            assert(g[i].1.to_set().contains(g[i].1[j]));
        }
    }
}

} // verus!
