//! Cash flow statement metric definitions with XBRL tag fallback chains.
use vstd::prelude::*;

use crate::standardizer::catalog::MetricDefinition;
use crate::standardizer::catalog::DefinitionView;
use crate::standardizer::catalog::defs_view;
use crate::standardizer::catalog::first_match;
use crate::standardizer::catalog::first_match_view;
use crate::standardizer::catalog::usd_tag;
use crate::standardizer::output::StandardMetric;
use crate::standardizer::resolution::TagSpec;
use crate::standardizer::resolution::specs_view;

verus! {

/// The definitions that `definitions` returns, in order.
pub open spec fn cash_flow_definitions_spec() -> Seq<DefinitionView> {
    seq![
        first_match_view(StandardMetric::OperatingCashFlow, seq![usd_tag("NetCashProvidedByUsedInOperatingActivities"@), usd_tag("NetCashProvidedByUsedInOperatingActivitiesContinuingOperations"@)]),
        first_match_view(StandardMetric::CapitalExpenditures, seq![usd_tag("PaymentsToAcquirePropertyPlantAndEquipment"@), usd_tag("PaymentsToAcquireProductiveAssets"@), usd_tag("CapitalExpendituresIncurredButNotYetPaid"@)]),
        first_match_view(StandardMetric::InvestingCashFlow, seq![usd_tag("NetCashProvidedByUsedInInvestingActivities"@), usd_tag("NetCashProvidedByUsedInInvestingActivitiesContinuingOperations"@)]),
        first_match_view(StandardMetric::FinancingCashFlow, seq![usd_tag("NetCashProvidedByUsedInFinancingActivities"@), usd_tag("NetCashProvidedByUsedInFinancingActivitiesContinuingOperations"@)]),
        first_match_view(StandardMetric::DividendsPaid, seq![usd_tag("PaymentsOfDividendsCommonStock"@), usd_tag("PaymentsOfDividends"@), usd_tag("PaymentsOfOrdinaryDividends"@), usd_tag("DividendsCommonStockCash"@), usd_tag("Dividends"@), usd_tag("DividendsCash"@)]),
        first_match_view(StandardMetric::ShareRepurchases, seq![usd_tag("PaymentsForRepurchaseOfCommonStock"@), usd_tag("PaymentsForRepurchaseOfEquity"@)]),
        first_match_view(StandardMetric::NetChangeInCash, seq![usd_tag("CashCashEquivalentsRestrictedCashAndRestrictedCashEquivalentsPeriodIncreaseDecreaseIncludingExchangeRateEffect"@), usd_tag("CashAndCashEquivalentsPeriodIncreaseDecrease"@), usd_tag("CashCashEquivalentsRestrictedCashAndRestrictedCashEquivalentsPeriodIncreaseDecreaseExcludingExchangeRateEffect"@)]),
    ]
}

/// Cash flow statement metric definitions with XBRL tag fallback chains.
///
/// Tag ordering is based on real-world usage across 42 major companies.
pub fn definitions() -> (defs: Vec<MetricDefinition>)
    ensures
        defs_view(defs@) == cash_flow_definitions_spec(),
{
    let mut defs: Vec<MetricDefinition> = Vec::new();
    // ─── Operating Cash Flow (42/42 — universal) ───
    let mut tags: Vec<TagSpec> = Vec::new();
    tags.push(TagSpec::gaap_usd("NetCashProvidedByUsedInOperatingActivities"));
    tags.push(TagSpec::gaap_usd("NetCashProvidedByUsedInOperatingActivitiesContinuingOperations"));
    assert(specs_view(tags@) =~= seq![usd_tag("NetCashProvidedByUsedInOperatingActivities"@), usd_tag("NetCashProvidedByUsedInOperatingActivitiesContinuingOperations"@)]);
    defs.push(first_match(StandardMetric::OperatingCashFlow, tags));
    // ─── Capital Expenditures (38/42 use PaymentsToAcquirePropertyPlantAndEquipment) ───
    let mut tags: Vec<TagSpec> = Vec::new();
    tags.push(TagSpec::gaap_usd("PaymentsToAcquirePropertyPlantAndEquipment"));
    tags.push(TagSpec::gaap_usd("PaymentsToAcquireProductiveAssets"));
    tags.push(TagSpec::gaap_usd("CapitalExpendituresIncurredButNotYetPaid"));
    assert(specs_view(tags@) =~= seq![usd_tag("PaymentsToAcquirePropertyPlantAndEquipment"@), usd_tag("PaymentsToAcquireProductiveAssets"@), usd_tag("CapitalExpendituresIncurredButNotYetPaid"@)]);
    defs.push(first_match(StandardMetric::CapitalExpenditures, tags));
    // ─── Investing Cash Flow (42/42 — universal) ───
    let mut tags: Vec<TagSpec> = Vec::new();
    tags.push(TagSpec::gaap_usd("NetCashProvidedByUsedInInvestingActivities"));
    tags.push(TagSpec::gaap_usd("NetCashProvidedByUsedInInvestingActivitiesContinuingOperations"));
    assert(specs_view(tags@) =~= seq![usd_tag("NetCashProvidedByUsedInInvestingActivities"@), usd_tag("NetCashProvidedByUsedInInvestingActivitiesContinuingOperations"@)]);
    defs.push(first_match(StandardMetric::InvestingCashFlow, tags));
    // ─── Financing Cash Flow (42/42 — universal) ───
    let mut tags: Vec<TagSpec> = Vec::new();
    tags.push(TagSpec::gaap_usd("NetCashProvidedByUsedInFinancingActivities"));
    tags.push(TagSpec::gaap_usd("NetCashProvidedByUsedInFinancingActivitiesContinuingOperations"));
    assert(specs_view(tags@) =~= seq![usd_tag("NetCashProvidedByUsedInFinancingActivities"@), usd_tag("NetCashProvidedByUsedInFinancingActivitiesContinuingOperations"@)]);
    defs.push(first_match(StandardMetric::FinancingCashFlow, tags));
    // ─── Dividends Paid (21/42 use PaymentsOfDividends) ───
    let mut tags: Vec<TagSpec> = Vec::new();
    tags.push(TagSpec::gaap_usd("PaymentsOfDividendsCommonStock"));
    tags.push(TagSpec::gaap_usd("PaymentsOfDividends"));
    tags.push(TagSpec::gaap_usd("PaymentsOfOrdinaryDividends"));
    tags.push(TagSpec::gaap_usd("DividendsCommonStockCash"));
    tags.push(TagSpec::gaap_usd("Dividends"));
    tags.push(TagSpec::gaap_usd("DividendsCash"));
    assert(specs_view(tags@) =~= seq![usd_tag("PaymentsOfDividendsCommonStock"@), usd_tag("PaymentsOfDividends"@), usd_tag("PaymentsOfOrdinaryDividends"@), usd_tag("DividendsCommonStockCash"@), usd_tag("Dividends"@), usd_tag("DividendsCash"@)]);
    defs.push(first_match(StandardMetric::DividendsPaid, tags));
    // ─── Share Repurchases (41/42 use PaymentsForRepurchaseOfCommonStock) ───
    let mut tags: Vec<TagSpec> = Vec::new();
    tags.push(TagSpec::gaap_usd("PaymentsForRepurchaseOfCommonStock"));
    tags.push(TagSpec::gaap_usd("PaymentsForRepurchaseOfEquity"));
    assert(specs_view(tags@) =~= seq![usd_tag("PaymentsForRepurchaseOfCommonStock"@), usd_tag("PaymentsForRepurchaseOfEquity"@)]);
    defs.push(first_match(StandardMetric::ShareRepurchases, tags));
    // ─── Net Change in Cash (42/42 — universal) ───
    let mut tags: Vec<TagSpec> = Vec::new();
    tags.push(TagSpec::gaap_usd("CashCashEquivalentsRestrictedCashAndRestrictedCashEquivalentsPeriodIncreaseDecreaseIncludingExchangeRateEffect"));
    tags.push(TagSpec::gaap_usd("CashAndCashEquivalentsPeriodIncreaseDecrease"));
    tags.push(TagSpec::gaap_usd("CashCashEquivalentsRestrictedCashAndRestrictedCashEquivalentsPeriodIncreaseDecreaseExcludingExchangeRateEffect"));
    assert(specs_view(tags@) =~= seq![usd_tag("CashCashEquivalentsRestrictedCashAndRestrictedCashEquivalentsPeriodIncreaseDecreaseIncludingExchangeRateEffect"@), usd_tag("CashAndCashEquivalentsPeriodIncreaseDecrease"@), usd_tag("CashCashEquivalentsRestrictedCashAndRestrictedCashEquivalentsPeriodIncreaseDecreaseExcludingExchangeRateEffect"@)]);
    defs.push(first_match(StandardMetric::NetChangeInCash, tags));
    assert(defs_view(defs@) =~= cash_flow_definitions_spec());
    defs
}

} // verus!
