//! Per-share metric definitions with XBRL tag fallback chains.
use vstd::prelude::*;

use crate::standardizer::catalog::MetricDefinition;
use crate::standardizer::catalog::DefinitionView;
use crate::standardizer::catalog::defs_view;
use crate::standardizer::catalog::first_match;
use crate::standardizer::catalog::first_match_view;
use crate::standardizer::catalog::dei_tag;
use crate::standardizer::catalog::per_share_tag;
use crate::standardizer::catalog::shares_tag;
use crate::standardizer::output::StandardMetric;
use crate::standardizer::resolution::TagSpec;
use crate::standardizer::resolution::specs_view;

verus! {

/// The definitions that `definitions` returns, in order.
pub open spec fn per_share_definitions_spec() -> Seq<DefinitionView> {
    seq![
        first_match_view(StandardMetric::EarningsPerShareBasic, seq![per_share_tag("EarningsPerShareBasic"@), per_share_tag("EarningsPerShareBasicAndDiluted"@), per_share_tag("IncomeLossFromContinuingOperationsPerBasicShare"@)]),
        first_match_view(StandardMetric::EarningsPerShareDiluted, seq![per_share_tag("EarningsPerShareDiluted"@), per_share_tag("EarningsPerShareBasicAndDiluted"@), per_share_tag("IncomeLossFromContinuingOperationsPerDilutedShare"@)]),
        first_match_view(StandardMetric::DividendsPerShare, seq![per_share_tag("CommonStockDividendsPerShareDeclared"@), per_share_tag("CommonStockDividendsPerShareCashPaid"@)]),
        first_match_view(StandardMetric::SharesOutstandingBasic, seq![shares_tag("WeightedAverageNumberOfSharesOutstandingBasic"@), shares_tag("CommonStockSharesOutstanding"@), shares_tag("WeightedAverageNumberOfShareOutstandingBasicAndDiluted"@), shares_tag("SharesOutstanding"@), dei_tag("EntityCommonStockSharesOutstanding"@)]),
        first_match_view(StandardMetric::SharesOutstandingDiluted, seq![shares_tag("WeightedAverageNumberOfDilutedSharesOutstanding"@), shares_tag("WeightedAverageNumberOfShareOutstandingBasicAndDiluted"@)]),
    ]
}

/// Per-share metric definitions with XBRL tag fallback chains.
///
/// Tag ordering is based on real-world usage across 42 major companies.
pub fn definitions() -> (defs: Vec<MetricDefinition>)
    ensures
        defs_view(defs@) == per_share_definitions_spec(),
{
    let mut defs: Vec<MetricDefinition> = Vec::new();
    // ─── EPS Basic (42/42 — universal) ───
    let mut tags: Vec<TagSpec> = Vec::new();
    tags.push(TagSpec::gaap_per_share("EarningsPerShareBasic"));
    tags.push(TagSpec::gaap_per_share("EarningsPerShareBasicAndDiluted"));
    tags.push(TagSpec::gaap_per_share("IncomeLossFromContinuingOperationsPerBasicShare"));
    assert(specs_view(tags@) =~= seq![per_share_tag("EarningsPerShareBasic"@), per_share_tag("EarningsPerShareBasicAndDiluted"@), per_share_tag("IncomeLossFromContinuingOperationsPerBasicShare"@)]);
    defs.push(first_match(StandardMetric::EarningsPerShareBasic, tags));
    // ─── EPS Diluted (42/42 — universal) ───
    let mut tags: Vec<TagSpec> = Vec::new();
    tags.push(TagSpec::gaap_per_share("EarningsPerShareDiluted"));
    tags.push(TagSpec::gaap_per_share("EarningsPerShareBasicAndDiluted"));
    tags.push(TagSpec::gaap_per_share("IncomeLossFromContinuingOperationsPerDilutedShare"));
    assert(specs_view(tags@) =~= seq![per_share_tag("EarningsPerShareDiluted"@), per_share_tag("EarningsPerShareBasicAndDiluted"@), per_share_tag("IncomeLossFromContinuingOperationsPerDilutedShare"@)]);
    defs.push(first_match(StandardMetric::EarningsPerShareDiluted, tags));
    // ─── Dividends Per Share (32/42 use CommonStockDividendsPerShareDeclared) ───
    let mut tags: Vec<TagSpec> = Vec::new();
    tags.push(TagSpec::gaap_per_share("CommonStockDividendsPerShareDeclared"));
    tags.push(TagSpec::gaap_per_share("CommonStockDividendsPerShareCashPaid"));
    assert(specs_view(tags@) =~= seq![per_share_tag("CommonStockDividendsPerShareDeclared"@), per_share_tag("CommonStockDividendsPerShareCashPaid"@)]);
    defs.push(first_match(StandardMetric::DividendsPerShare, tags));
    // ─── Shares Outstanding Basic (42/42 — universal) ───
    let mut tags: Vec<TagSpec> = Vec::new();
    tags.push(TagSpec::gaap_shares("WeightedAverageNumberOfSharesOutstandingBasic"));
    tags.push(TagSpec::gaap_shares("CommonStockSharesOutstanding"));
    tags.push(TagSpec::gaap_shares("WeightedAverageNumberOfShareOutstandingBasicAndDiluted"));
    tags.push(TagSpec::gaap_shares("SharesOutstanding"));
    tags.push(TagSpec::dei("EntityCommonStockSharesOutstanding"));
    assert(specs_view(tags@) =~= seq![shares_tag("WeightedAverageNumberOfSharesOutstandingBasic"@), shares_tag("CommonStockSharesOutstanding"@), shares_tag("WeightedAverageNumberOfShareOutstandingBasicAndDiluted"@), shares_tag("SharesOutstanding"@), dei_tag("EntityCommonStockSharesOutstanding"@)]);
    defs.push(first_match(StandardMetric::SharesOutstandingBasic, tags));
    // ─── Shares Outstanding Diluted (42/42 — universal) ───
    let mut tags: Vec<TagSpec> = Vec::new();
    tags.push(TagSpec::gaap_shares("WeightedAverageNumberOfDilutedSharesOutstanding"));
    tags.push(TagSpec::gaap_shares("WeightedAverageNumberOfShareOutstandingBasicAndDiluted"));
    assert(specs_view(tags@) =~= seq![shares_tag("WeightedAverageNumberOfDilutedSharesOutstanding"@), shares_tag("WeightedAverageNumberOfShareOutstandingBasicAndDiluted"@)]);
    defs.push(first_match(StandardMetric::SharesOutstandingDiluted, tags));
    assert(defs_view(defs@) =~= per_share_definitions_spec());
    defs
}

} // verus!
