//! Metric definitions with XBRL tag fallback chains.
use vstd::prelude::*;

use crate::standardizer::catalog::MetricDefinition;
use crate::standardizer::catalog::DefinitionView;
use crate::standardizer::catalog::defs_view;
use crate::standardizer::catalog::first_match;
use crate::standardizer::catalog::first_match_view;
use crate::standardizer::catalog::usd_tag;
use crate::standardizer::output::StandardMetric;
use crate::standardizer::resolution::TagSpec;
use crate::standardizer::resolution::specs_view;

verus! {

/// The definitions that `definitions` returns, in order.
pub open spec fn reits_definitions_spec() -> Seq<DefinitionView> {
    seq![
        first_match_view(StandardMetric::FundsFromOperations, seq![usd_tag("FundsFromOperations"@), usd_tag("FFOPerShareDiluted"@)]),
        first_match_view(StandardMetric::AdjustedFundsFromOperations, seq![usd_tag("AdjustedFundsFromOperations"@)]),
        first_match_view(StandardMetric::NetOperatingIncome, seq![usd_tag("RealEstateRevenueNet"@), usd_tag("OperatingIncomeLoss"@)]),
    ]
}

/// Metric definitions with XBRL tag fallback chains.
pub fn definitions() -> (defs: Vec<MetricDefinition>)
    ensures
        defs_view(defs@) == reits_definitions_spec(),
{
    let mut defs: Vec<MetricDefinition> = Vec::new();
    let mut tags: Vec<TagSpec> = Vec::new();
    tags.push(TagSpec::gaap_usd("FundsFromOperations"));
    tags.push(TagSpec::gaap_usd("FFOPerShareDiluted"));
    assert(specs_view(tags@) =~= seq![usd_tag("FundsFromOperations"@), usd_tag("FFOPerShareDiluted"@)]);
    defs.push(first_match(StandardMetric::FundsFromOperations, tags));
    let mut tags: Vec<TagSpec> = Vec::new();
    tags.push(TagSpec::gaap_usd("AdjustedFundsFromOperations"));
    assert(specs_view(tags@) =~= seq![usd_tag("AdjustedFundsFromOperations"@)]);
    defs.push(first_match(StandardMetric::AdjustedFundsFromOperations, tags));
    let mut tags: Vec<TagSpec> = Vec::new();
    tags.push(TagSpec::gaap_usd("RealEstateRevenueNet"));
    tags.push(TagSpec::gaap_usd("OperatingIncomeLoss"));
    assert(specs_view(tags@) =~= seq![usd_tag("RealEstateRevenueNet"@), usd_tag("OperatingIncomeLoss"@)]);
    defs.push(first_match(StandardMetric::NetOperatingIncome, tags));
    assert(defs_view(defs@) =~= reits_definitions_spec());
    defs
}

} // verus!
