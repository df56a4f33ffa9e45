//! Metric definitions with XBRL tag fallback chains.
use vstd::prelude::*;

use crate::standardizer::catalog::MetricDefinition;
use crate::standardizer::catalog::DefinitionView;
use crate::standardizer::catalog::defs_view;
use crate::standardizer::catalog::first_match;
use crate::standardizer::catalog::first_match_view;
use crate::standardizer::catalog::usd_tag;
use crate::standardizer::output::StandardMetric;
use crate::standardizer::resolution::TagSpec;
use crate::standardizer::resolution::specs_view;

verus! {

/// The definitions that `definitions` returns, in order.
pub open spec fn insurance_definitions_spec() -> Seq<DefinitionView> {
    seq![
        first_match_view(StandardMetric::PremiumsEarned, seq![usd_tag("PremiumsEarnedNet"@), usd_tag("PremiumsWrittenNet"@), usd_tag("InsurancePremiumsRevenueRecognized"@)]),
    ]
}

/// Metric definitions with XBRL tag fallback chains.
pub fn definitions() -> (defs: Vec<MetricDefinition>)
    ensures
        defs_view(defs@) == insurance_definitions_spec(),
{
    let mut defs: Vec<MetricDefinition> = Vec::new();
    let mut tags: Vec<TagSpec> = Vec::new();
    tags.push(TagSpec::gaap_usd("PremiumsEarnedNet"));
    tags.push(TagSpec::gaap_usd("PremiumsWrittenNet"));
    tags.push(TagSpec::gaap_usd("InsurancePremiumsRevenueRecognized"));
    assert(specs_view(tags@) =~= seq![usd_tag("PremiumsEarnedNet"@), usd_tag("PremiumsWrittenNet"@), usd_tag("InsurancePremiumsRevenueRecognized"@)]);
    defs.push(first_match(StandardMetric::PremiumsEarned, tags));
    assert(defs_view(defs@) =~= insurance_definitions_spec());
    defs
}

} // verus!
