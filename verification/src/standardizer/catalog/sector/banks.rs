//! Metric definitions with XBRL tag fallback chains.
use vstd::prelude::*;

use crate::standardizer::catalog::MetricDefinition;
use crate::standardizer::catalog::DefinitionView;
use crate::standardizer::catalog::defs_view;
use crate::standardizer::catalog::first_match;
use crate::standardizer::catalog::first_match_view;
use crate::standardizer::catalog::usd_tag;
use crate::standardizer::output::StandardMetric;
use crate::standardizer::resolution::TagSpec;
use crate::standardizer::resolution::specs_view;

verus! {

/// The definitions that `definitions` returns, in order.
pub open spec fn banks_definitions_spec() -> Seq<DefinitionView> {
    seq![
        first_match_view(StandardMetric::NetInterestIncome, seq![usd_tag("InterestIncomeExpenseNet"@), usd_tag("NetInterestIncome"@), usd_tag("InterestIncomeExpenseAfterProvisionForLoanLoss"@)]),
        first_match_view(StandardMetric::ProvisionForCreditLosses, seq![usd_tag("ProvisionForLoanLeaseAndOtherLosses"@), usd_tag("ProvisionForLoanAndLeaseLosses"@), usd_tag("ProvisionForCreditLosses"@)]),
        first_match_view(StandardMetric::NonInterestIncome, seq![usd_tag("NoninterestIncome"@), usd_tag("RevenueFromContractWithCustomerExcludingAssessedTax"@)]),
    ]
}

/// Metric definitions with XBRL tag fallback chains.
pub fn definitions() -> (defs: Vec<MetricDefinition>)
    ensures
        defs_view(defs@) == banks_definitions_spec(),
{
    let mut defs: Vec<MetricDefinition> = Vec::new();
    let mut tags: Vec<TagSpec> = Vec::new();
    tags.push(TagSpec::gaap_usd("InterestIncomeExpenseNet"));
    tags.push(TagSpec::gaap_usd("NetInterestIncome"));
    tags.push(TagSpec::gaap_usd("InterestIncomeExpenseAfterProvisionForLoanLoss"));
    assert(specs_view(tags@) =~= seq![usd_tag("InterestIncomeExpenseNet"@), usd_tag("NetInterestIncome"@), usd_tag("InterestIncomeExpenseAfterProvisionForLoanLoss"@)]);
    defs.push(first_match(StandardMetric::NetInterestIncome, tags));
    let mut tags: Vec<TagSpec> = Vec::new();
    tags.push(TagSpec::gaap_usd("ProvisionForLoanLeaseAndOtherLosses"));
    tags.push(TagSpec::gaap_usd("ProvisionForLoanAndLeaseLosses"));
    tags.push(TagSpec::gaap_usd("ProvisionForCreditLosses"));
    assert(specs_view(tags@) =~= seq![usd_tag("ProvisionForLoanLeaseAndOtherLosses"@), usd_tag("ProvisionForLoanAndLeaseLosses"@), usd_tag("ProvisionForCreditLosses"@)]);
    defs.push(first_match(StandardMetric::ProvisionForCreditLosses, tags));
    let mut tags: Vec<TagSpec> = Vec::new();
    tags.push(TagSpec::gaap_usd("NoninterestIncome"));
    tags.push(TagSpec::gaap_usd("RevenueFromContractWithCustomerExcludingAssessedTax"));
    assert(specs_view(tags@) =~= seq![usd_tag("NoninterestIncome"@), usd_tag("RevenueFromContractWithCustomerExcludingAssessedTax"@)]);
    defs.push(first_match(StandardMetric::NonInterestIncome, tags));
    assert(defs_view(defs@) =~= banks_definitions_spec());
    defs
}

} // verus!
