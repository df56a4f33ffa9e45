//! Extra metrics for banks, insurers and REITs, chosen by SIC code.
pub mod banks;
pub mod insurance;
pub mod reits;

use vstd::prelude::*;

use crate::standardizer::catalog::DefinitionView;
use crate::standardizer::catalog::MetricDefinition;
use crate::standardizer::catalog::defs_view;
use crate::standardizer::output::StandardMetric;
use crate::text::chars_of;
use crate::text::parse_u32;
use crate::text::parse_u32_spec;

verus! {

/// The SIC code as a number: what `str::parse::<u32>` reads, or 0.
pub open spec fn sic_number(sic: Seq<char>) -> u32 {
    match parse_u32_spec(sic) {
        Some(n) => n,
        None => 0,
    }
}

/// The sector definitions for a SIC code: banks (6000-6099), insurance
/// (6300-6411) and REITs (6500-6553 and 6798); none otherwise.
pub open spec fn sector_definitions_spec(sic: Option<Seq<char>>) -> Seq<DefinitionView> {
    match sic {
        None => Seq::empty(),
        Some(s) => {
            let n = sic_number(s);
            if 6000 <= n <= 6099 {
                banks::banks_definitions_spec()
            } else if 6300 <= n <= 6411 {
                insurance::insurance_definitions_spec()
            } else if (6500 <= n <= 6553) || n == 6798 {
                reits::reits_definitions_spec()
            } else {
                Seq::empty()
            }
        },
    }
}

/// Determine the sector from a SIC code and return relevant extra metrics.
pub fn sector_definitions(sic: Option<&str>) -> (defs: Vec<MetricDefinition>)
    ensures
        defs_view(defs@) == sector_definitions_spec(
            match sic {
                Some(s) => Some(s@),
                None => None,
            },
        ),
{
    let sic = match sic {
        Some(s) => s,
        None => {
            let v: Vec<MetricDefinition> = Vec::new();
            assert(defs_view(v@) =~= Seq::empty());
            return v;
        },
    };
    let sic_num: u32 = match parse_u32(&chars_of(sic)) {
        Some(n) => n,
        None => 0,
    };
    if 6000 <= sic_num && sic_num <= 6099 {
        // National & state commercial banks, savings institutions, credit unions
        banks::definitions()
    } else if 6300 <= sic_num && sic_num <= 6411 {
        // Insurance
        insurance::definitions()
    } else if (6500 <= sic_num && sic_num <= 6553) || sic_num == 6798 {
        // REITs
        reits::definitions()
    } else {
        let v: Vec<MetricDefinition> = Vec::new();
        assert(defs_view(v@) =~= Seq::empty());
        v
    }
}

/// The metrics of a sequence of definitions, in order.
pub open spec fn sector_metrics(defs: Seq<DefinitionView>) -> Seq<StandardMetric> {
    defs.map_values(|d: DefinitionView| d.metric)
}

/// Which sector metrics a company gets, by its SIC code: banks for
/// 6000-6099, insurers for 6300-6411, REITs for 6500-6553 and 6798; none
/// for any other code, an unreadable one, or none at all. Banks get net
/// interest income, provision for credit losses and non-interest income;
/// insurers premiums earned; REITs funds from operations, adjusted funds
/// from operations and net operating income.
pub proof fn lemma_sector_by_sic(sic: Seq<char>)
    ensures
        parse_u32_spec(sic) matches Some(n) && 6000 <= n <= 6099 ==> sector_definitions_spec(Some(sic))
            == banks::banks_definitions_spec(),
        parse_u32_spec(sic) matches Some(n) && 6300 <= n <= 6411 ==> sector_definitions_spec(Some(sic))
            == insurance::insurance_definitions_spec(),
        parse_u32_spec(sic) matches Some(n) && 6500 <= n <= 6553 ==> sector_definitions_spec(Some(sic))
            == reits::reits_definitions_spec(),
        parse_u32_spec(sic) == Some(6798u32) ==> sector_definitions_spec(Some(sic)) == reits::reits_definitions_spec(),
        !(parse_u32_spec(sic) matches Some(n) && ((6000 <= n <= 6099) || (6300 <= n <= 6411) || (6500 <= n
            <= 6553) || n == 6798)) ==> sector_definitions_spec(Some(sic)) == Seq::<DefinitionView>::empty(),
        sector_definitions_spec(None) == Seq::<DefinitionView>::empty(),
        sector_metrics(banks::banks_definitions_spec()) == seq![
            StandardMetric::NetInterestIncome,
            StandardMetric::ProvisionForCreditLosses,
            StandardMetric::NonInterestIncome,
        ],
        sector_metrics(insurance::insurance_definitions_spec()) == seq![StandardMetric::PremiumsEarned],
        sector_metrics(reits::reits_definitions_spec()) == seq![
            StandardMetric::FundsFromOperations,
            StandardMetric::AdjustedFundsFromOperations,
            StandardMetric::NetOperatingIncome,
        ],
{
    assert(sector_metrics(banks::banks_definitions_spec()) =~= seq![
        StandardMetric::NetInterestIncome,
        StandardMetric::ProvisionForCreditLosses,
        StandardMetric::NonInterestIncome,
    ]);
    assert(sector_metrics(insurance::insurance_definitions_spec()) =~= seq![StandardMetric::PremiumsEarned]);
    assert(sector_metrics(reits::reits_definitions_spec()) =~= seq![
        StandardMetric::FundsFromOperations,
        StandardMetric::AdjustedFundsFromOperations,
        StandardMetric::NetOperatingIncome,
    ]);
}

} // verus!
