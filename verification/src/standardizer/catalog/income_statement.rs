//! Income statement metric definitions with XBRL tag fallback chains.
use vstd::prelude::*;

use crate::standardizer::catalog::MetricDefinition;
use crate::standardizer::catalog::DefinitionView;
use crate::standardizer::catalog::defs_view;
use crate::standardizer::catalog::first_match;
use crate::standardizer::catalog::first_match_view;
use crate::standardizer::catalog::usd_tag;
use crate::standardizer::output::StandardMetric;
use crate::standardizer::resolution::TagSpec;
use crate::standardizer::resolution::specs_view;

verus! {

/// The definitions that `definitions` returns, in order.
pub open spec fn income_statement_definitions_spec() -> Seq<DefinitionView> {
    seq![
        first_match_view(StandardMetric::Revenue, seq![usd_tag("RevenueFromContractWithCustomerExcludingAssessedTax"@), usd_tag("RevenueFromContractWithCustomerIncludingAssessedTax"@), usd_tag("Revenues"@), usd_tag("SalesRevenueNet"@), usd_tag("SalesRevenueGoodsNet"@), usd_tag("SalesRevenueServicesNet"@), usd_tag("RegulatedAndUnregulatedOperatingRevenue"@), usd_tag("ElectricUtilityRevenue"@), usd_tag("RealEstateRevenueNet"@), usd_tag("InterestAndDividendIncomeOperating"@), usd_tag("HealthCareOrganizationRevenue"@), usd_tag("OilAndGasRevenue"@), usd_tag("FinancialServicesRevenue"@)]),
        first_match_view(StandardMetric::CostOfRevenue, seq![usd_tag("CostOfGoodsAndServicesSold"@), usd_tag("CostOfGoodsSold"@), usd_tag("CostOfRevenue"@), usd_tag("CostOfServices"@), usd_tag("CostOfGoodsAndServiceExcludingDepreciationDepletionAndAmortization"@)]),
        first_match_view(StandardMetric::GrossProfit, seq![usd_tag("GrossProfit"@)]),
        first_match_view(StandardMetric::ResearchAndDevelopment, seq![usd_tag("ResearchAndDevelopmentExpense"@), usd_tag("ResearchAndDevelopmentExpenseExcludingAcquiredInProcessCost"@), usd_tag("ResearchAndDevelopmentExpenseSoftwareExcludingAcquiredInProcessCost"@), usd_tag("OtherResearchAndDevelopmentExpense"@)]),
        first_match_view(StandardMetric::SellingGeneralAdmin, seq![usd_tag("SellingGeneralAndAdministrativeExpense"@), usd_tag("GeneralAndAdministrativeExpense"@), usd_tag("SellingAndMarketingExpense"@), usd_tag("OtherSellingGeneralAndAdministrativeExpense"@)]),
        first_match_view(StandardMetric::OperatingExpenses, seq![usd_tag("OperatingExpenses"@), usd_tag("CostsAndExpenses"@)]),
        first_match_view(StandardMetric::OperatingIncome, seq![usd_tag("OperatingIncomeLoss"@), usd_tag("IncomeLossFromContinuingOperationsBeforeIncomeTaxesMinorityInterestAndIncomeLossFromEquityMethodInvestments"@)]),
        first_match_view(StandardMetric::InterestExpense, seq![usd_tag("InterestExpense"@), usd_tag("InterestExpenseDebt"@), usd_tag("InterestExpenseNonoperating"@), usd_tag("InterestAndDebtExpense"@), usd_tag("InterestExpenseLongTermDebt"@), usd_tag("InterestPaidNet"@)]),
        first_match_view(StandardMetric::InterestIncome, seq![usd_tag("InterestIncomeExpenseNet"@), usd_tag("InvestmentIncomeInterest"@), usd_tag("InterestIncomeOther"@), usd_tag("InvestmentIncomeInterestAndDividend"@)]),
        first_match_view(StandardMetric::OtherNonOperatingIncome, seq![usd_tag("OtherNonoperatingIncomeExpense"@), usd_tag("NonoperatingIncomeExpense"@), usd_tag("OtherNonoperatingIncome"@), usd_tag("OtherOperatingIncomeExpenseNet"@), usd_tag("OtherIncome"@)]),
        first_match_view(StandardMetric::PretaxIncome, seq![usd_tag("IncomeLossFromContinuingOperationsBeforeIncomeTaxesExtraordinaryItemsNoncontrollingInterest"@), usd_tag("IncomeLossFromContinuingOperationsBeforeIncomeTaxesMinorityInterestAndIncomeLossFromEquityMethodInvestments"@), usd_tag("IncomeLossFromContinuingOperationsBeforeIncomeTaxesDomestic"@), usd_tag("IncomeLossFromContinuingOperationsBeforeIncomeTaxesForeign"@)]),
        first_match_view(StandardMetric::IncomeTaxExpense, seq![usd_tag("IncomeTaxExpenseBenefit"@), usd_tag("CurrentIncomeTaxExpenseBenefit"@)]),
        first_match_view(StandardMetric::NetIncome, seq![usd_tag("NetIncomeLoss"@), usd_tag("ProfitLoss"@), usd_tag("NetIncomeLossAvailableToCommonStockholdersBasic"@), usd_tag("IncomeLossFromContinuingOperations"@)]),
        first_match_view(StandardMetric::NetIncomeToCommon, seq![usd_tag("NetIncomeLossAvailableToCommonStockholdersBasic"@), usd_tag("NetIncomeLossAvailableToCommonStockholdersDiluted"@), usd_tag("NetIncomeLoss"@)]),
        first_match_view(StandardMetric::DepreciationAmortization, seq![usd_tag("DepreciationDepletionAndAmortization"@), usd_tag("DepreciationAndAmortization"@), usd_tag("Depreciation"@), usd_tag("DepreciationAmortizationAndAccretionNet"@), usd_tag("OtherDepreciationAndAmortization"@)]),
    ]
}

/// Income statement metric definitions with XBRL tag fallback chains.
///
/// Tag ordering is based on real-world usage across 42 major companies.
pub fn definitions() -> (defs: Vec<MetricDefinition>)
    ensures
        defs_view(defs@) == income_statement_definitions_spec(),
{
    let mut defs: Vec<MetricDefinition> = Vec::new();
    // ─── Revenue (36/42 use Revenues, 31/42 use RevenueFromContract...) ───
    let mut tags: Vec<TagSpec> = Vec::new();
    tags.push(TagSpec::gaap_usd("RevenueFromContractWithCustomerExcludingAssessedTax"));
    tags.push(TagSpec::gaap_usd("RevenueFromContractWithCustomerIncludingAssessedTax"));
    tags.push(TagSpec::gaap_usd("Revenues"));
    tags.push(TagSpec::gaap_usd("SalesRevenueNet"));
    tags.push(TagSpec::gaap_usd("SalesRevenueGoodsNet"));
    tags.push(TagSpec::gaap_usd("SalesRevenueServicesNet"));
    tags.push(TagSpec::gaap_usd("RegulatedAndUnregulatedOperatingRevenue"));
    tags.push(TagSpec::gaap_usd("ElectricUtilityRevenue"));
    tags.push(TagSpec::gaap_usd("RealEstateRevenueNet"));
    tags.push(TagSpec::gaap_usd("InterestAndDividendIncomeOperating"));
    tags.push(TagSpec::gaap_usd("HealthCareOrganizationRevenue"));
    tags.push(TagSpec::gaap_usd("OilAndGasRevenue"));
    tags.push(TagSpec::gaap_usd("FinancialServicesRevenue"));
    assert(specs_view(tags@) =~= seq![usd_tag("RevenueFromContractWithCustomerExcludingAssessedTax"@), usd_tag("RevenueFromContractWithCustomerIncludingAssessedTax"@), usd_tag("Revenues"@), usd_tag("SalesRevenueNet"@), usd_tag("SalesRevenueGoodsNet"@), usd_tag("SalesRevenueServicesNet"@), usd_tag("RegulatedAndUnregulatedOperatingRevenue"@), usd_tag("ElectricUtilityRevenue"@), usd_tag("RealEstateRevenueNet"@), usd_tag("InterestAndDividendIncomeOperating"@), usd_tag("HealthCareOrganizationRevenue"@), usd_tag("OilAndGasRevenue"@), usd_tag("FinancialServicesRevenue"@)]);
    defs.push(first_match(StandardMetric::Revenue, tags));
    // ─── Cost of Revenue (29/42 COGS, 20/42 CostOfRevenue) ───
    let mut tags: Vec<TagSpec> = Vec::new();
    tags.push(TagSpec::gaap_usd("CostOfGoodsAndServicesSold"));
    tags.push(TagSpec::gaap_usd("CostOfGoodsSold"));
    tags.push(TagSpec::gaap_usd("CostOfRevenue"));
    tags.push(TagSpec::gaap_usd("CostOfServices"));
    tags.push(TagSpec::gaap_usd("CostOfGoodsAndServiceExcludingDepreciationDepletionAndAmortization"));
    assert(specs_view(tags@) =~= seq![usd_tag("CostOfGoodsAndServicesSold"@), usd_tag("CostOfGoodsSold"@), usd_tag("CostOfRevenue"@), usd_tag("CostOfServices"@), usd_tag("CostOfGoodsAndServiceExcludingDepreciationDepletionAndAmortization"@)]);
    defs.push(first_match(StandardMetric::CostOfRevenue, tags));
    // ─── Gross Profit (31/42) ───
    let mut tags: Vec<TagSpec> = Vec::new();
    tags.push(TagSpec::gaap_usd("GrossProfit"));
    assert(specs_view(tags@) =~= seq![usd_tag("GrossProfit"@)]);
    defs.push(first_match(StandardMetric::GrossProfit, tags));
    // ─── R&D (34/42 use ResearchAndDevelopmentExpense) ───
    // NOTE: Amazon (~$100B+ "Technology and content") doesn't tag R&D
    // separately in the EDGAR XBRL API. No extension tags are exposed.
    let mut tags: Vec<TagSpec> = Vec::new();
    tags.push(TagSpec::gaap_usd("ResearchAndDevelopmentExpense"));
    tags.push(TagSpec::gaap_usd("ResearchAndDevelopmentExpenseExcludingAcquiredInProcessCost"));
    tags.push(TagSpec::gaap_usd("ResearchAndDevelopmentExpenseSoftwareExcludingAcquiredInProcessCost"));
    tags.push(TagSpec::gaap_usd("OtherResearchAndDevelopmentExpense"));
    assert(specs_view(tags@) =~= seq![usd_tag("ResearchAndDevelopmentExpense"@), usd_tag("ResearchAndDevelopmentExpenseExcludingAcquiredInProcessCost"@), usd_tag("ResearchAndDevelopmentExpenseSoftwareExcludingAcquiredInProcessCost"@), usd_tag("OtherResearchAndDevelopmentExpense"@)]);
    defs.push(first_match(StandardMetric::ResearchAndDevelopment, tags));
    // ─── SG&A (29/42 use combined, 13/42 G&A alone, 11/42 S&M alone) ───
    let mut tags: Vec<TagSpec> = Vec::new();
    tags.push(TagSpec::gaap_usd("SellingGeneralAndAdministrativeExpense"));
    tags.push(TagSpec::gaap_usd("GeneralAndAdministrativeExpense"));
    tags.push(TagSpec::gaap_usd("SellingAndMarketingExpense"));
    tags.push(TagSpec::gaap_usd("OtherSellingGeneralAndAdministrativeExpense"));
    assert(specs_view(tags@) =~= seq![usd_tag("SellingGeneralAndAdministrativeExpense"@), usd_tag("GeneralAndAdministrativeExpense"@), usd_tag("SellingAndMarketingExpense"@), usd_tag("OtherSellingGeneralAndAdministrativeExpense"@)]);
    defs.push(first_match(StandardMetric::SellingGeneralAdmin, tags));
    // ─── Operating Expenses ───
    let mut tags: Vec<TagSpec> = Vec::new();
    tags.push(TagSpec::gaap_usd("OperatingExpenses"));
    tags.push(TagSpec::gaap_usd("CostsAndExpenses"));
    assert(specs_view(tags@) =~= seq![usd_tag("OperatingExpenses"@), usd_tag("CostsAndExpenses"@)]);
    defs.push(first_match(StandardMetric::OperatingExpenses, tags));
    // ─── Operating Income (37/42) ───
    let mut tags: Vec<TagSpec> = Vec::new();
    tags.push(TagSpec::gaap_usd("OperatingIncomeLoss"));
    tags.push(TagSpec::gaap_usd("IncomeLossFromContinuingOperationsBeforeIncomeTaxesMinorityInterestAndIncomeLossFromEquityMethodInvestments"));
    assert(specs_view(tags@) =~= seq![usd_tag("OperatingIncomeLoss"@), usd_tag("IncomeLossFromContinuingOperationsBeforeIncomeTaxesMinorityInterestAndIncomeLossFromEquityMethodInvestments"@)]);
    defs.push(first_match(StandardMetric::OperatingIncome, tags));
    // ─── Interest Expense (35/42) ───
    let mut tags: Vec<TagSpec> = Vec::new();
    tags.push(TagSpec::gaap_usd("InterestExpense"));
    tags.push(TagSpec::gaap_usd("InterestExpenseDebt"));
    tags.push(TagSpec::gaap_usd("InterestExpenseNonoperating"));
    tags.push(TagSpec::gaap_usd("InterestAndDebtExpense"));
    tags.push(TagSpec::gaap_usd("InterestExpenseLongTermDebt"));
    tags.push(TagSpec::gaap_usd("InterestPaidNet"));
    assert(specs_view(tags@) =~= seq![usd_tag("InterestExpense"@), usd_tag("InterestExpenseDebt"@), usd_tag("InterestExpenseNonoperating"@), usd_tag("InterestAndDebtExpense"@), usd_tag("InterestExpenseLongTermDebt"@), usd_tag("InterestPaidNet"@)]);
    defs.push(first_match(StandardMetric::InterestExpense, tags));
    // ─── Interest Income ───
    let mut tags: Vec<TagSpec> = Vec::new();
    tags.push(TagSpec::gaap_usd("InterestIncomeExpenseNet"));
    tags.push(TagSpec::gaap_usd("InvestmentIncomeInterest"));
    tags.push(TagSpec::gaap_usd("InterestIncomeOther"));
    tags.push(TagSpec::gaap_usd("InvestmentIncomeInterestAndDividend"));
    assert(specs_view(tags@) =~= seq![usd_tag("InterestIncomeExpenseNet"@), usd_tag("InvestmentIncomeInterest"@), usd_tag("InterestIncomeOther"@), usd_tag("InvestmentIncomeInterestAndDividend"@)]);
    defs.push(first_match(StandardMetric::InterestIncome, tags));
    // ─── Other Non-Operating Income (36/42) ───
    let mut tags: Vec<TagSpec> = Vec::new();
    tags.push(TagSpec::gaap_usd("OtherNonoperatingIncomeExpense"));
    tags.push(TagSpec::gaap_usd("NonoperatingIncomeExpense"));
    tags.push(TagSpec::gaap_usd("OtherNonoperatingIncome"));
    tags.push(TagSpec::gaap_usd("OtherOperatingIncomeExpenseNet"));
    tags.push(TagSpec::gaap_usd("OtherIncome"));
    assert(specs_view(tags@) =~= seq![usd_tag("OtherNonoperatingIncomeExpense"@), usd_tag("NonoperatingIncomeExpense"@), usd_tag("OtherNonoperatingIncome"@), usd_tag("OtherOperatingIncomeExpenseNet"@), usd_tag("OtherIncome"@)]);
    defs.push(first_match(StandardMetric::OtherNonOperatingIncome, tags));
    // ─── Pre-Tax Income ───
    let mut tags: Vec<TagSpec> = Vec::new();
    tags.push(TagSpec::gaap_usd("IncomeLossFromContinuingOperationsBeforeIncomeTaxesExtraordinaryItemsNoncontrollingInterest"));
    tags.push(TagSpec::gaap_usd("IncomeLossFromContinuingOperationsBeforeIncomeTaxesMinorityInterestAndIncomeLossFromEquityMethodInvestments"));
    tags.push(TagSpec::gaap_usd("IncomeLossFromContinuingOperationsBeforeIncomeTaxesDomestic"));
    tags.push(TagSpec::gaap_usd("IncomeLossFromContinuingOperationsBeforeIncomeTaxesForeign"));
    assert(specs_view(tags@) =~= seq![usd_tag("IncomeLossFromContinuingOperationsBeforeIncomeTaxesExtraordinaryItemsNoncontrollingInterest"@), usd_tag("IncomeLossFromContinuingOperationsBeforeIncomeTaxesMinorityInterestAndIncomeLossFromEquityMethodInvestments"@), usd_tag("IncomeLossFromContinuingOperationsBeforeIncomeTaxesDomestic"@), usd_tag("IncomeLossFromContinuingOperationsBeforeIncomeTaxesForeign"@)]);
    defs.push(first_match(StandardMetric::PretaxIncome, tags));
    // ─── Income Tax Expense ───
    let mut tags: Vec<TagSpec> = Vec::new();
    tags.push(TagSpec::gaap_usd("IncomeTaxExpenseBenefit"));
    tags.push(TagSpec::gaap_usd("CurrentIncomeTaxExpenseBenefit"));
    assert(specs_view(tags@) =~= seq![usd_tag("IncomeTaxExpenseBenefit"@), usd_tag("CurrentIncomeTaxExpenseBenefit"@)]);
    defs.push(first_match(StandardMetric::IncomeTaxExpense, tags));
    // ─── Net Income (42/42 — universal!) ───
    let mut tags: Vec<TagSpec> = Vec::new();
    tags.push(TagSpec::gaap_usd("NetIncomeLoss"));
    tags.push(TagSpec::gaap_usd("ProfitLoss"));
    tags.push(TagSpec::gaap_usd("NetIncomeLossAvailableToCommonStockholdersBasic"));
    tags.push(TagSpec::gaap_usd("IncomeLossFromContinuingOperations"));
    assert(specs_view(tags@) =~= seq![usd_tag("NetIncomeLoss"@), usd_tag("ProfitLoss"@), usd_tag("NetIncomeLossAvailableToCommonStockholdersBasic"@), usd_tag("IncomeLossFromContinuingOperations"@)]);
    defs.push(first_match(StandardMetric::NetIncome, tags));
    // ─── Net Income to Common (22/42) ───
    let mut tags: Vec<TagSpec> = Vec::new();
    tags.push(TagSpec::gaap_usd("NetIncomeLossAvailableToCommonStockholdersBasic"));
    tags.push(TagSpec::gaap_usd("NetIncomeLossAvailableToCommonStockholdersDiluted"));
    tags.push(TagSpec::gaap_usd("NetIncomeLoss"));
    assert(specs_view(tags@) =~= seq![usd_tag("NetIncomeLossAvailableToCommonStockholdersBasic"@), usd_tag("NetIncomeLossAvailableToCommonStockholdersDiluted"@), usd_tag("NetIncomeLoss"@)]);
    defs.push(first_match(StandardMetric::NetIncomeToCommon, tags));
    // ─── D&A (32/42 DDA, 17/42 DA, 33/42 Depreciation alone) ───
    let mut tags: Vec<TagSpec> = Vec::new();
    tags.push(TagSpec::gaap_usd("DepreciationDepletionAndAmortization"));
    tags.push(TagSpec::gaap_usd("DepreciationAndAmortization"));
    tags.push(TagSpec::gaap_usd("Depreciation"));
    tags.push(TagSpec::gaap_usd("DepreciationAmortizationAndAccretionNet"));
    tags.push(TagSpec::gaap_usd("OtherDepreciationAndAmortization"));
    assert(specs_view(tags@) =~= seq![usd_tag("DepreciationDepletionAndAmortization"@), usd_tag("DepreciationAndAmortization"@), usd_tag("Depreciation"@), usd_tag("DepreciationAmortizationAndAccretionNet"@), usd_tag("OtherDepreciationAndAmortization"@)]);
    defs.push(first_match(StandardMetric::DepreciationAmortization, tags));
    assert(defs_view(defs@) =~= income_statement_definitions_spec());
    defs
}

} // verus!
