//! Balance sheet metric definitions with XBRL tag fallback chains.
use vstd::prelude::*;

use crate::standardizer::catalog::MetricDefinition;
use crate::standardizer::catalog::DefinitionView;
use crate::standardizer::catalog::defs_view;
use crate::standardizer::catalog::first_match;
use crate::standardizer::catalog::first_match_view;
use crate::standardizer::catalog::usd_tag;
use crate::standardizer::output::StandardMetric;
use crate::standardizer::resolution::TagSpec;
use crate::standardizer::resolution::specs_view;

verus! {

/// The definitions that `definitions` returns, in order.
pub open spec fn balance_sheet_definitions_spec() -> Seq<DefinitionView> {
    seq![
        first_match_view(StandardMetric::CashAndEquivalents, seq![usd_tag("CashAndCashEquivalentsAtCarryingValue"@), usd_tag("CashCashEquivalentsRestrictedCashAndRestrictedCashEquivalents"@), usd_tag("CashCashEquivalentsAndShortTermInvestments"@), usd_tag("Cash"@), usd_tag("CashEquivalentsAtCarryingValue"@)]),
        first_match_view(StandardMetric::ShortTermInvestments, seq![usd_tag("ShortTermInvestments"@), usd_tag("MarketableSecuritiesCurrent"@), usd_tag("AvailableForSaleSecuritiesDebtSecuritiesCurrent"@)]),
        first_match_view(StandardMetric::CashAndShortTermInvestments, seq![usd_tag("CashCashEquivalentsAndShortTermInvestments"@), usd_tag("CashAndCashEquivalentsAtCarryingValue"@)]),
        first_match_view(StandardMetric::AccountsReceivable, seq![usd_tag("AccountsReceivableNetCurrent"@), usd_tag("ReceivablesNetCurrent"@), usd_tag("AccountsReceivableNet"@), usd_tag("AccountsAndOtherReceivablesNetCurrent"@), usd_tag("AccountsNotesAndLoansReceivableNetCurrent"@)]),
        first_match_view(StandardMetric::Inventory, seq![usd_tag("InventoryNet"@), usd_tag("InventoryFinishedGoods"@), usd_tag("InventoryFinishedGoodsNetOfReserves"@), usd_tag("InventoryNetOfAllowancesCustomerAdvancesAndProgressBillings"@), usd_tag("InventoryGross"@)]),
        first_match_view(StandardMetric::OtherCurrentAssets, seq![usd_tag("OtherAssetsCurrent"@), usd_tag("PrepaidExpenseAndOtherAssetsCurrent"@), usd_tag("PrepaidExpenseCurrent"@)]),
        first_match_view(StandardMetric::TotalCurrentAssets, seq![usd_tag("AssetsCurrent"@)]),
        first_match_view(StandardMetric::PropertyPlantEquipment, seq![usd_tag("PropertyPlantAndEquipmentNet"@), usd_tag("PropertyPlantAndEquipmentAndFinanceLeaseRightOfUseAssetAfterAccumulatedDepreciationAndAmortization"@), usd_tag("PropertyPlantAndEquipmentGross"@)]),
        first_match_view(StandardMetric::Goodwill, seq![usd_tag("Goodwill"@), usd_tag("GoodwillAndIntangibleAssetsNet"@)]),
        first_match_view(StandardMetric::IntangibleAssets, seq![usd_tag("IntangibleAssetsNetExcludingGoodwill"@), usd_tag("FiniteLivedIntangibleAssetsNet"@), usd_tag("IndefiniteLivedIntangibleAssetsExcludingGoodwill"@)]),
        first_match_view(StandardMetric::OtherNonCurrentAssets, seq![usd_tag("OtherAssetsNoncurrent"@), usd_tag("OtherAssets"@)]),
        first_match_view(StandardMetric::TotalAssets, seq![usd_tag("Assets"@)]),
        first_match_view(StandardMetric::AccountsPayable, seq![usd_tag("AccountsPayableCurrent"@), usd_tag("AccountsPayableAndAccruedLiabilitiesCurrent"@), usd_tag("AccountsPayableTradeCurrent"@), usd_tag("AccountsPayableAndOtherAccruedLiabilitiesCurrent"@), usd_tag("AccountsPayableCurrentAndNoncurrent"@)]),
        first_match_view(StandardMetric::ShortTermDebt, seq![usd_tag("ShortTermBorrowings"@), usd_tag("CommercialPaper"@), usd_tag("ShortTermDebt"@)]),
        first_match_view(StandardMetric::CurrentPortionLongTermDebt, seq![usd_tag("LongTermDebtCurrent"@), usd_tag("LongTermDebtAndCapitalLeaseObligationsCurrent"@)]),
        first_match_view(StandardMetric::OtherCurrentLiabilities, seq![usd_tag("OtherLiabilitiesCurrent"@), usd_tag("AccruedLiabilitiesCurrent"@), usd_tag("EmployeeRelatedLiabilitiesCurrent"@)]),
        first_match_view(StandardMetric::TotalCurrentLiabilities, seq![usd_tag("LiabilitiesCurrent"@)]),
        first_match_view(StandardMetric::LongTermDebt, seq![usd_tag("LongTermDebtNoncurrent"@), usd_tag("LongTermDebt"@), usd_tag("LongTermDebtAndCapitalLeaseObligations"@), usd_tag("OtherLongTermDebt"@)]),
        first_match_view(StandardMetric::OtherNonCurrentLiabilities, seq![usd_tag("OtherLiabilitiesNoncurrent"@), usd_tag("OtherLiabilities"@)]),
        first_match_view(StandardMetric::TotalLiabilities, seq![usd_tag("Liabilities"@), usd_tag("LiabilitiesAndStockholdersEquity"@)]),
        first_match_view(StandardMetric::CommonStock, seq![usd_tag("CommonStockValue"@), usd_tag("CommonStocksIncludingAdditionalPaidInCapital"@)]),
        first_match_view(StandardMetric::RetainedEarnings, seq![usd_tag("RetainedEarningsAccumulatedDeficit"@)]),
        first_match_view(StandardMetric::AccumulatedOtherComprehensiveIncome, seq![usd_tag("AccumulatedOtherComprehensiveIncomeLossNetOfTax"@)]),
        first_match_view(StandardMetric::TotalStockholdersEquity, seq![usd_tag("StockholdersEquity"@), usd_tag("StockholdersEquityIncludingPortionAttributableToNoncontrollingInterest"@)]),
        first_match_view(StandardMetric::TotalLiabilitiesAndEquity, seq![usd_tag("LiabilitiesAndStockholdersEquity"@)]),
    ]
}

/// Balance sheet metric definitions with XBRL tag fallback chains.
///
/// Tag ordering is based on real-world usage across 42 major companies.
pub fn definitions() -> (defs: Vec<MetricDefinition>)
    ensures
        defs_view(defs@) == balance_sheet_definitions_spec(),
{
    let mut defs: Vec<MetricDefinition> = Vec::new();
    // ─── Cash & Equivalents (42/42 use CashAndCashEquivalentsAtCarryingValue) ───
    let mut tags: Vec<TagSpec> = Vec::new();
    tags.push(TagSpec::gaap_usd("CashAndCashEquivalentsAtCarryingValue"));
    tags.push(TagSpec::gaap_usd("CashCashEquivalentsRestrictedCashAndRestrictedCashEquivalents"));
    tags.push(TagSpec::gaap_usd("CashCashEquivalentsAndShortTermInvestments"));
    tags.push(TagSpec::gaap_usd("Cash"));
    tags.push(TagSpec::gaap_usd("CashEquivalentsAtCarryingValue"));
    assert(specs_view(tags@) =~= seq![usd_tag("CashAndCashEquivalentsAtCarryingValue"@), usd_tag("CashCashEquivalentsRestrictedCashAndRestrictedCashEquivalents"@), usd_tag("CashCashEquivalentsAndShortTermInvestments"@), usd_tag("Cash"@), usd_tag("CashEquivalentsAtCarryingValue"@)]);
    defs.push(first_match(StandardMetric::CashAndEquivalents, tags));
    // ─── Short-Term Investments ───
    let mut tags: Vec<TagSpec> = Vec::new();
    tags.push(TagSpec::gaap_usd("ShortTermInvestments"));
    tags.push(TagSpec::gaap_usd("MarketableSecuritiesCurrent"));
    tags.push(TagSpec::gaap_usd("AvailableForSaleSecuritiesDebtSecuritiesCurrent"));
    assert(specs_view(tags@) =~= seq![usd_tag("ShortTermInvestments"@), usd_tag("MarketableSecuritiesCurrent"@), usd_tag("AvailableForSaleSecuritiesDebtSecuritiesCurrent"@)]);
    defs.push(first_match(StandardMetric::ShortTermInvestments, tags));
    // ─── Cash & Short-Term Investments ───
    let mut tags: Vec<TagSpec> = Vec::new();
    tags.push(TagSpec::gaap_usd("CashCashEquivalentsAndShortTermInvestments"));
    tags.push(TagSpec::gaap_usd("CashAndCashEquivalentsAtCarryingValue"));
    assert(specs_view(tags@) =~= seq![usd_tag("CashCashEquivalentsAndShortTermInvestments"@), usd_tag("CashAndCashEquivalentsAtCarryingValue"@)]);
    defs.push(first_match(StandardMetric::CashAndShortTermInvestments, tags));
    // ─── Accounts Receivable (36/42 use AccountsReceivableNetCurrent) ───
    let mut tags: Vec<TagSpec> = Vec::new();
    tags.push(TagSpec::gaap_usd("AccountsReceivableNetCurrent"));
    tags.push(TagSpec::gaap_usd("ReceivablesNetCurrent"));
    tags.push(TagSpec::gaap_usd("AccountsReceivableNet"));
    tags.push(TagSpec::gaap_usd("AccountsAndOtherReceivablesNetCurrent"));
    tags.push(TagSpec::gaap_usd("AccountsNotesAndLoansReceivableNetCurrent"));
    assert(specs_view(tags@) =~= seq![usd_tag("AccountsReceivableNetCurrent"@), usd_tag("ReceivablesNetCurrent"@), usd_tag("AccountsReceivableNet"@), usd_tag("AccountsAndOtherReceivablesNetCurrent"@), usd_tag("AccountsNotesAndLoansReceivableNetCurrent"@)]);
    defs.push(first_match(StandardMetric::AccountsReceivable, tags));
    // ─── Inventory (35/42 use InventoryNet) ───
    let mut tags: Vec<TagSpec> = Vec::new();
    tags.push(TagSpec::gaap_usd("InventoryNet"));
    tags.push(TagSpec::gaap_usd("InventoryFinishedGoods"));
    tags.push(TagSpec::gaap_usd("InventoryFinishedGoodsNetOfReserves"));
    tags.push(TagSpec::gaap_usd("InventoryNetOfAllowancesCustomerAdvancesAndProgressBillings"));
    tags.push(TagSpec::gaap_usd("InventoryGross"));
    assert(specs_view(tags@) =~= seq![usd_tag("InventoryNet"@), usd_tag("InventoryFinishedGoods"@), usd_tag("InventoryFinishedGoodsNetOfReserves"@), usd_tag("InventoryNetOfAllowancesCustomerAdvancesAndProgressBillings"@), usd_tag("InventoryGross"@)]);
    defs.push(first_match(StandardMetric::Inventory, tags));
    // ─── Other Current Assets ───
    let mut tags: Vec<TagSpec> = Vec::new();
    tags.push(TagSpec::gaap_usd("OtherAssetsCurrent"));
    tags.push(TagSpec::gaap_usd("PrepaidExpenseAndOtherAssetsCurrent"));
    tags.push(TagSpec::gaap_usd("PrepaidExpenseCurrent"));
    assert(specs_view(tags@) =~= seq![usd_tag("OtherAssetsCurrent"@), usd_tag("PrepaidExpenseAndOtherAssetsCurrent"@), usd_tag("PrepaidExpenseCurrent"@)]);
    defs.push(first_match(StandardMetric::OtherCurrentAssets, tags));
    // ─── Total Current Assets (42/42 — universal) ───
    let mut tags: Vec<TagSpec> = Vec::new();
    tags.push(TagSpec::gaap_usd("AssetsCurrent"));
    assert(specs_view(tags@) =~= seq![usd_tag("AssetsCurrent"@)]);
    defs.push(first_match(StandardMetric::TotalCurrentAssets, tags));
    // ─── PP&E ───
    let mut tags: Vec<TagSpec> = Vec::new();
    tags.push(TagSpec::gaap_usd("PropertyPlantAndEquipmentNet"));
    tags.push(TagSpec::gaap_usd("PropertyPlantAndEquipmentAndFinanceLeaseRightOfUseAssetAfterAccumulatedDepreciationAndAmortization"));
    tags.push(TagSpec::gaap_usd("PropertyPlantAndEquipmentGross"));
    assert(specs_view(tags@) =~= seq![usd_tag("PropertyPlantAndEquipmentNet"@), usd_tag("PropertyPlantAndEquipmentAndFinanceLeaseRightOfUseAssetAfterAccumulatedDepreciationAndAmortization"@), usd_tag("PropertyPlantAndEquipmentGross"@)]);
    defs.push(first_match(StandardMetric::PropertyPlantEquipment, tags));
    // ─── Goodwill ───
    let mut tags: Vec<TagSpec> = Vec::new();
    tags.push(TagSpec::gaap_usd("Goodwill"));
    tags.push(TagSpec::gaap_usd("GoodwillAndIntangibleAssetsNet"));
    assert(specs_view(tags@) =~= seq![usd_tag("Goodwill"@), usd_tag("GoodwillAndIntangibleAssetsNet"@)]);
    defs.push(first_match(StandardMetric::Goodwill, tags));
    // ─── Intangible Assets ───
    let mut tags: Vec<TagSpec> = Vec::new();
    tags.push(TagSpec::gaap_usd("IntangibleAssetsNetExcludingGoodwill"));
    tags.push(TagSpec::gaap_usd("FiniteLivedIntangibleAssetsNet"));
    tags.push(TagSpec::gaap_usd("IndefiniteLivedIntangibleAssetsExcludingGoodwill"));
    assert(specs_view(tags@) =~= seq![usd_tag("IntangibleAssetsNetExcludingGoodwill"@), usd_tag("FiniteLivedIntangibleAssetsNet"@), usd_tag("IndefiniteLivedIntangibleAssetsExcludingGoodwill"@)]);
    defs.push(first_match(StandardMetric::IntangibleAssets, tags));
    // ─── Other Non-Current Assets (42/42 use OtherAssetsNoncurrent) ───
    let mut tags: Vec<TagSpec> = Vec::new();
    tags.push(TagSpec::gaap_usd("OtherAssetsNoncurrent"));
    tags.push(TagSpec::gaap_usd("OtherAssets"));
    assert(specs_view(tags@) =~= seq![usd_tag("OtherAssetsNoncurrent"@), usd_tag("OtherAssets"@)]);
    defs.push(first_match(StandardMetric::OtherNonCurrentAssets, tags));
    // ─── Total Assets (42/42 — universal) ───
    let mut tags: Vec<TagSpec> = Vec::new();
    tags.push(TagSpec::gaap_usd("Assets"));
    assert(specs_view(tags@) =~= seq![usd_tag("Assets"@)]);
    defs.push(first_match(StandardMetric::TotalAssets, tags));
    // ─── Accounts Payable (40/42 use AccountsPayableCurrent) ───
    let mut tags: Vec<TagSpec> = Vec::new();
    tags.push(TagSpec::gaap_usd("AccountsPayableCurrent"));
    tags.push(TagSpec::gaap_usd("AccountsPayableAndAccruedLiabilitiesCurrent"));
    tags.push(TagSpec::gaap_usd("AccountsPayableTradeCurrent"));
    tags.push(TagSpec::gaap_usd("AccountsPayableAndOtherAccruedLiabilitiesCurrent"));
    tags.push(TagSpec::gaap_usd("AccountsPayableCurrentAndNoncurrent"));
    assert(specs_view(tags@) =~= seq![usd_tag("AccountsPayableCurrent"@), usd_tag("AccountsPayableAndAccruedLiabilitiesCurrent"@), usd_tag("AccountsPayableTradeCurrent"@), usd_tag("AccountsPayableAndOtherAccruedLiabilitiesCurrent"@), usd_tag("AccountsPayableCurrentAndNoncurrent"@)]);
    defs.push(first_match(StandardMetric::AccountsPayable, tags));
    // ─── Short-Term Debt ───
    let mut tags: Vec<TagSpec> = Vec::new();
    tags.push(TagSpec::gaap_usd("ShortTermBorrowings"));
    tags.push(TagSpec::gaap_usd("CommercialPaper"));
    tags.push(TagSpec::gaap_usd("ShortTermDebt"));
    assert(specs_view(tags@) =~= seq![usd_tag("ShortTermBorrowings"@), usd_tag("CommercialPaper"@), usd_tag("ShortTermDebt"@)]);
    defs.push(first_match(StandardMetric::ShortTermDebt, tags));
    // ─── Current Portion of Long-Term Debt (30/42 use LongTermDebtCurrent) ───
    let mut tags: Vec<TagSpec> = Vec::new();
    tags.push(TagSpec::gaap_usd("LongTermDebtCurrent"));
    tags.push(TagSpec::gaap_usd("LongTermDebtAndCapitalLeaseObligationsCurrent"));
    assert(specs_view(tags@) =~= seq![usd_tag("LongTermDebtCurrent"@), usd_tag("LongTermDebtAndCapitalLeaseObligationsCurrent"@)]);
    defs.push(first_match(StandardMetric::CurrentPortionLongTermDebt, tags));
    // ─── Other Current Liabilities ───
    let mut tags: Vec<TagSpec> = Vec::new();
    tags.push(TagSpec::gaap_usd("OtherLiabilitiesCurrent"));
    tags.push(TagSpec::gaap_usd("AccruedLiabilitiesCurrent"));
    tags.push(TagSpec::gaap_usd("EmployeeRelatedLiabilitiesCurrent"));
    assert(specs_view(tags@) =~= seq![usd_tag("OtherLiabilitiesCurrent"@), usd_tag("AccruedLiabilitiesCurrent"@), usd_tag("EmployeeRelatedLiabilitiesCurrent"@)]);
    defs.push(first_match(StandardMetric::OtherCurrentLiabilities, tags));
    // ─── Total Current Liabilities (42/42 — universal) ───
    let mut tags: Vec<TagSpec> = Vec::new();
    tags.push(TagSpec::gaap_usd("LiabilitiesCurrent"));
    assert(specs_view(tags@) =~= seq![usd_tag("LiabilitiesCurrent"@)]);
    defs.push(first_match(StandardMetric::TotalCurrentLiabilities, tags));
    // ─── Long-Term Debt (36/42 use LongTermDebt) ───
    let mut tags: Vec<TagSpec> = Vec::new();
    tags.push(TagSpec::gaap_usd("LongTermDebtNoncurrent"));
    tags.push(TagSpec::gaap_usd("LongTermDebt"));
    tags.push(TagSpec::gaap_usd("LongTermDebtAndCapitalLeaseObligations"));
    tags.push(TagSpec::gaap_usd("OtherLongTermDebt"));
    assert(specs_view(tags@) =~= seq![usd_tag("LongTermDebtNoncurrent"@), usd_tag("LongTermDebt"@), usd_tag("LongTermDebtAndCapitalLeaseObligations"@), usd_tag("OtherLongTermDebt"@)]);
    defs.push(first_match(StandardMetric::LongTermDebt, tags));
    // ─── Other Non-Current Liabilities (41/42 use OtherLiabilitiesNoncurrent) ───
    let mut tags: Vec<TagSpec> = Vec::new();
    tags.push(TagSpec::gaap_usd("OtherLiabilitiesNoncurrent"));
    tags.push(TagSpec::gaap_usd("OtherLiabilities"));
    assert(specs_view(tags@) =~= seq![usd_tag("OtherLiabilitiesNoncurrent"@), usd_tag("OtherLiabilities"@)]);
    defs.push(first_match(StandardMetric::OtherNonCurrentLiabilities, tags));
    // ─── Total Liabilities (30/42 use Liabilities) ───
    let mut tags: Vec<TagSpec> = Vec::new();
    tags.push(TagSpec::gaap_usd("Liabilities"));
    tags.push(TagSpec::gaap_usd("LiabilitiesAndStockholdersEquity"));
    assert(specs_view(tags@) =~= seq![usd_tag("Liabilities"@), usd_tag("LiabilitiesAndStockholdersEquity"@)]);
    defs.push(first_match(StandardMetric::TotalLiabilities, tags));
    // ─── Common Stock ───
    let mut tags: Vec<TagSpec> = Vec::new();
    tags.push(TagSpec::gaap_usd("CommonStockValue"));
    tags.push(TagSpec::gaap_usd("CommonStocksIncludingAdditionalPaidInCapital"));
    assert(specs_view(tags@) =~= seq![usd_tag("CommonStockValue"@), usd_tag("CommonStocksIncludingAdditionalPaidInCapital"@)]);
    defs.push(first_match(StandardMetric::CommonStock, tags));
    // ─── Retained Earnings ───
    let mut tags: Vec<TagSpec> = Vec::new();
    tags.push(TagSpec::gaap_usd("RetainedEarningsAccumulatedDeficit"));
    assert(specs_view(tags@) =~= seq![usd_tag("RetainedEarningsAccumulatedDeficit"@)]);
    defs.push(first_match(StandardMetric::RetainedEarnings, tags));
    // ─── Accumulated Other Comprehensive Income ───
    let mut tags: Vec<TagSpec> = Vec::new();
    tags.push(TagSpec::gaap_usd("AccumulatedOtherComprehensiveIncomeLossNetOfTax"));
    assert(specs_view(tags@) =~= seq![usd_tag("AccumulatedOtherComprehensiveIncomeLossNetOfTax"@)]);
    defs.push(first_match(StandardMetric::AccumulatedOtherComprehensiveIncome, tags));
    // ─── Total Stockholders' Equity (39/42 use StockholdersEquity) ───
    let mut tags: Vec<TagSpec> = Vec::new();
    tags.push(TagSpec::gaap_usd("StockholdersEquity"));
    tags.push(TagSpec::gaap_usd("StockholdersEquityIncludingPortionAttributableToNoncontrollingInterest"));
    assert(specs_view(tags@) =~= seq![usd_tag("StockholdersEquity"@), usd_tag("StockholdersEquityIncludingPortionAttributableToNoncontrollingInterest"@)]);
    defs.push(first_match(StandardMetric::TotalStockholdersEquity, tags));
    // ─── Total Liabilities & Equity (42/42 — universal) ───
    let mut tags: Vec<TagSpec> = Vec::new();
    tags.push(TagSpec::gaap_usd("LiabilitiesAndStockholdersEquity"));
    assert(specs_view(tags@) =~= seq![usd_tag("LiabilitiesAndStockholdersEquity"@)]);
    defs.push(first_match(StandardMetric::TotalLiabilitiesAndEquity, tags));
    assert(defs_view(defs@) =~= balance_sheet_definitions_spec());
    defs
}

} // verus!
