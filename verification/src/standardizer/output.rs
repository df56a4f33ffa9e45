//! Standardized metric identifiers and their display names.
use vstd::prelude::*;

use crate::text::decimal_digits;
use crate::text::u32_to_decimal;

verus! {

/// A standardized metric identifier.
#[derive(Debug, Clone, Copy, PartialEq, Eq, Structural, Hash, PartialOrd, Ord)]
pub enum StandardMetric {

    // ─── Income Statement ─────────────────────────
    Revenue,
    CostOfRevenue,
    GrossProfit,
    ResearchAndDevelopment,
    SellingGeneralAdmin,
    OperatingExpenses,
    OperatingIncome,
    InterestExpense,
    InterestIncome,
    OtherNonOperatingIncome,
    PretaxIncome,
    IncomeTaxExpense,
    NetIncome,
    NetIncomeToCommon,
    Ebitda,
    Ebit,
    DepreciationAmortization,

    // ─── Balance Sheet ────────────────────────────
    CashAndEquivalents,
    ShortTermInvestments,
    CashAndShortTermInvestments,
    AccountsReceivable,
    Inventory,
    OtherCurrentAssets,
    TotalCurrentAssets,
    PropertyPlantEquipment,
    Goodwill,
    IntangibleAssets,
    OtherNonCurrentAssets,
    TotalAssets,
    AccountsPayable,
    ShortTermDebt,
    CurrentPortionLongTermDebt,
    OtherCurrentLiabilities,
    TotalCurrentLiabilities,
    LongTermDebt,
    OtherNonCurrentLiabilities,
    TotalLiabilities,
    CommonStock,
    RetainedEarnings,
    AccumulatedOtherComprehensiveIncome,
    TotalStockholdersEquity,
    TotalLiabilitiesAndEquity,

    // ─── Cash Flow ────────────────────────────────
    OperatingCashFlow,
    CapitalExpenditures,
    FreeCashFlow,
    InvestingCashFlow,
    FinancingCashFlow,
    DividendsPaid,
    ShareRepurchases,
    NetChangeInCash,

    // ─── Per Share ────────────────────────────────
    EarningsPerShareBasic,
    EarningsPerShareDiluted,
    BookValuePerShare,
    DividendsPerShare,
    SharesOutstandingBasic,
    SharesOutstandingDiluted,

    // ─── Ratios ───────────────────────────────────
    GrossMargin,
    OperatingMargin,
    NetMargin,
    ReturnOnAssets,
    ReturnOnEquity,
    CurrentRatio,
    QuickRatio,
    DebtToEquity,
    DebtToAssets,
    InterestCoverage,
    AssetTurnover,
    InventoryTurnover,
    ReceivablesTurnover,
    FreeCashFlowMargin,
    EbitdaMargin,
    RevenuePerShare,
    FreeCashFlowPerShare,
    PriceToEarnings,
    PriceToBook,
    PriceToSales,
    EvToEbitda,
    PayoutRatio,
    DividendYield,
    WorkingCapital,
    TangibleBookValue,
    NetDebt,

    // ─── Sector-specific ──────────────────────────
    // Banks
    NetInterestIncome,
    NetInterestMargin,
    ProvisionForCreditLosses,
    NonInterestIncome,
    Tier1CapitalRatio,
    TotalCapitalRatio,

    // Insurance
    PremiumsEarned,
    CombinedRatio,
    LossRatio,
    ExpenseRatio,

    // REITs
    FundsFromOperations,
    AdjustedFundsFromOperations,
    NetOperatingIncome,

    /// User-defined custom metric.
    Custom(u32),
}

/// The human-readable name of a metric.
pub open spec fn metric_display_name(m: StandardMetric) -> Seq<char> {
    match m {
        StandardMetric::Revenue => "Revenue"@,
        StandardMetric::CostOfRevenue => "Cost of Revenue"@,
        StandardMetric::GrossProfit => "Gross Profit"@,
        StandardMetric::ResearchAndDevelopment => "R&D Expense"@,
        StandardMetric::SellingGeneralAdmin => "SG&A Expense"@,
        StandardMetric::OperatingExpenses => "Operating Expenses"@,
        StandardMetric::OperatingIncome => "Operating Income"@,
        StandardMetric::InterestExpense => "Interest Expense"@,
        StandardMetric::InterestIncome => "Interest Income"@,
        StandardMetric::OtherNonOperatingIncome => "Other Non-Operating Income"@,
        StandardMetric::PretaxIncome => "Pre-Tax Income"@,
        StandardMetric::IncomeTaxExpense => "Income Tax Expense"@,
        StandardMetric::NetIncome => "Net Income"@,
        StandardMetric::NetIncomeToCommon => "Net Income to Common"@,
        StandardMetric::Ebitda => "EBITDA"@,
        StandardMetric::Ebit => "EBIT"@,
        StandardMetric::DepreciationAmortization => "Depreciation & Amortization"@,
        StandardMetric::CashAndEquivalents => "Cash & Equivalents"@,
        StandardMetric::ShortTermInvestments => "Short-Term Investments"@,
        StandardMetric::CashAndShortTermInvestments => "Cash & Short-Term Investments"@,
        StandardMetric::AccountsReceivable => "Accounts Receivable"@,
        StandardMetric::Inventory => "Inventory"@,
        StandardMetric::OtherCurrentAssets => "Other Current Assets"@,
        StandardMetric::TotalCurrentAssets => "Total Current Assets"@,
        StandardMetric::PropertyPlantEquipment => "PP&E"@,
        StandardMetric::Goodwill => "Goodwill"@,
        StandardMetric::IntangibleAssets => "Intangible Assets"@,
        StandardMetric::OtherNonCurrentAssets => "Other Non-Current Assets"@,
        StandardMetric::TotalAssets => "Total Assets"@,
        StandardMetric::AccountsPayable => "Accounts Payable"@,
        StandardMetric::ShortTermDebt => "Short-Term Debt"@,
        StandardMetric::CurrentPortionLongTermDebt => "Current Portion of LT Debt"@,
        StandardMetric::OtherCurrentLiabilities => "Other Current Liabilities"@,
        StandardMetric::TotalCurrentLiabilities => "Total Current Liabilities"@,
        StandardMetric::LongTermDebt => "Long-Term Debt"@,
        StandardMetric::OtherNonCurrentLiabilities => "Other Non-Current Liabilities"@,
        StandardMetric::TotalLiabilities => "Total Liabilities"@,
        StandardMetric::CommonStock => "Common Stock"@,
        StandardMetric::RetainedEarnings => "Retained Earnings"@,
        StandardMetric::AccumulatedOtherComprehensiveIncome => "Accumulated OCI"@,
        StandardMetric::TotalStockholdersEquity => "Total Stockholders' Equity"@,
        StandardMetric::TotalLiabilitiesAndEquity => "Total Liabilities & Equity"@,
        StandardMetric::OperatingCashFlow => "Operating Cash Flow"@,
        StandardMetric::CapitalExpenditures => "Capital Expenditures"@,
        StandardMetric::FreeCashFlow => "Free Cash Flow"@,
        StandardMetric::InvestingCashFlow => "Investing Cash Flow"@,
        StandardMetric::FinancingCashFlow => "Financing Cash Flow"@,
        StandardMetric::DividendsPaid => "Dividends Paid"@,
        StandardMetric::ShareRepurchases => "Share Repurchases"@,
        StandardMetric::NetChangeInCash => "Net Change in Cash"@,
        StandardMetric::EarningsPerShareBasic => "EPS (Basic)"@,
        StandardMetric::EarningsPerShareDiluted => "EPS (Diluted)"@,
        StandardMetric::BookValuePerShare => "Book Value Per Share"@,
        StandardMetric::DividendsPerShare => "Dividends Per Share"@,
        StandardMetric::SharesOutstandingBasic => "Shares Outstanding (Basic)"@,
        StandardMetric::SharesOutstandingDiluted => "Shares Outstanding (Diluted)"@,
        StandardMetric::GrossMargin => "Gross Margin"@,
        StandardMetric::OperatingMargin => "Operating Margin"@,
        StandardMetric::NetMargin => "Net Margin"@,
        StandardMetric::ReturnOnAssets => "Return on Assets"@,
        StandardMetric::ReturnOnEquity => "Return on Equity"@,
        StandardMetric::CurrentRatio => "Current Ratio"@,
        StandardMetric::QuickRatio => "Quick Ratio"@,
        StandardMetric::DebtToEquity => "Debt to Equity"@,
        StandardMetric::DebtToAssets => "Debt to Assets"@,
        StandardMetric::InterestCoverage => "Interest Coverage"@,
        StandardMetric::AssetTurnover => "Asset Turnover"@,
        StandardMetric::InventoryTurnover => "Inventory Turnover"@,
        StandardMetric::ReceivablesTurnover => "Receivables Turnover"@,
        StandardMetric::FreeCashFlowMargin => "FCF Margin"@,
        StandardMetric::EbitdaMargin => "EBITDA Margin"@,
        StandardMetric::RevenuePerShare => "Revenue Per Share"@,
        StandardMetric::FreeCashFlowPerShare => "FCF Per Share"@,
        StandardMetric::PriceToEarnings => "P/E Ratio"@,
        StandardMetric::PriceToBook => "P/B Ratio"@,
        StandardMetric::PriceToSales => "P/S Ratio"@,
        StandardMetric::EvToEbitda => "EV/EBITDA"@,
        StandardMetric::PayoutRatio => "Payout Ratio"@,
        StandardMetric::DividendYield => "Dividend Yield"@,
        StandardMetric::WorkingCapital => "Working Capital"@,
        StandardMetric::TangibleBookValue => "Tangible Book Value"@,
        StandardMetric::NetDebt => "Net Debt"@,
        StandardMetric::NetInterestIncome => "Net Interest Income"@,
        StandardMetric::NetInterestMargin => "Net Interest Margin"@,
        StandardMetric::ProvisionForCreditLosses => "Provision for Credit Losses"@,
        StandardMetric::NonInterestIncome => "Non-Interest Income"@,
        StandardMetric::Tier1CapitalRatio => "Tier 1 Capital Ratio"@,
        StandardMetric::TotalCapitalRatio => "Total Capital Ratio"@,
        StandardMetric::PremiumsEarned => "Premiums Earned"@,
        StandardMetric::CombinedRatio => "Combined Ratio"@,
        StandardMetric::LossRatio => "Loss Ratio"@,
        StandardMetric::ExpenseRatio => "Expense Ratio (Insurance)"@,
        StandardMetric::FundsFromOperations => "FFO"@,
        StandardMetric::AdjustedFundsFromOperations => "AFFO"@,
        StandardMetric::NetOperatingIncome => "NOI"@,
        StandardMetric::Custom(_) => "Custom Metric"@,
    }
}

/// Whether a metric is a ratio (a dimensionless quotient).
pub open spec fn metric_is_ratio(m: StandardMetric) -> bool {
    match m {
          StandardMetric::GrossMargin
        | StandardMetric::OperatingMargin
        | StandardMetric::NetMargin
        | StandardMetric::ReturnOnAssets
        | StandardMetric::ReturnOnEquity
        | StandardMetric::CurrentRatio
        | StandardMetric::QuickRatio
        | StandardMetric::DebtToEquity
        | StandardMetric::DebtToAssets
        | StandardMetric::InterestCoverage
        | StandardMetric::AssetTurnover
        | StandardMetric::InventoryTurnover
        | StandardMetric::ReceivablesTurnover
        | StandardMetric::FreeCashFlowMargin
        | StandardMetric::EbitdaMargin
        | StandardMetric::PriceToEarnings
        | StandardMetric::PriceToBook
        | StandardMetric::PriceToSales
        | StandardMetric::EvToEbitda
        | StandardMetric::PayoutRatio
        | StandardMetric::DividendYield
        | StandardMetric::NetInterestMargin
        | StandardMetric::CombinedRatio
        | StandardMetric::LossRatio
        | StandardMetric::ExpenseRatio
        | StandardMetric::Tier1CapitalRatio
        | StandardMetric::TotalCapitalRatio
        => true,
        _ => false,
    }
}

/// The name of a metric's variant, as its `Debug` form writes it.
pub open spec fn metric_variant_name(m: StandardMetric) -> Seq<char> {
    match m {
        StandardMetric::Revenue => "Revenue"@,
        StandardMetric::CostOfRevenue => "CostOfRevenue"@,
        StandardMetric::GrossProfit => "GrossProfit"@,
        StandardMetric::ResearchAndDevelopment => "ResearchAndDevelopment"@,
        StandardMetric::SellingGeneralAdmin => "SellingGeneralAdmin"@,
        StandardMetric::OperatingExpenses => "OperatingExpenses"@,
        StandardMetric::OperatingIncome => "OperatingIncome"@,
        StandardMetric::InterestExpense => "InterestExpense"@,
        StandardMetric::InterestIncome => "InterestIncome"@,
        StandardMetric::OtherNonOperatingIncome => "OtherNonOperatingIncome"@,
        StandardMetric::PretaxIncome => "PretaxIncome"@,
        StandardMetric::IncomeTaxExpense => "IncomeTaxExpense"@,
        StandardMetric::NetIncome => "NetIncome"@,
        StandardMetric::NetIncomeToCommon => "NetIncomeToCommon"@,
        StandardMetric::Ebitda => "Ebitda"@,
        StandardMetric::Ebit => "Ebit"@,
        StandardMetric::DepreciationAmortization => "DepreciationAmortization"@,
        StandardMetric::CashAndEquivalents => "CashAndEquivalents"@,
        StandardMetric::ShortTermInvestments => "ShortTermInvestments"@,
        StandardMetric::CashAndShortTermInvestments => "CashAndShortTermInvestments"@,
        StandardMetric::AccountsReceivable => "AccountsReceivable"@,
        StandardMetric::Inventory => "Inventory"@,
        StandardMetric::OtherCurrentAssets => "OtherCurrentAssets"@,
        StandardMetric::TotalCurrentAssets => "TotalCurrentAssets"@,
        StandardMetric::PropertyPlantEquipment => "PropertyPlantEquipment"@,
        StandardMetric::Goodwill => "Goodwill"@,
        StandardMetric::IntangibleAssets => "IntangibleAssets"@,
        StandardMetric::OtherNonCurrentAssets => "OtherNonCurrentAssets"@,
        StandardMetric::TotalAssets => "TotalAssets"@,
        StandardMetric::AccountsPayable => "AccountsPayable"@,
        StandardMetric::ShortTermDebt => "ShortTermDebt"@,
        StandardMetric::CurrentPortionLongTermDebt => "CurrentPortionLongTermDebt"@,
        StandardMetric::OtherCurrentLiabilities => "OtherCurrentLiabilities"@,
        StandardMetric::TotalCurrentLiabilities => "TotalCurrentLiabilities"@,
        StandardMetric::LongTermDebt => "LongTermDebt"@,
        StandardMetric::OtherNonCurrentLiabilities => "OtherNonCurrentLiabilities"@,
        StandardMetric::TotalLiabilities => "TotalLiabilities"@,
        StandardMetric::CommonStock => "CommonStock"@,
        StandardMetric::RetainedEarnings => "RetainedEarnings"@,
        StandardMetric::AccumulatedOtherComprehensiveIncome => "AccumulatedOtherComprehensiveIncome"@,
        StandardMetric::TotalStockholdersEquity => "TotalStockholdersEquity"@,
        StandardMetric::TotalLiabilitiesAndEquity => "TotalLiabilitiesAndEquity"@,
        StandardMetric::OperatingCashFlow => "OperatingCashFlow"@,
        StandardMetric::CapitalExpenditures => "CapitalExpenditures"@,
        StandardMetric::FreeCashFlow => "FreeCashFlow"@,
        StandardMetric::InvestingCashFlow => "InvestingCashFlow"@,
        StandardMetric::FinancingCashFlow => "FinancingCashFlow"@,
        StandardMetric::DividendsPaid => "DividendsPaid"@,
        StandardMetric::ShareRepurchases => "ShareRepurchases"@,
        StandardMetric::NetChangeInCash => "NetChangeInCash"@,
        StandardMetric::EarningsPerShareBasic => "EarningsPerShareBasic"@,
        StandardMetric::EarningsPerShareDiluted => "EarningsPerShareDiluted"@,
        StandardMetric::BookValuePerShare => "BookValuePerShare"@,
        StandardMetric::DividendsPerShare => "DividendsPerShare"@,
        StandardMetric::SharesOutstandingBasic => "SharesOutstandingBasic"@,
        StandardMetric::SharesOutstandingDiluted => "SharesOutstandingDiluted"@,
        StandardMetric::GrossMargin => "GrossMargin"@,
        StandardMetric::OperatingMargin => "OperatingMargin"@,
        StandardMetric::NetMargin => "NetMargin"@,
        StandardMetric::ReturnOnAssets => "ReturnOnAssets"@,
        StandardMetric::ReturnOnEquity => "ReturnOnEquity"@,
        StandardMetric::CurrentRatio => "CurrentRatio"@,
        StandardMetric::QuickRatio => "QuickRatio"@,
        StandardMetric::DebtToEquity => "DebtToEquity"@,
        StandardMetric::DebtToAssets => "DebtToAssets"@,
        StandardMetric::InterestCoverage => "InterestCoverage"@,
        StandardMetric::AssetTurnover => "AssetTurnover"@,
        StandardMetric::InventoryTurnover => "InventoryTurnover"@,
        StandardMetric::ReceivablesTurnover => "ReceivablesTurnover"@,
        StandardMetric::FreeCashFlowMargin => "FreeCashFlowMargin"@,
        StandardMetric::EbitdaMargin => "EbitdaMargin"@,
        StandardMetric::RevenuePerShare => "RevenuePerShare"@,
        StandardMetric::FreeCashFlowPerShare => "FreeCashFlowPerShare"@,
        StandardMetric::PriceToEarnings => "PriceToEarnings"@,
        StandardMetric::PriceToBook => "PriceToBook"@,
        StandardMetric::PriceToSales => "PriceToSales"@,
        StandardMetric::EvToEbitda => "EvToEbitda"@,
        StandardMetric::PayoutRatio => "PayoutRatio"@,
        StandardMetric::DividendYield => "DividendYield"@,
        StandardMetric::WorkingCapital => "WorkingCapital"@,
        StandardMetric::TangibleBookValue => "TangibleBookValue"@,
        StandardMetric::NetDebt => "NetDebt"@,
        StandardMetric::NetInterestIncome => "NetInterestIncome"@,
        StandardMetric::NetInterestMargin => "NetInterestMargin"@,
        StandardMetric::ProvisionForCreditLosses => "ProvisionForCreditLosses"@,
        StandardMetric::NonInterestIncome => "NonInterestIncome"@,
        StandardMetric::Tier1CapitalRatio => "Tier1CapitalRatio"@,
        StandardMetric::TotalCapitalRatio => "TotalCapitalRatio"@,
        StandardMetric::PremiumsEarned => "PremiumsEarned"@,
        StandardMetric::CombinedRatio => "CombinedRatio"@,
        StandardMetric::LossRatio => "LossRatio"@,
        StandardMetric::ExpenseRatio => "ExpenseRatio"@,
        StandardMetric::FundsFromOperations => "FundsFromOperations"@,
        StandardMetric::AdjustedFundsFromOperations => "AdjustedFundsFromOperations"@,
        StandardMetric::NetOperatingIncome => "NetOperatingIncome"@,
        StandardMetric::Custom(n) => "Custom("@ + decimal_digits(n as nat) + ")"@,
    }
}

impl StandardMetric {
    /// The human-readable name of this metric.
    pub fn display_name(&self) -> (r: &'static str)
        ensures
            r@ == metric_display_name(*self),
    {
        match self {
            Self::Revenue => "Revenue",
            Self::CostOfRevenue => "Cost of Revenue",
            Self::GrossProfit => "Gross Profit",
            Self::ResearchAndDevelopment => "R&D Expense",
            Self::SellingGeneralAdmin => "SG&A Expense",
            Self::OperatingExpenses => "Operating Expenses",
            Self::OperatingIncome => "Operating Income",
            Self::InterestExpense => "Interest Expense",
            Self::InterestIncome => "Interest Income",
            Self::OtherNonOperatingIncome => "Other Non-Operating Income",
            Self::PretaxIncome => "Pre-Tax Income",
            Self::IncomeTaxExpense => "Income Tax Expense",
            Self::NetIncome => "Net Income",
            Self::NetIncomeToCommon => "Net Income to Common",
            Self::Ebitda => "EBITDA",
            Self::Ebit => "EBIT",
            Self::DepreciationAmortization => "Depreciation & Amortization",
            Self::CashAndEquivalents => "Cash & Equivalents",
            Self::ShortTermInvestments => "Short-Term Investments",
            Self::CashAndShortTermInvestments => "Cash & Short-Term Investments",
            Self::AccountsReceivable => "Accounts Receivable",
            Self::Inventory => "Inventory",
            Self::OtherCurrentAssets => "Other Current Assets",
            Self::TotalCurrentAssets => "Total Current Assets",
            Self::PropertyPlantEquipment => "PP&E",
            Self::Goodwill => "Goodwill",
            Self::IntangibleAssets => "Intangible Assets",
            Self::OtherNonCurrentAssets => "Other Non-Current Assets",
            Self::TotalAssets => "Total Assets",
            Self::AccountsPayable => "Accounts Payable",
            Self::ShortTermDebt => "Short-Term Debt",
            Self::CurrentPortionLongTermDebt => "Current Portion of LT Debt",
            Self::OtherCurrentLiabilities => "Other Current Liabilities",
            Self::TotalCurrentLiabilities => "Total Current Liabilities",
            Self::LongTermDebt => "Long-Term Debt",
            Self::OtherNonCurrentLiabilities => "Other Non-Current Liabilities",
            Self::TotalLiabilities => "Total Liabilities",
            Self::CommonStock => "Common Stock",
            Self::RetainedEarnings => "Retained Earnings",
            Self::AccumulatedOtherComprehensiveIncome => "Accumulated OCI",
            Self::TotalStockholdersEquity => "Total Stockholders' Equity",
            Self::TotalLiabilitiesAndEquity => "Total Liabilities & Equity",
            Self::OperatingCashFlow => "Operating Cash Flow",
            Self::CapitalExpenditures => "Capital Expenditures",
            Self::FreeCashFlow => "Free Cash Flow",
            Self::InvestingCashFlow => "Investing Cash Flow",
            Self::FinancingCashFlow => "Financing Cash Flow",
            Self::DividendsPaid => "Dividends Paid",
            Self::ShareRepurchases => "Share Repurchases",
            Self::NetChangeInCash => "Net Change in Cash",
            Self::EarningsPerShareBasic => "EPS (Basic)",
            Self::EarningsPerShareDiluted => "EPS (Diluted)",
            Self::BookValuePerShare => "Book Value Per Share",
            Self::DividendsPerShare => "Dividends Per Share",
            Self::SharesOutstandingBasic => "Shares Outstanding (Basic)",
            Self::SharesOutstandingDiluted => "Shares Outstanding (Diluted)",
            Self::GrossMargin => "Gross Margin",
            Self::OperatingMargin => "Operating Margin",
            Self::NetMargin => "Net Margin",
            Self::ReturnOnAssets => "Return on Assets",
            Self::ReturnOnEquity => "Return on Equity",
            Self::CurrentRatio => "Current Ratio",
            Self::QuickRatio => "Quick Ratio",
            Self::DebtToEquity => "Debt to Equity",
            Self::DebtToAssets => "Debt to Assets",
            Self::InterestCoverage => "Interest Coverage",
            Self::AssetTurnover => "Asset Turnover",
            Self::InventoryTurnover => "Inventory Turnover",
            Self::ReceivablesTurnover => "Receivables Turnover",
            Self::FreeCashFlowMargin => "FCF Margin",
            Self::EbitdaMargin => "EBITDA Margin",
            Self::RevenuePerShare => "Revenue Per Share",
            Self::FreeCashFlowPerShare => "FCF Per Share",
            Self::PriceToEarnings => "P/E Ratio",
            Self::PriceToBook => "P/B Ratio",
            Self::PriceToSales => "P/S Ratio",
            Self::EvToEbitda => "EV/EBITDA",
            Self::PayoutRatio => "Payout Ratio",
            Self::DividendYield => "Dividend Yield",
            Self::WorkingCapital => "Working Capital",
            Self::TangibleBookValue => "Tangible Book Value",
            Self::NetDebt => "Net Debt",
            Self::NetInterestIncome => "Net Interest Income",
            Self::NetInterestMargin => "Net Interest Margin",
            Self::ProvisionForCreditLosses => "Provision for Credit Losses",
            Self::NonInterestIncome => "Non-Interest Income",
            Self::Tier1CapitalRatio => "Tier 1 Capital Ratio",
            Self::TotalCapitalRatio => "Total Capital Ratio",
            Self::PremiumsEarned => "Premiums Earned",
            Self::CombinedRatio => "Combined Ratio",
            Self::LossRatio => "Loss Ratio",
            Self::ExpenseRatio => "Expense Ratio (Insurance)",
            Self::FundsFromOperations => "FFO",
            Self::AdjustedFundsFromOperations => "AFFO",
            Self::NetOperatingIncome => "NOI",
            Self::Custom(_) => "Custom Metric",
        }
    }

    /// Whether this metric is a ratio.
    pub fn is_ratio(&self) -> (r: bool)
        ensures
            r == metric_is_ratio(*self),
    {
        match self {
              Self::GrossMargin
            | Self::OperatingMargin
            | Self::NetMargin
            | Self::ReturnOnAssets
            | Self::ReturnOnEquity
            | Self::CurrentRatio
            | Self::QuickRatio
            | Self::DebtToEquity
            | Self::DebtToAssets
            | Self::InterestCoverage
            | Self::AssetTurnover
            | Self::InventoryTurnover
            | Self::ReceivablesTurnover
            | Self::FreeCashFlowMargin
            | Self::EbitdaMargin
            | Self::PriceToEarnings
            | Self::PriceToBook
            | Self::PriceToSales
            | Self::EvToEbitda
            | Self::PayoutRatio
            | Self::DividendYield
            | Self::NetInterestMargin
            | Self::CombinedRatio
            | Self::LossRatio
            | Self::ExpenseRatio
            | Self::Tier1CapitalRatio
            | Self::TotalCapitalRatio
            => true,
            _ => false,
        }
    }

    /// The name of this metric's variant, such as `Revenue` or `Custom(7)`.
    pub fn variant_name(&self) -> (r: String)
        ensures
            r@ == metric_variant_name(*self),
    {
        match self {
            Self::Revenue => String::from_str("Revenue"),
            Self::CostOfRevenue => String::from_str("CostOfRevenue"),
            Self::GrossProfit => String::from_str("GrossProfit"),
            Self::ResearchAndDevelopment => String::from_str("ResearchAndDevelopment"),
            Self::SellingGeneralAdmin => String::from_str("SellingGeneralAdmin"),
            Self::OperatingExpenses => String::from_str("OperatingExpenses"),
            Self::OperatingIncome => String::from_str("OperatingIncome"),
            Self::InterestExpense => String::from_str("InterestExpense"),
            Self::InterestIncome => String::from_str("InterestIncome"),
            Self::OtherNonOperatingIncome => String::from_str("OtherNonOperatingIncome"),
            Self::PretaxIncome => String::from_str("PretaxIncome"),
            Self::IncomeTaxExpense => String::from_str("IncomeTaxExpense"),
            Self::NetIncome => String::from_str("NetIncome"),
            Self::NetIncomeToCommon => String::from_str("NetIncomeToCommon"),
            Self::Ebitda => String::from_str("Ebitda"),
            Self::Ebit => String::from_str("Ebit"),
            Self::DepreciationAmortization => String::from_str("DepreciationAmortization"),
            Self::CashAndEquivalents => String::from_str("CashAndEquivalents"),
            Self::ShortTermInvestments => String::from_str("ShortTermInvestments"),
            Self::CashAndShortTermInvestments => String::from_str("CashAndShortTermInvestments"),
            Self::AccountsReceivable => String::from_str("AccountsReceivable"),
            Self::Inventory => String::from_str("Inventory"),
            Self::OtherCurrentAssets => String::from_str("OtherCurrentAssets"),
            Self::TotalCurrentAssets => String::from_str("TotalCurrentAssets"),
            Self::PropertyPlantEquipment => String::from_str("PropertyPlantEquipment"),
            Self::Goodwill => String::from_str("Goodwill"),
            Self::IntangibleAssets => String::from_str("IntangibleAssets"),
            Self::OtherNonCurrentAssets => String::from_str("OtherNonCurrentAssets"),
            Self::TotalAssets => String::from_str("TotalAssets"),
            Self::AccountsPayable => String::from_str("AccountsPayable"),
            Self::ShortTermDebt => String::from_str("ShortTermDebt"),
            Self::CurrentPortionLongTermDebt => String::from_str("CurrentPortionLongTermDebt"),
            Self::OtherCurrentLiabilities => String::from_str("OtherCurrentLiabilities"),
            Self::TotalCurrentLiabilities => String::from_str("TotalCurrentLiabilities"),
            Self::LongTermDebt => String::from_str("LongTermDebt"),
            Self::OtherNonCurrentLiabilities => String::from_str("OtherNonCurrentLiabilities"),
            Self::TotalLiabilities => String::from_str("TotalLiabilities"),
            Self::CommonStock => String::from_str("CommonStock"),
            Self::RetainedEarnings => String::from_str("RetainedEarnings"),
            Self::AccumulatedOtherComprehensiveIncome => String::from_str("AccumulatedOtherComprehensiveIncome"),
            Self::TotalStockholdersEquity => String::from_str("TotalStockholdersEquity"),
            Self::TotalLiabilitiesAndEquity => String::from_str("TotalLiabilitiesAndEquity"),
            Self::OperatingCashFlow => String::from_str("OperatingCashFlow"),
            Self::CapitalExpenditures => String::from_str("CapitalExpenditures"),
            Self::FreeCashFlow => String::from_str("FreeCashFlow"),
            Self::InvestingCashFlow => String::from_str("InvestingCashFlow"),
            Self::FinancingCashFlow => String::from_str("FinancingCashFlow"),
            Self::DividendsPaid => String::from_str("DividendsPaid"),
            Self::ShareRepurchases => String::from_str("ShareRepurchases"),
            Self::NetChangeInCash => String::from_str("NetChangeInCash"),
            Self::EarningsPerShareBasic => String::from_str("EarningsPerShareBasic"),
            Self::EarningsPerShareDiluted => String::from_str("EarningsPerShareDiluted"),
            Self::BookValuePerShare => String::from_str("BookValuePerShare"),
            Self::DividendsPerShare => String::from_str("DividendsPerShare"),
            Self::SharesOutstandingBasic => String::from_str("SharesOutstandingBasic"),
            Self::SharesOutstandingDiluted => String::from_str("SharesOutstandingDiluted"),
            Self::GrossMargin => String::from_str("GrossMargin"),
            Self::OperatingMargin => String::from_str("OperatingMargin"),
            Self::NetMargin => String::from_str("NetMargin"),
            Self::ReturnOnAssets => String::from_str("ReturnOnAssets"),
            Self::ReturnOnEquity => String::from_str("ReturnOnEquity"),
            Self::CurrentRatio => String::from_str("CurrentRatio"),
            Self::QuickRatio => String::from_str("QuickRatio"),
            Self::DebtToEquity => String::from_str("DebtToEquity"),
            Self::DebtToAssets => String::from_str("DebtToAssets"),
            Self::InterestCoverage => String::from_str("InterestCoverage"),
            Self::AssetTurnover => String::from_str("AssetTurnover"),
            Self::InventoryTurnover => String::from_str("InventoryTurnover"),
            Self::ReceivablesTurnover => String::from_str("ReceivablesTurnover"),
            Self::FreeCashFlowMargin => String::from_str("FreeCashFlowMargin"),
            Self::EbitdaMargin => String::from_str("EbitdaMargin"),
            Self::RevenuePerShare => String::from_str("RevenuePerShare"),
            Self::FreeCashFlowPerShare => String::from_str("FreeCashFlowPerShare"),
            Self::PriceToEarnings => String::from_str("PriceToEarnings"),
            Self::PriceToBook => String::from_str("PriceToBook"),
            Self::PriceToSales => String::from_str("PriceToSales"),
            Self::EvToEbitda => String::from_str("EvToEbitda"),
            Self::PayoutRatio => String::from_str("PayoutRatio"),
            Self::DividendYield => String::from_str("DividendYield"),
            Self::WorkingCapital => String::from_str("WorkingCapital"),
            Self::TangibleBookValue => String::from_str("TangibleBookValue"),
            Self::NetDebt => String::from_str("NetDebt"),
            Self::NetInterestIncome => String::from_str("NetInterestIncome"),
            Self::NetInterestMargin => String::from_str("NetInterestMargin"),
            Self::ProvisionForCreditLosses => String::from_str("ProvisionForCreditLosses"),
            Self::NonInterestIncome => String::from_str("NonInterestIncome"),
            Self::Tier1CapitalRatio => String::from_str("Tier1CapitalRatio"),
            Self::TotalCapitalRatio => String::from_str("TotalCapitalRatio"),
            Self::PremiumsEarned => String::from_str("PremiumsEarned"),
            Self::CombinedRatio => String::from_str("CombinedRatio"),
            Self::LossRatio => String::from_str("LossRatio"),
            Self::ExpenseRatio => String::from_str("ExpenseRatio"),
            Self::FundsFromOperations => String::from_str("FundsFromOperations"),
            Self::AdjustedFundsFromOperations => String::from_str("AdjustedFundsFromOperations"),
            Self::NetOperatingIncome => String::from_str("NetOperatingIncome"),
            Self::Custom(n) => {
                let mut s = String::from_str("Custom(");
                let digits = u32_to_decimal(*n);
                s.append(digits.as_str());
                s.append(")");
                s
            },
        }
    }
}

} // verus!
