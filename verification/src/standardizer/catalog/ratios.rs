//! Computed ratio definitions.
use vstd::prelude::*;

use crate::standardizer::catalog::DefinitionView;
use crate::standardizer::catalog::MetricDefinition;
use crate::standardizer::catalog::custom_view;
use crate::standardizer::catalog::defs_view;
use crate::standardizer::output::StandardMetric;
use crate::standardizer::resolution::MetricResolution;

verus! {

/// The computed metrics, in order; the definition of the metric at
/// position `i` uses formula number `i`.
pub open spec fn ratio_metrics() -> Seq<StandardMetric> {
    seq![
        StandardMetric::GrossMargin,
        StandardMetric::OperatingMargin,
        StandardMetric::NetMargin,
        StandardMetric::ReturnOnAssets,
        StandardMetric::ReturnOnEquity,
        StandardMetric::CurrentRatio,
        StandardMetric::QuickRatio,
        StandardMetric::DebtToEquity,
        StandardMetric::DebtToAssets,
        StandardMetric::InterestCoverage,
        StandardMetric::AssetTurnover,
        StandardMetric::InventoryTurnover,
        StandardMetric::ReceivablesTurnover,
        StandardMetric::FreeCashFlowMargin,
        StandardMetric::EbitdaMargin,
        StandardMetric::RevenuePerShare,
        StandardMetric::FreeCashFlowPerShare,
        StandardMetric::WorkingCapital,
        StandardMetric::TangibleBookValue,
        StandardMetric::NetDebt,
        StandardMetric::BookValuePerShare,
        StandardMetric::PayoutRatio,
        StandardMetric::FreeCashFlow,
        StandardMetric::Ebitda,
        StandardMetric::Ebit,
    ]
}

/// The definitions that `definitions` returns, in order.
pub open spec fn ratios_definitions_spec() -> Seq<DefinitionView> {
    Seq::new(ratio_metrics().len(), |i: int| custom_view(ratio_metrics()[i], i as u32))
}

fn ratio_def(metric: StandardMetric, formula: u32) -> (d: MetricDefinition)
    ensures
        d@ == custom_view(metric, formula),
{
    MetricDefinition { metric, resolution: MetricResolution::Custom(formula) }
}

/// Computed ratio definitions.
///
/// Ratios are computed from already-resolved metrics, so they use `Custom`
/// resolution, numbered by formula. The engine runs these in a second pass
/// after all primary metrics are resolved.
pub fn definitions() -> (defs: Vec<MetricDefinition>)
    ensures
        defs_view(defs@) == ratios_definitions_spec(),
{
    let mut defs: Vec<MetricDefinition> = Vec::new();
    defs.push(ratio_def(StandardMetric::GrossMargin, 0));
    defs.push(ratio_def(StandardMetric::OperatingMargin, 1));
    defs.push(ratio_def(StandardMetric::NetMargin, 2));
    defs.push(ratio_def(StandardMetric::ReturnOnAssets, 3));
    defs.push(ratio_def(StandardMetric::ReturnOnEquity, 4));
    defs.push(ratio_def(StandardMetric::CurrentRatio, 5));
    defs.push(ratio_def(StandardMetric::QuickRatio, 6));
    defs.push(ratio_def(StandardMetric::DebtToEquity, 7));
    defs.push(ratio_def(StandardMetric::DebtToAssets, 8));
    defs.push(ratio_def(StandardMetric::InterestCoverage, 9));
    defs.push(ratio_def(StandardMetric::AssetTurnover, 10));
    defs.push(ratio_def(StandardMetric::InventoryTurnover, 11));
    defs.push(ratio_def(StandardMetric::ReceivablesTurnover, 12));
    defs.push(ratio_def(StandardMetric::FreeCashFlowMargin, 13));
    defs.push(ratio_def(StandardMetric::EbitdaMargin, 14));
    defs.push(ratio_def(StandardMetric::RevenuePerShare, 15));
    defs.push(ratio_def(StandardMetric::FreeCashFlowPerShare, 16));
    defs.push(ratio_def(StandardMetric::WorkingCapital, 17));
    defs.push(ratio_def(StandardMetric::TangibleBookValue, 18));
    defs.push(ratio_def(StandardMetric::NetDebt, 19));
    defs.push(ratio_def(StandardMetric::BookValuePerShare, 20));
    defs.push(ratio_def(StandardMetric::PayoutRatio, 21));
    defs.push(ratio_def(StandardMetric::FreeCashFlow, 22));
    defs.push(ratio_def(StandardMetric::Ebitda, 23));
    defs.push(ratio_def(StandardMetric::Ebit, 24));
    assert(defs_view(defs@) =~= ratios_definitions_spec());
    defs
}

/// An expression over the metrics already resolved in a period, as the
/// formulas of computed metrics are written.
pub enum RatioExpr {
    /// The metric's value; the formula gives nothing without it.
    Value(StandardMetric),
    /// The metric's value, or 0 when it did not resolve.
    ValueOrZero(StandardMetric),
    /// The absolute value.
    Abs(Box<RatioExpr>),
    Add(Box<RatioExpr>, Box<RatioExpr>),
    Sub(Box<RatioExpr>, Box<RatioExpr>),
    /// The quotient; nothing when the divisor is (nearly) zero.
    Div(Box<RatioExpr>, Box<RatioExpr>),
}

/// The value of `m`, required.
pub open spec fn value(m: StandardMetric) -> RatioExpr {
    RatioExpr::Value(m)
}

/// The value of `m`, or 0.
pub open spec fn or_zero(m: StandardMetric) -> RatioExpr {
    RatioExpr::ValueOrZero(m)
}

/// The absolute value of `a`.
pub open spec fn abs(a: RatioExpr) -> RatioExpr {
    RatioExpr::Abs(Box::new(a))
}

/// `a + b`.
pub open spec fn plus(a: RatioExpr, b: RatioExpr) -> RatioExpr {
    RatioExpr::Add(Box::new(a), Box::new(b))
}

/// `a - b`.
pub open spec fn minus(a: RatioExpr, b: RatioExpr) -> RatioExpr {
    RatioExpr::Sub(Box::new(a), Box::new(b))
}

/// `a / b`.
pub open spec fn over(a: RatioExpr, b: RatioExpr) -> RatioExpr {
    RatioExpr::Div(Box::new(a), Box::new(b))
}

/// What each computed metric is: gross margin is gross profit over
/// revenue, operating margin operating income over revenue, and so on.
pub open spec fn metric_formula(m: StandardMetric) -> Option<RatioExpr> {
    match m {
        StandardMetric::GrossMargin => Some(over(value(StandardMetric::GrossProfit), value(StandardMetric::Revenue))),
        StandardMetric::OperatingMargin => Some(over(value(StandardMetric::OperatingIncome), value(StandardMetric::Revenue))),
        StandardMetric::NetMargin => Some(over(value(StandardMetric::NetIncome), value(StandardMetric::Revenue))),
        StandardMetric::ReturnOnAssets => Some(over(value(StandardMetric::NetIncome), value(StandardMetric::TotalAssets))),
        StandardMetric::ReturnOnEquity => Some(
            over(value(StandardMetric::NetIncome), value(StandardMetric::TotalStockholdersEquity)),
        ),
        StandardMetric::CurrentRatio => Some(
            over(value(StandardMetric::TotalCurrentAssets), value(StandardMetric::TotalCurrentLiabilities)),
        ),
        StandardMetric::QuickRatio => Some(
            over(
                minus(value(StandardMetric::TotalCurrentAssets), or_zero(StandardMetric::Inventory)),
                value(StandardMetric::TotalCurrentLiabilities),
            ),
        ),
        StandardMetric::DebtToEquity => Some(
            over(
                plus(or_zero(StandardMetric::LongTermDebt), or_zero(StandardMetric::ShortTermDebt)),
                value(StandardMetric::TotalStockholdersEquity),
            ),
        ),
        StandardMetric::DebtToAssets => Some(
            over(
                plus(or_zero(StandardMetric::LongTermDebt), or_zero(StandardMetric::ShortTermDebt)),
                value(StandardMetric::TotalAssets),
            ),
        ),
        StandardMetric::InterestCoverage => Some(
            over(value(StandardMetric::OperatingIncome), value(StandardMetric::InterestExpense)),
        ),
        StandardMetric::AssetTurnover => Some(over(value(StandardMetric::Revenue), value(StandardMetric::TotalAssets))),
        StandardMetric::InventoryTurnover => Some(over(value(StandardMetric::CostOfRevenue), value(StandardMetric::Inventory))),
        StandardMetric::ReceivablesTurnover => Some(
            over(value(StandardMetric::Revenue), value(StandardMetric::AccountsReceivable)),
        ),
        StandardMetric::FreeCashFlowMargin => Some(
            over(
                minus(value(StandardMetric::OperatingCashFlow), abs(or_zero(StandardMetric::CapitalExpenditures))),
                value(StandardMetric::Revenue),
            ),
        ),
        StandardMetric::EbitdaMargin => Some(
            over(
                plus(value(StandardMetric::OperatingIncome), or_zero(StandardMetric::DepreciationAmortization)),
                value(StandardMetric::Revenue),
            ),
        ),
        StandardMetric::RevenuePerShare => Some(
            over(value(StandardMetric::Revenue), value(StandardMetric::SharesOutstandingBasic)),
        ),
        StandardMetric::FreeCashFlowPerShare => Some(
            over(
                minus(value(StandardMetric::OperatingCashFlow), abs(or_zero(StandardMetric::CapitalExpenditures))),
                value(StandardMetric::SharesOutstandingBasic),
            ),
        ),
        StandardMetric::WorkingCapital => Some(
            minus(value(StandardMetric::TotalCurrentAssets), value(StandardMetric::TotalCurrentLiabilities)),
        ),
        StandardMetric::TangibleBookValue => Some(
            minus(
                minus(value(StandardMetric::TotalStockholdersEquity), or_zero(StandardMetric::Goodwill)),
                or_zero(StandardMetric::IntangibleAssets),
            ),
        ),
        StandardMetric::NetDebt => Some(
            minus(
                plus(or_zero(StandardMetric::LongTermDebt), or_zero(StandardMetric::ShortTermDebt)),
                value(StandardMetric::CashAndEquivalents),
            ),
        ),
        StandardMetric::BookValuePerShare => Some(
            over(value(StandardMetric::TotalStockholdersEquity), value(StandardMetric::SharesOutstandingBasic)),
        ),
        StandardMetric::PayoutRatio => Some(
            over(abs(value(StandardMetric::DividendsPaid)), value(StandardMetric::NetIncome)),
        ),
        StandardMetric::FreeCashFlow => Some(
            minus(value(StandardMetric::OperatingCashFlow), abs(or_zero(StandardMetric::CapitalExpenditures))),
        ),
        StandardMetric::Ebitda => Some(
            plus(value(StandardMetric::OperatingIncome), or_zero(StandardMetric::DepreciationAmortization)),
        ),
        StandardMetric::Ebit => Some(value(StandardMetric::OperatingIncome)),
        _ => None,
    }
}

/// What formula number `n` of a `Custom` resolution computes; those who
/// evaluate computed metrics follow this numbering.
pub open spec fn numbered_formula(n: u32) -> Option<RatioExpr> {
    if n == 0 {
        Some(over(value(StandardMetric::GrossProfit), value(StandardMetric::Revenue)))
    } else if n == 1 {
        Some(over(value(StandardMetric::OperatingIncome), value(StandardMetric::Revenue)))
    } else if n == 2 {
        Some(over(value(StandardMetric::NetIncome), value(StandardMetric::Revenue)))
    } else if n == 3 {
        Some(over(value(StandardMetric::NetIncome), value(StandardMetric::TotalAssets)))
    } else if n == 4 {
        Some(
            over(value(StandardMetric::NetIncome), value(StandardMetric::TotalStockholdersEquity)),
        )
    } else if n == 5 {
        Some(
            over(value(StandardMetric::TotalCurrentAssets), value(StandardMetric::TotalCurrentLiabilities)),
        )
    } else if n == 6 {
        Some(
            over(
                minus(value(StandardMetric::TotalCurrentAssets), or_zero(StandardMetric::Inventory)),
                value(StandardMetric::TotalCurrentLiabilities),
            ),
        )
    } else if n == 7 {
        Some(
            over(
                plus(or_zero(StandardMetric::LongTermDebt), or_zero(StandardMetric::ShortTermDebt)),
                value(StandardMetric::TotalStockholdersEquity),
            ),
        )
    } else if n == 8 {
        Some(
            over(
                plus(or_zero(StandardMetric::LongTermDebt), or_zero(StandardMetric::ShortTermDebt)),
                value(StandardMetric::TotalAssets),
            ),
        )
    } else if n == 9 {
        Some(
            over(value(StandardMetric::OperatingIncome), value(StandardMetric::InterestExpense)),
        )
    } else if n == 10 {
        Some(over(value(StandardMetric::Revenue), value(StandardMetric::TotalAssets)))
    } else if n == 11 {
        Some(over(value(StandardMetric::CostOfRevenue), value(StandardMetric::Inventory)))
    } else if n == 12 {
        Some(
            over(value(StandardMetric::Revenue), value(StandardMetric::AccountsReceivable)),
        )
    } else if n == 13 {
        Some(
            over(
                minus(value(StandardMetric::OperatingCashFlow), abs(or_zero(StandardMetric::CapitalExpenditures))),
                value(StandardMetric::Revenue),
            ),
        )
    } else if n == 14 {
        Some(
            over(
                plus(value(StandardMetric::OperatingIncome), or_zero(StandardMetric::DepreciationAmortization)),
                value(StandardMetric::Revenue),
            ),
        )
    } else if n == 15 {
        Some(
            over(value(StandardMetric::Revenue), value(StandardMetric::SharesOutstandingBasic)),
        )
    } else if n == 16 {
        Some(
            over(
                minus(value(StandardMetric::OperatingCashFlow), abs(or_zero(StandardMetric::CapitalExpenditures))),
                value(StandardMetric::SharesOutstandingBasic),
            ),
        )
    } else if n == 17 {
        Some(
            minus(value(StandardMetric::TotalCurrentAssets), value(StandardMetric::TotalCurrentLiabilities)),
        )
    } else if n == 18 {
        Some(
            minus(
                minus(value(StandardMetric::TotalStockholdersEquity), or_zero(StandardMetric::Goodwill)),
                or_zero(StandardMetric::IntangibleAssets),
            ),
        )
    } else if n == 19 {
        Some(
            minus(
                plus(or_zero(StandardMetric::LongTermDebt), or_zero(StandardMetric::ShortTermDebt)),
                value(StandardMetric::CashAndEquivalents),
            ),
        )
    } else if n == 20 {
        Some(
            over(value(StandardMetric::TotalStockholdersEquity), value(StandardMetric::SharesOutstandingBasic)),
        )
    } else if n == 21 {
        Some(
            over(abs(value(StandardMetric::DividendsPaid)), value(StandardMetric::NetIncome)),
        )
    } else if n == 22 {
        Some(
            minus(value(StandardMetric::OperatingCashFlow), abs(or_zero(StandardMetric::CapitalExpenditures))),
        )
    } else if n == 23 {
        Some(
            plus(value(StandardMetric::OperatingIncome), or_zero(StandardMetric::DepreciationAmortization)),
        )
    } else if n == 24 {
        Some(value(StandardMetric::OperatingIncome))
    } else {
        None
    }
}

/// Every computed definition computes what its metric is: its formula
/// number names the formula of that metric (gross margin's divides gross
/// profit by revenue, operating margin's operating income by revenue, and
/// so on), and every metric with a formula has a definition.
pub proof fn lemma_ratio_formulas()
    ensures
        forall|i: int|
            0 <= i < ratios_definitions_spec().len() ==> {
                let d = #[trigger] ratios_definitions_spec()[i];
                &&& d.resolution is Custom
                &&& metric_formula(d.metric) is Some
                &&& numbered_formula(d.resolution->Custom_0) == metric_formula(d.metric)
            },
        forall|m: StandardMetric|
            #[trigger] metric_formula(m) is Some ==> exists|i: int|
                0 <= i < ratios_definitions_spec().len() && ratios_definitions_spec()[i].metric == m,
{
    let defs = ratios_definitions_spec();
    assert forall|m: StandardMetric| #[trigger] metric_formula(m) is Some implies exists|i: int|
        0 <= i < defs.len() && defs[i].metric == m by {
        let ms = ratio_metrics();
        let i: int = if m == StandardMetric::GrossMargin {
            0
        } else if m == StandardMetric::OperatingMargin {
            1
        } else if m == StandardMetric::NetMargin {
            2
        } else if m == StandardMetric::ReturnOnAssets {
            3
        } else if m == StandardMetric::ReturnOnEquity {
            4
        } else if m == StandardMetric::CurrentRatio {
            5
        } else if m == StandardMetric::QuickRatio {
            6
        } else if m == StandardMetric::DebtToEquity {
            7
        } else if m == StandardMetric::DebtToAssets {
            8
        } else if m == StandardMetric::InterestCoverage {
            9
        } else if m == StandardMetric::AssetTurnover {
            10
        } else if m == StandardMetric::InventoryTurnover {
            11
        } else if m == StandardMetric::ReceivablesTurnover {
            12
        } else if m == StandardMetric::FreeCashFlowMargin {
            13
        } else if m == StandardMetric::EbitdaMargin {
            14
        } else if m == StandardMetric::RevenuePerShare {
            15
        } else if m == StandardMetric::FreeCashFlowPerShare {
            16
        } else if m == StandardMetric::WorkingCapital {
            17
        } else if m == StandardMetric::TangibleBookValue {
            18
        } else if m == StandardMetric::NetDebt {
            19
        } else if m == StandardMetric::BookValuePerShare {
            20
        } else if m == StandardMetric::PayoutRatio {
            21
        } else if m == StandardMetric::FreeCashFlow {
            22
        } else if m == StandardMetric::Ebitda {
            23
        } else {
            24
        };
        assert(defs[i].metric == m);
    }
}

} // verus!
