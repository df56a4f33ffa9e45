use edgar_lib::models::Company;
use edgar_lib::models::FactValue;
use edgar_lib::models::FiscalPeriod;
use edgar_lib::standardizer::catalog::DefaultCatalog;
use edgar_lib::standardizer::catalog::MetricCatalog;
use edgar_lib::standardizer::catalog::MetricDefinition;
use edgar_lib::standardizer::coverage::search_keyword_candidates;
use edgar_lib::standardizer::coverage::search_keywords;
use edgar_lib::standardizer::coverage::statement_gap_checks;
use edgar_lib::standardizer::coverage::CoverageAnalyzer;
use edgar_lib::standardizer::coverage::ResolvedPeriod;
use edgar_lib::standardizer::engine::FactRef;
use edgar_lib::standardizer::engine::FactSeries;
use edgar_lib::standardizer::output::StandardMetric;
use edgar_lib::standardizer::resolution::MetricResolution;
use edgar_lib::standardizer::resolution::TagSpec;

fn company(sic: Option<&str>) -> Company {
    Company {
        cik: 320193,
        name: "Test Co".to_string(),
        tickers: vec![],
        exchanges: vec![],
        sic: sic.map(|s| s.to_string()),
        sic_description: None,
        state_of_incorporation: None,
        fiscal_year_end: Some("1231".to_string()),
        entity_type: None,
        category: None,
        ein: None,
        phone: None,
        website: None,
        investor_website: None,
        description: None,
    }
}

fn annual_fact(end: &str, filed: &str) -> FactValue {
    FactValue {
        filed: filed.to_string(),
        start: None,
        end: end.to_string(),
        has_val: true,
        accession: "a".to_string(),
        form: Some("10-K".to_string()),
        fiscal_year: Some(2023),
        fiscal_period: Some("FY".to_string()),
        frame: None,
    }
}

fn series(taxonomy: &str, tag: &str, label: Option<&str>, unit: &str, facts: Vec<FactValue>) -> FactSeries {
    FactSeries {
        taxonomy: taxonomy.to_string(),
        tag: tag.to_string(),
        label: label.map(|s| s.to_string()),
        unit: unit.to_string(),
        facts,
    }
}

fn first_match(metric: StandardMetric, tags: &[&str]) -> MetricDefinition {
    MetricDefinition {
        metric,
        resolution: MetricResolution::FirstMatch(tags.iter().map(|t| TagSpec::gaap(t)).collect()),
    }
}

#[test]
fn keywords_for_revenue_and_ratios() {
    assert_eq!(search_keywords(&StandardMetric::Revenue), vec!["revenue", "sales", "net sales"]);
    assert!(search_keywords(&StandardMetric::ReturnOnEquity).is_empty());
}

#[test]
fn candidate_found_by_label_keyword() {
    let s = vec![series(
        "us-gaap",
        "WidgetIncome",
        Some("Net Sales of Widgets"),
        "USD",
        vec![annual_fact("2022-12-31", "2023-02-01"), annual_fact("2023-12-31", "2024-02-01")],
    )];
    let c = search_keyword_candidates(&StandardMetric::Revenue, &s, &vec![]);
    assert_eq!(c.len(), 1);
    assert_eq!(c[0].taxonomy, "us-gaap");
    assert_eq!(c[0].tag, "WidgetIncome");
    assert_eq!(c[0].label.as_deref(), Some("Net Sales of Widgets"));
    // "revenue" does not occur; "sales" is the first keyword that does.
    assert_eq!(c[0].match_reason, "keyword: sales");
    assert_eq!(c[0].latest_value, Some(FactRef { series: 0, fact: 1 }));
    assert_eq!(c[0].unit, "USD");
}

#[test]
fn candidate_found_by_tag_name_case_insensitively() {
    let s = vec![series("us-gaap", "GoodwillGross", None, "USD", vec![])];
    let c = search_keyword_candidates(&StandardMetric::Goodwill, &s, &vec![]);
    assert_eq!(c.len(), 1);
    assert_eq!(c[0].match_reason, "keyword: goodwill");
    assert_eq!(c[0].latest_value, None);
    assert_eq!(c[0].unit, "unknown");
}

#[test]
fn known_tags_are_not_candidates() {
    let s = vec![series("us-gaap", "Revenues", Some("Revenues"), "USD", vec![])];
    let defs = vec![first_match(StandardMetric::Revenue, &["Revenues"])];
    let c = search_keyword_candidates(&StandardMetric::Revenue, &s, &defs);
    assert!(c.is_empty());
}

#[test]
fn a_tag_in_two_units_is_proposed_once() {
    let s = vec![
        series("us-gaap", "SalesOther", None, "USD", vec![annual_fact("2022-12-31", "2023-01-01")]),
        series("us-gaap", "SalesOther", None, "EUR", vec![annual_fact("2023-12-31", "2024-01-01")]),
    ];
    let c = search_keyword_candidates(&StandardMetric::Revenue, &s, &vec![]);
    assert_eq!(c.len(), 1);
    // The latest annual value over both units is the 2023 one, in EUR.
    assert_eq!(c[0].latest_value, Some(FactRef { series: 1, fact: 0 }));
    assert_eq!(c[0].unit, "EUR");
}

#[test]
fn latest_value_skips_quarterly_and_missing_amounts() {
    let mut q = annual_fact("2024-03-31", "2024-05-01");
    q.fiscal_period = Some("Q1".to_string());
    let mut no_val = annual_fact("2024-12-31", "2025-02-01");
    no_val.has_val = false;
    let s = vec![series(
        "us-gaap",
        "SalesMisc",
        None,
        "USD",
        vec![annual_fact("2023-12-31", "2024-02-01"), q, no_val],
    )];
    let c = search_keyword_candidates(&StandardMetric::Revenue, &s, &vec![]);
    assert_eq!(c[0].latest_value, Some(FactRef { series: 0, fact: 0 }));
}

#[test]
fn latest_value_ties_keep_the_first() {
    let s = vec![series(
        "us-gaap",
        "SalesMisc",
        None,
        "USD",
        vec![annual_fact("2023-12-31", "2024-02-01"), annual_fact("2023-12-31", "2024-03-01")],
    )];
    let c = search_keyword_candidates(&StandardMetric::Revenue, &s, &vec![]);
    assert_eq!(c[0].latest_value, Some(FactRef { series: 0, fact: 0 }));
}

#[test]
fn metric_without_keywords_has_no_candidates() {
    let s = vec![series("us-gaap", "ReturnOnEquityRatio", Some("return on equity"), "pure", vec![])];
    let c = search_keyword_candidates(&StandardMetric::ReturnOnEquity, &s, &vec![]);
    assert!(c.is_empty());
}

#[test]
fn analyze_counts_resolved_and_missing() {
    let defs = vec![
        first_match(StandardMetric::Revenue, &["Revenues"]),
        first_match(StandardMetric::NetIncome, &["NetIncomeLoss", "ProfitLoss"]),
        MetricDefinition { metric: StandardMetric::ReturnOnEquity, resolution: MetricResolution::Custom(0) },
    ];
    let s = vec![series("us-gaap", "NetEarningsAdjusted", Some("Net earnings"), "USD", vec![])];
    let latest = ResolvedPeriod { period: FiscalPeriod { year: 2023, quarter: None }, metrics: vec![StandardMetric::Revenue] };
    let r = CoverageAnalyzer::analyze("Test Co", &s, &company(None), Some(&latest), Some(&defs));
    assert_eq!(r.entity_name, "Test Co");
    assert_eq!(r.period, FiscalPeriod { year: 2023, quarter: None });
    assert_eq!(r.expected_count, 2);
    assert_eq!(r.resolved_count, 1);
    assert_eq!(r.missing_metrics.len(), 1);
    let m = &r.missing_metrics[0];
    assert_eq!(m.metric, StandardMetric::NetIncome);
    assert_eq!(m.display_name, "Net Income");
    assert_eq!(m.tags_tried, vec!["us-gaap:NetIncomeLoss".to_string(), "us-gaap:ProfitLoss".to_string()]);
    assert_eq!(m.candidates.len(), 1);
    assert_eq!(m.candidates[0].match_reason, "keyword: net earnings");
}

#[test]
fn analyze_without_latest_period_reports_everything_missing() {
    let defs = vec![first_match(StandardMetric::Revenue, &["Revenues"])];
    let r = CoverageAnalyzer::analyze("X", &[], &company(None), None, Some(&defs));
    assert_eq!(r.period, FiscalPeriod { year: 0, quarter: None });
    assert_eq!(r.expected_count, 1);
    assert_eq!(r.resolved_count, 0);
    assert_eq!(r.missing_metrics.len(), 1);
    assert!(r.missing_metrics[0].candidates.is_empty());
}

#[test]
fn analyze_with_default_catalog_expects_every_primary_metric() {
    let r = CoverageAnalyzer::analyze("X", &[], &company(None), None, None);
    let primary = DefaultCatalog
        .definitions()
        .iter()
        .filter(|d| !matches!(d.resolution, MetricResolution::Custom(_)))
        .count();
    assert_eq!(r.expected_count, primary);
    assert_eq!(r.resolved_count + r.missing_metrics.len(), r.expected_count);
}

#[test]
fn analyze_adds_sector_definitions() {
    let plain = CoverageAnalyzer::analyze("X", &[], &company(None), None, None);
    let bank = CoverageAnalyzer::analyze("X", &[], &company(Some("6021")), None, None);
    assert!(bank.expected_count > plain.expected_count);
}

#[test]
fn gap_checks_cover_four_totals() {
    let checks = statement_gap_checks();
    let totals: Vec<StandardMetric> = checks.iter().map(|c| c.total).collect();
    assert_eq!(
        totals,
        vec![
            StandardMetric::OperatingExpenses,
            StandardMetric::TotalAssets,
            StandardMetric::TotalCurrentAssets,
            StandardMetric::TotalLiabilities
        ]
    );
    assert_eq!(checks[3].components, vec![
        StandardMetric::TotalCurrentLiabilities,
        StandardMetric::LongTermDebt,
        StandardMetric::OtherNonCurrentLiabilities
    ]);
}
