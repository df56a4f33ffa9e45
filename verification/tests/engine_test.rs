use edgar_lib::dates::days_between;
use edgar_lib::models::Company;
use edgar_lib::models::FactValue;
use edgar_lib::models::FiscalPeriod;
use edgar_lib::models::Quarter;
use edgar_lib::standardizer::catalog::MetricDefinition;
use edgar_lib::standardizer::catalog::VecCatalog;
use edgar_lib::standardizer::engine::infer_unit;
use edgar_lib::standardizer::engine::FactIndex;
use edgar_lib::standardizer::engine::FactRef;
use edgar_lib::standardizer::engine::FactSeries;
use edgar_lib::standardizer::engine::Resolved;
use edgar_lib::standardizer::engine::StandardizationEngine;
use edgar_lib::standardizer::output::StandardMetric;
use edgar_lib::standardizer::period_align::classify_period;
use edgar_lib::standardizer::period_align::detect_fiscal_year_end;
use edgar_lib::standardizer::period_align::quarter_from_end_month;
use edgar_lib::standardizer::period_align::try_classify_period;
use edgar_lib::standardizer::resolution::MetricResolution;
use edgar_lib::standardizer::resolution::TagSpec;

fn company(fye: Option<&str>) -> Company {
    Company {
        cik: 320193,
        name: "Apple Inc.".to_string(),
        tickers: vec!["AAPL".to_string()],
        exchanges: vec![],
        sic: Some("3571".to_string()),
        sic_description: None,
        state_of_incorporation: None,
        fiscal_year_end: fye.map(|s| s.to_string()),
        entity_type: None,
        category: None,
        ein: None,
        phone: None,
        website: None,
        investor_website: None,
        description: None,
    }
}

fn fact(start: Option<&str>, end: &str, filed: &str, fy: Option<i32>, fp: Option<&str>, form: &str, frame: Option<&str>) -> FactValue {
    FactValue {
        filed: filed.to_string(),
        start: start.map(|s| s.to_string()),
        end: end.to_string(),
        has_val: true,
        accession: "acc".to_string(),
        form: Some(form.to_string()),
        fiscal_year: fy,
        fiscal_period: fp.map(|s| s.to_string()),
        frame: frame.map(|s| s.to_string()),
    }
}

fn fy_fact(year: i32, end: &str, filed: &str) -> FactValue {
    fact(None, end, filed, Some(year), Some("FY"), "10-K", None)
}

fn series(tag: &str, unit: &str, facts: Vec<FactValue>) -> FactSeries {
    FactSeries { taxonomy: "us-gaap".to_string(), tag: tag.to_string(), label: None, unit: unit.to_string(), facts }
}

fn annual(year: i32) -> FiscalPeriod {
    FiscalPeriod { year, quarter: None }
}

#[test]
fn fiscal_year_end_month_from_company() {
    assert_eq!(detect_fiscal_year_end(&company(Some("0930"))), 9);
    assert_eq!(detect_fiscal_year_end(&company(Some("1231"))), 12);
    assert_eq!(detect_fiscal_year_end(&company(None)), 12);
    assert_eq!(detect_fiscal_year_end(&company(Some("x1"))), 12);
    assert_eq!(detect_fiscal_year_end(&company(Some("9"))), 12);
}

#[test]
fn quarters_counted_from_fiscal_year_end() {
    assert_eq!(quarter_from_end_month(12, 9), Quarter::Q1);
    assert_eq!(quarter_from_end_month(3, 9), Quarter::Q2);
    assert_eq!(quarter_from_end_month(6, 9), Quarter::Q3);
    assert_eq!(quarter_from_end_month(9, 9), Quarter::Q4);
    assert_eq!(quarter_from_end_month(3, 12), Quarter::Q1);
}

#[test]
fn classify_uses_edgar_fields_first() {
    let f = fact(None, "2023-09-30", "2023-11-03", Some(2023), Some("Q2"), "10-Q", None);
    assert_eq!(classify_period(&f, 9), Some(FiscalPeriod { year: 2023, quarter: Some(Quarter::Q2) }));
    let f = fact(None, "2023-09-30", "2023-11-03", Some(2023), Some("Q4"), "10-K", None);
    assert_eq!(classify_period(&f, 9), Some(annual(2023)));
    let f = fact(None, "2023-09-30", "2023-11-03", Some(2023), Some("H1"), "10-K", None);
    assert_eq!(classify_period(&f, 9), None);
}

#[test]
fn classify_by_dates() {
    // A year-long duration ending in the fiscal year-end month.
    let f = fact(Some("2022-09-25"), "2023-09-30", "2023-11-03", None, None, "10-K", None);
    assert_eq!(classify_period(&f, 9), Some(annual(2023)));
    // A quarter ending in December belongs to the next fiscal year.
    let f = fact(Some("2022-09-25"), "2022-12-31", "2023-02-03", None, None, "10-Q", None);
    assert_eq!(classify_period(&f, 9), Some(FiscalPeriod { year: 2023, quarter: Some(Quarter::Q1) }));
    // An instant counts as annual.
    let f = fact(None, "2023-09-30", "2023-11-03", None, None, "10-K", None);
    assert_eq!(classify_period(&f, 9), Some(annual(2023)));
    // A half-year duration is neither.
    let f = fact(Some("2023-01-01"), "2023-06-30", "2023-08-01", None, None, "10-Q", None);
    assert_eq!(classify_period(&f, 12), None);
    // An unreadable end date classifies nothing.
    let f = fact(None, "not a date", "2023-08-01", None, None, "10-Q", None);
    assert_eq!(classify_period(&f, 12), None);
}

#[test]
fn index_lookup_and_units() {
    let idx = FactIndex::build(
        vec![
            series("Revenues", "USD", vec![fy_fact(2023, "2023-09-30", "2023-11-03")]),
            series("EarningsPerShareBasic", "USD/shares", vec![fy_fact(2023, "2023-09-30", "2023-11-03")]),
        ],
        &company(Some("0930")),
    );
    assert_eq!(idx.fy_end_month(), 9);
    assert_eq!(idx.lookup("us-gaap", "Revenues", "USD").map(|f| f.len()), Some(1));
    assert!(idx.lookup("us-gaap", "Revenues", "EUR").is_none());
    // Without a unit, the common units are tried in order.
    assert!(idx.lookup_tag(&TagSpec::gaap("EarningsPerShareBasic")).is_some());
    assert!(idx.lookup_tag(&TagSpec::gaap_usd("EarningsPerShareBasic")).is_none());
}

#[test]
fn match_tag_prefers_framed_then_latest() {
    let idx = FactIndex::build(
        vec![series(
            "Revenues",
            "USD",
            vec![
                fy_fact(2023, "2023-09-30", "2023-11-03"),
                fact(None, "2023-09-30", "2023-11-04", Some(2023), Some("FY"), "10-K", Some("CY2023")),
                fy_fact(2022, "2022-09-24", "2022-10-28"),
            ],
        )],
        &company(Some("0930")),
    );
    // The index keeps the framed 2023 fact and the 2022 fact, sorted by end.
    assert_eq!(idx.match_tag(&TagSpec::gaap("Revenues"), &annual(2023)), Some(FactRef { series: 0, fact: 1 }));
    assert_eq!(idx.match_tag(&TagSpec::gaap("Revenues"), &annual(2022)), Some(FactRef { series: 0, fact: 0 }));
    assert_eq!(idx.match_tag(&TagSpec::gaap("Revenues"), &annual(2021)), None);
    // Their positions in the input.
    assert_eq!(idx.origin(FactRef { series: 0, fact: 0 }), Some(2));
    assert_eq!(idx.origin(FactRef { series: 0, fact: 1 }), Some(1));
    assert_eq!(idx.origin(FactRef { series: 0, fact: 2 }), None);
    assert_eq!(idx.origin(FactRef { series: 1, fact: 0 }), None);
}

#[test]
fn index_holds_facts_deduplicated_and_sorted_by_end() {
    let idx = FactIndex::build(
        vec![series(
            "Revenues",
            "USD",
            vec![
                fy_fact(2023, "2023-09-30", "2023-11-03"),
                fy_fact(2021, "2021-09-25", "2021-10-29"),
                fy_fact(2023, "2023-09-30", "2023-12-01"),
                fy_fact(2022, "2022-09-24", "2022-10-28"),
            ],
        )],
        &company(Some("0930")),
    );
    let facts = idx.lookup("us-gaap", "Revenues", "USD").unwrap();
    let ends: Vec<&str> = facts.iter().map(|f| f.end.as_str()).collect();
    assert_eq!(ends, vec!["2021-09-25", "2022-09-24", "2023-09-30"]);
    // Of the two 2023 facts, the later filing is kept.
    assert_eq!(facts[2].filed, "2023-12-01");
    assert_eq!(idx.lookup_tag(&TagSpec::gaap("Revenues")).map(|f| f.len()), Some(3));
}

#[test]
fn first_match_falls_back_in_order() {
    let idx = FactIndex::build(
        vec![series("SalesRevenueNet", "USD", vec![fy_fact(2023, "2023-09-30", "2023-11-03")])],
        &company(None),
    );
    let r = MetricResolution::FirstMatch(vec![TagSpec::gaap("Revenues"), TagSpec::gaap("SalesRevenueNet")]);
    match idx.resolve_for_period(&r, &annual(2023)) {
        Some((Resolved::One(f), source)) => {
            assert_eq!(f, FactRef { series: 0, fact: 0 });
            assert_eq!(source, "us-gaap:SalesRevenueNet");
        }
        other => panic!("unexpected {other:?}"),
    }
    assert!(idx.resolve_for_period(&r, &annual(2022)).is_none());
}

#[test]
fn sum_difference_and_custom() {
    let idx = FactIndex::build(
        vec![
            series("A", "USD", vec![fy_fact(2023, "2023-12-31", "2024-02-01")]),
            series("B", "USD", vec![fy_fact(2023, "2023-12-31", "2024-02-01")]),
        ],
        &company(None),
    );
    let sum = MetricResolution::Sum(vec![TagSpec::gaap("A"), TagSpec::gaap("Missing"), TagSpec::gaap("B")]);
    match idx.resolve_for_period(&sum, &annual(2023)) {
        Some((Resolved::Sum(fs), source)) => {
            assert_eq!(fs, vec![FactRef { series: 0, fact: 0 }, FactRef { series: 1, fact: 0 }]);
            assert_eq!(source, "us-gaap:A + us-gaap:B");
        }
        other => panic!("unexpected {other:?}"),
    }
    let diff = MetricResolution::Difference(Box::new(TagSpec::gaap("A")), Box::new(TagSpec::gaap("B")));
    match idx.resolve_for_period(&diff, &annual(2023)) {
        Some((Resolved::Difference(a, b), source)) => {
            assert_eq!((a.series, b.series), (0, 1));
            assert_eq!(source, "us-gaap:A - us-gaap:B");
        }
        other => panic!("unexpected {other:?}"),
    }
    let missing = MetricResolution::Difference(Box::new(TagSpec::gaap("A")), Box::new(TagSpec::gaap("Missing")));
    assert!(idx.resolve_for_period(&missing, &annual(2023)).is_none());
    match idx.resolve_for_period(&MetricResolution::Custom(4), &annual(2023)) {
        Some((Resolved::Custom(4), source)) => assert_eq!(source, "computed"),
        other => panic!("unexpected {other:?}"),
    }
}

#[test]
fn periods_are_listed_in_order() {
    let idx = FactIndex::build(
        vec![series(
            "Revenues",
            "USD",
            vec![
                fy_fact(2023, "2023-09-30", "2023-11-03"),
                fy_fact(2021, "2021-09-25", "2021-10-29"),
                fy_fact(2022, "2022-09-24", "2022-10-28"),
                fact(None, "2023-07-01", "2023-08-04", Some(2023), Some("Q3"), "10-Q", None),
            ],
        )],
        &company(Some("0930")),
    );
    assert_eq!(idx.annual_periods(), vec![annual(2021), annual(2022), annual(2023)]);
    assert_eq!(idx.quarterly_periods(), vec![FiscalPeriod { year: 2023, quarter: Some(Quarter::Q3) }]);
}

#[test]
fn plan_resolves_revenue_each_year() {
    let idx = FactIndex::build(
        vec![series(
            "Revenues",
            "USD",
            vec![fy_fact(2022, "2022-09-24", "2022-10-28"), fy_fact(2023, "2023-09-30", "2023-11-03")],
        )],
        &company(Some("0930")),
    );
    let plan = StandardizationEngine::new().plan(&idx, &company(Some("0930")));
    assert_eq!(plan.annual.len(), 2);
    assert!(plan.annual[0].period.year < plan.annual[1].period.year);
    let revenue = plan.annual[1].primary.iter().find(|m| m.metric == StandardMetric::Revenue).unwrap();
    assert_eq!(revenue.source_tag, "us-gaap:Revenues");
    assert_eq!(revenue.unit, "USD");
    assert!(plan.quarterly.is_empty());
}

#[test]
fn units_of_metrics() {
    assert_eq!(infer_unit(&StandardMetric::SharesOutstandingBasic), "shares");
    assert_eq!(infer_unit(&StandardMetric::EarningsPerShareDiluted), "USD/shares");
    assert_eq!(infer_unit(&StandardMetric::ReturnOnEquity), "ratio");
    assert_eq!(infer_unit(&StandardMetric::Revenue), "USD");
}

#[test]
fn metric_names() {
    assert_eq!(StandardMetric::NetIncome.display_name(), "Net Income");
    assert!(StandardMetric::ReturnOnEquity.is_ratio());
    assert!(!StandardMetric::Revenue.is_ratio());
    assert_eq!(StandardMetric::ResearchAndDevelopment.variant_name(), "ResearchAndDevelopment");
    assert_eq!(StandardMetric::Custom(7).variant_name(), "Custom(7)");
}

#[test]
fn checked_classification_refuses_only_underflow() {
    // A quarter-long fact whose fiscal year-end month lies more than twelve
    // months after its end month cannot be classified.
    let f = fact(Some("2023-01-01"), "2023-03-31", "2023-05-01", None, None, "10-Q", None);
    assert_eq!(try_classify_period(&f, 16), None);
    assert_eq!(try_classify_period(&f, 12), Some(Some(FiscalPeriod { year: 2023, quarter: Some(Quarter::Q1) })));
    let f = fact(None, "2023-09-30", "2023-11-03", Some(2023), Some("FY"), "10-K", None);
    assert_eq!(try_classify_period(&f, 99), Some(Some(annual(2023))));
}

#[test]
fn engine_with_custom_catalog_plans_only_its_metrics() {
    let catalog = VecCatalog(vec![MetricDefinition {
        metric: StandardMetric::NetIncome,
        resolution: MetricResolution::FirstMatch(vec![TagSpec::gaap("NetIncomeLoss")]),
    }]);
    let idx = FactIndex::build(
        vec![
            series("Revenues", "USD", vec![fy_fact(2023, "2023-12-31", "2024-02-01")]),
            series("NetIncomeLoss", "USD", vec![fy_fact(2023, "2023-12-31", "2024-02-01")]),
        ],
        &company(None),
    );
    let plan = StandardizationEngine::with_catalog(catalog).plan(&idx, &company(None));
    assert_eq!(plan.annual.len(), 1);
    let metrics: Vec<StandardMetric> = plan.annual[0].primary.iter().map(|m| m.metric).collect();
    assert_eq!(metrics, vec![StandardMetric::NetIncome]);
    assert!(plan.annual[0].computed.is_empty());
}

#[test]
fn days_between_dates() {
    assert_eq!(days_between("2024-02-01", "2024-03-01"), Some(29));
    assert_eq!(days_between("2023-02-01", "2023-03-01"), Some(28));
    assert_eq!(days_between("2022-09-25", "2023-09-30"), Some(370));
    assert_eq!(days_between("2023-09-30", "2022-09-25"), Some(-370));
    assert_eq!(days_between("2023-02-30", "2023-03-01"), None);
    assert_eq!(days_between("soon", "2023-03-01"), None);
}
