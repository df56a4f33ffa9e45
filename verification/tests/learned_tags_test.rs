use edgar_lib::standardizer::learned_tags::LearnedTagEntry;
use edgar_lib::standardizer::learned_tags::LearnedTagStore;
use edgar_lib::standardizer::output::StandardMetric;

#[test]
fn test_store_dedup() {
    let mut store = LearnedTagStore::from_parts("/tmp/test.json".to_string(), Vec::new());

    let entry = LearnedTagEntry {
        metric: StandardMetric::Revenue,
        taxonomy: "us-gaap".to_string(),
        tag: "Revenues".to_string(),
        unit: "USD".to_string(),
        label: None,
        confidence: "high".to_string(),
        source: "llm".to_string(),
        source_entity: "TEST".to_string(),
        discovered_at: "2026-02-08".to_string(),
        approved: true,
        category: None,
        review_reason: None,
    };

    store.add(entry.clone());
    store.add(entry);

    assert_eq!(store.entries().len(), 1);
}

use edgar_lib::standardizer::catalog::MetricDefinition;
use edgar_lib::standardizer::learned_tags::augment_definitions;
use edgar_lib::standardizer::resolution::MetricResolution;
use edgar_lib::standardizer::resolution::TagSpec;

#[test]
fn test_augment_prepends_to_first_match() {
    let mut defs = vec![MetricDefinition {
        metric: StandardMetric::ResearchAndDevelopment,
        resolution: MetricResolution::FirstMatch(vec![TagSpec::gaap("ResearchAndDevelopmentExpense")]),
    }];

    let entries = vec![LearnedTagEntry {
        metric: StandardMetric::ResearchAndDevelopment,
        taxonomy: "us-gaap".to_string(),
        tag: "TechnologyAndContentExpense".to_string(),
        unit: "USD".to_string(),
        label: Some("Technology and content".to_string()),
        confidence: "high".to_string(),
        source: "llm".to_string(),
        source_entity: "AMAZON.COM, INC.".to_string(),
        discovered_at: "2026-02-08".to_string(),
        approved: true,
        category: None,
        review_reason: None,
    }];

    augment_definitions(&mut defs, &entries);

    assert_eq!(defs.len(), 1);
    match &defs[0].resolution {
        MetricResolution::FirstMatch(specs) => {
            assert_eq!(specs.len(), 2);
            assert_eq!(specs[0].tag, "TechnologyAndContentExpense");
            assert_eq!(specs[1].tag, "ResearchAndDevelopmentExpense");
        }
        _ => panic!("Expected FirstMatch"),
    }
}

#[test]
fn test_augment_skips_unapproved() {
    let mut defs = vec![MetricDefinition {
        metric: StandardMetric::Revenue,
        resolution: MetricResolution::FirstMatch(vec![TagSpec::gaap("Revenues")]),
    }];

    let entries = vec![LearnedTagEntry {
        metric: StandardMetric::Revenue,
        taxonomy: "us-gaap".to_string(),
        tag: "SomeOtherTag".to_string(),
        unit: "USD".to_string(),
        label: None,
        confidence: "medium".to_string(),
        source: "keyword".to_string(),
        source_entity: "TEST CO".to_string(),
        discovered_at: "2026-02-08".to_string(),
        approved: false,
        category: None,
        review_reason: None,
    }];

    augment_definitions(&mut defs, &entries);

    match &defs[0].resolution {
        MetricResolution::FirstMatch(specs) => {
            assert_eq!(specs.len(), 1);
            assert_eq!(specs[0].tag, "Revenues");
        }
        _ => panic!("Expected FirstMatch"),
    }
}

#[test]
fn test_augment_creates_new_definition() {
    let mut defs = Vec::new();

    let entries = vec![LearnedTagEntry {
        metric: StandardMetric::ResearchAndDevelopment,
        taxonomy: "us-gaap".to_string(),
        tag: "TechnologyAndContentExpense".to_string(),
        unit: "USD".to_string(),
        label: None,
        confidence: "high".to_string(),
        source: "llm".to_string(),
        source_entity: "TEST CO".to_string(),
        discovered_at: "2026-02-08".to_string(),
        approved: true,
        category: None,
        review_reason: None,
    }];

    augment_definitions(&mut defs, &entries);

    assert_eq!(defs.len(), 1);
    assert_eq!(defs[0].metric, StandardMetric::ResearchAndDevelopment);
}

#[test]
fn new_entry_is_dated_today_and_uncategorized() {
    let e = LearnedTagStore::new_entry(
        StandardMetric::Revenue,
        "us-gaap".to_string(),
        "Revenues".to_string(),
        "USD".to_string(),
        None,
        "high".to_string(),
        "llm".to_string(),
        "TEST".to_string(),
        true,
    );
    assert_eq!(e.discovered_at.len(), 10);
    assert_eq!(&e.discovered_at[4..5], "-");
    assert_eq!(&e.discovered_at[7..8], "-");
    assert!(e.discovered_at[..4].parse::<u32>().unwrap() >= 2024);
    assert_eq!(e.category, None);
    assert_eq!(e.review_reason, None);
    assert!(e.approved);
}

#[test]
fn add_strips_prefixes_before_deduplicating() {
    let mut store = LearnedTagStore::from_parts("/tmp/x.json".to_string(), Vec::new());
    let mut e = LearnedTagStore::new_entry(
        StandardMetric::Revenue,
        "us-gaap".to_string(),
        "us-gaap:Revenues".to_string(),
        "USD".to_string(),
        None,
        "high".to_string(),
        "llm".to_string(),
        "TEST".to_string(),
        true,
    );
    store.add(e.clone());
    assert_eq!(store.entries()[0].tag, "Revenues");
    e.tag = "Revenues".to_string();
    store.add(e.clone());
    assert_eq!(store.entries().len(), 1);
    // Same tag for another metric is a different key.
    e.metric = StandardMetric::NetIncome;
    store.add(e);
    assert_eq!(store.entries().len(), 2);
    assert_eq!(store.path(), "/tmp/x.json");
}

#[test]
fn augment_appends_categorized_and_skips_garbage() {
    let mut defs = vec![MetricDefinition {
        metric: StandardMetric::Revenue,
        resolution: MetricResolution::FirstMatch(vec![TagSpec::gaap("Revenues")]),
    }];
    let mk = |tag: &str, category: Option<&str>, unit: &str| LearnedTagEntry {
        metric: StandardMetric::Revenue,
        taxonomy: "us-gaap".to_string(),
        tag: tag.to_string(),
        unit: unit.to_string(),
        label: None,
        confidence: "medium".to_string(),
        source: "llm".to_string(),
        source_entity: "TEST CO".to_string(),
        discovered_at: "2026-02-08".to_string(),
        approved: true,
        category: category.map(|c| c.to_string()),
        review_reason: None,
    };
    let entries = vec![mk("Junk", Some("garbage"), "USD"), mk("Sub", Some("subcomponent"), "unknown"), mk("Main", None, "USD")];
    augment_definitions(&mut defs, &entries);
    match &defs[0].resolution {
        MetricResolution::FirstMatch(specs) => {
            let tags: Vec<&str> = specs.iter().map(|s| s.tag.as_str()).collect();
            assert_eq!(tags, vec!["Main", "Revenues", "Sub"]);
            assert_eq!(specs[0].unit.as_deref(), Some("USD"));
            // The unit `unknown` means any unit.
            assert_eq!(specs[2].unit, None);
        }
        _ => panic!("Expected FirstMatch"),
    }
}

#[test]
fn augment_turns_other_resolutions_into_first_match() {
    let mut defs = vec![MetricDefinition {
        metric: StandardMetric::GrossProfit,
        resolution: MetricResolution::Difference(Box::new(TagSpec::gaap("Revenues")), Box::new(TagSpec::gaap("CostOfRevenue"))),
    }];
    let entry = LearnedTagEntry {
        metric: StandardMetric::GrossProfit,
        taxonomy: "us-gaap".to_string(),
        tag: "GrossProfit".to_string(),
        unit: "USD".to_string(),
        label: None,
        confidence: "high".to_string(),
        source: "llm".to_string(),
        source_entity: "TEST CO".to_string(),
        discovered_at: "2026-02-08".to_string(),
        approved: true,
        category: None,
        review_reason: None,
    };
    augment_definitions(&mut defs, &[entry]);
    match &defs[0].resolution {
        MetricResolution::FirstMatch(specs) => {
            let tags: Vec<&str> = specs.iter().map(|s| s.tag.as_str()).collect();
            assert_eq!(tags, vec!["GrossProfit", "Revenues", "CostOfRevenue"]);
        }
        _ => panic!("Expected FirstMatch"),
    }
}

#[test]
fn skipped_entries_do_not_change_augmentation() {
    let base = || vec![MetricDefinition {
        metric: StandardMetric::Revenue,
        resolution: MetricResolution::FirstMatch(vec![TagSpec::gaap("Revenues")]),
    }];
    let mk = |tag: &str, approved: bool, category: Option<&str>| LearnedTagEntry {
        metric: StandardMetric::Revenue,
        taxonomy: "us-gaap".to_string(),
        tag: tag.to_string(),
        unit: "USD".to_string(),
        label: None,
        confidence: "high".to_string(),
        source: "llm".to_string(),
        source_entity: "TEST CO".to_string(),
        discovered_at: "2026-02-08".to_string(),
        approved,
        category: category.map(|c| c.to_string()),
        review_reason: None,
    };
    let all = vec![mk("A", false, None), mk("B", true, None), mk("C", true, Some("garbage")), mk("D", true, Some("sub"))];
    let kept: Vec<LearnedTagEntry> = all.iter().filter(|e| e.approved && e.category.as_deref() != Some("garbage")).cloned().collect();
    let mut with_all = base();
    augment_definitions(&mut with_all, &all);
    let mut with_kept = base();
    augment_definitions(&mut with_kept, &kept);
    let tags = |d: &Vec<MetricDefinition>| match &d[0].resolution {
        MetricResolution::FirstMatch(specs) => specs.iter().map(|s| s.tag.clone()).collect::<Vec<_>>(),
        _ => panic!("Expected FirstMatch"),
    };
    assert_eq!(tags(&with_all), vec!["B", "Revenues", "D"]);
    assert_eq!(tags(&with_all), tags(&with_kept));
}
