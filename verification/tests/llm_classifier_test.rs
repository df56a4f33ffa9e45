use edgar_lib::standardizer::coverage::MissingMetric;
use edgar_lib::standardizer::engine::FactRef;
use edgar_lib::standardizer::llm_classifier::build_prompt;
use edgar_lib::standardizer::llm_classifier::classification_json_span;
use edgar_lib::standardizer::llm_classifier::classification_prompt;
use edgar_lib::standardizer::llm_classifier::classification_to_candidate;
use edgar_lib::standardizer::llm_classifier::strip_taxonomy_prefix;
use edgar_lib::standardizer::llm_classifier::LlmClassification;
use edgar_lib::standardizer::llm_classifier::UnmatchedTag;
use edgar_lib::standardizer::output::StandardMetric;

fn missing(metric: StandardMetric, name: &str) -> MissingMetric {
    MissingMetric { metric, display_name: name.to_string(), tags_tried: vec![], candidates: vec![] }
}

fn unmatched(taxonomy: &str, tag: &str, label: Option<&str>, latest: Option<FactRef>) -> UnmatchedTag {
    UnmatchedTag {
        taxonomy: taxonomy.to_string(),
        tag: tag.to_string(),
        label: label.map(|s| s.to_string()),
        latest_value: latest,
    }
}

fn classification(taxonomy: &str, tag: &str) -> LlmClassification {
    LlmClassification {
        metric: "ResearchAndDevelopment".to_string(),
        tag: tag.to_string(),
        taxonomy: taxonomy.to_string(),
        confidence: "high".to_string(),
        reasoning: "tech spend".to_string(),
    }
}

#[test]
fn strip_prefix_takes_text_after_last_colon() {
    assert_eq!(strip_taxonomy_prefix("us-gaap:RetainedEarningsAccumulatedDeficit"), "RetainedEarningsAccumulatedDeficit");
    assert_eq!(strip_taxonomy_prefix("Plain"), "Plain");
    assert_eq!(strip_taxonomy_prefix("a:b:c"), "c");
    assert_eq!(strip_taxonomy_prefix("trailing:"), "");
    // Stripping twice changes nothing more.
    assert_eq!(strip_taxonomy_prefix(strip_taxonomy_prefix("x:y")), "y");
}

#[test]
fn candidate_takes_label_and_value_of_matching_tag() {
    let tags = vec![
        unmatched("us-gaap", "Other", Some("Other"), None),
        unmatched("us-gaap", "TechnologyAndContentExpense", Some("Technology and content"), Some(FactRef { series: 3, fact: 7 })),
        unmatched("us-gaap", "TechnologyAndContentExpense", Some("Second"), None),
    ];
    let c = classification_to_candidate(&classification("us-gaap", "us-gaap:TechnologyAndContentExpense"), &tags).unwrap();
    assert_eq!(c.taxonomy, "us-gaap");
    assert_eq!(c.tag, "TechnologyAndContentExpense");
    assert_eq!(c.label.as_deref(), Some("Technology and content"));
    assert_eq!(c.latest_value, Some(FactRef { series: 3, fact: 7 }));
    assert_eq!(c.unit, "USD");
    assert_eq!(c.match_reason, "llm: tech spend (confidence: high)");
}

#[test]
fn candidate_without_matching_tag_has_no_label() {
    let c = classification_to_candidate(&classification("us-gaap", "Unknown"), &[]).unwrap();
    assert_eq!(c.tag, "Unknown");
    assert_eq!(c.label, None);
    assert_eq!(c.latest_value, None);
    assert_eq!(c.unit, "USD");
}

#[test]
fn json_span_from_first_open_to_last_close_bracket() {
    assert_eq!(
        classification_json_span("Here you go:\n```json\n[{\"a\": [1]}]\n```").as_deref(),
        Some("[{\"a\": [1]}]")
    );
    assert_eq!(classification_json_span("  []  ").as_deref(), Some("[]"));
    assert_eq!(classification_json_span("no array here"), None);
    assert_eq!(classification_json_span("[ unterminated"), None);
    assert_eq!(classification_json_span("only ] close"), None);
    assert_eq!(classification_json_span("]["), Some(String::new()));
}

#[test]
fn prompt_lists_metrics_tags_and_instructions() {
    let ms = vec![missing(StandardMetric::ResearchAndDevelopment, "Research & Development")];
    let ts = vec![
        unmatched("us-gaap", "TechnologyAndContentExpense", Some("Technology and content"), None),
        unmatched("us-gaap", "Misc", None, None),
    ];
    let vs = vec![Some("$85622000000".to_string()), None];
    let p = build_prompt("AMAZON.COM, INC.", &ms, &ts, &vs);
    assert!(p.starts_with("You are analyzing XBRL financial data for AMAZON.COM, INC..\nThe following standard financial metrics could not be resolved from known XBRL tags:\n\n"));
    assert!(p.contains("- Research & Development (ResearchAndDevelopment)\n"));
    assert!(p.contains("- us-gaap:TechnologyAndContentExpense | Label: Technology and content | Latest annual value: $85622000000\n"));
    assert!(p.contains("- us-gaap:Misc | Label: (no label) | Latest annual value: N/A\n"));
    assert!(!p.contains("more tags"));
    assert!(p.contains("\"taxonomy\": \"us-gaap\", \"confidence\": \"high|medium|low\""));
    assert!(p.ends_with("Only include matches you are confident about. It's fine to return an empty array [].\n"));
}

#[test]
fn prompt_lists_at_most_one_hundred_tags() {
    let ms = vec![missing(StandardMetric::Revenue, "Revenue")];
    let ts: Vec<UnmatchedTag> = (0..103).map(|i| unmatched("us-gaap", &format!("Tag{i}"), None, None)).collect();
    let vs = vec![None; 103];
    let p = build_prompt("X", &ms, &ts, &vs);
    assert!(p.contains("us-gaap:Tag99 |"));
    assert!(!p.contains("us-gaap:Tag100 |"));
    assert!(p.contains("  ... and 3 more tags\n"));
}

#[test]
fn nothing_to_classify_gives_no_prompt() {
    let ms = vec![missing(StandardMetric::Revenue, "Revenue")];
    let ts = vec![unmatched("us-gaap", "A", None, None)];
    assert!(classification_prompt("X", &[], &ts, &[None]).is_none());
    assert!(classification_prompt("X", &ms, &[], &[]).is_none());
    assert_eq!(classification_prompt("X", &ms, &ts, &[None]), Some(build_prompt("X", &ms, &ts, &[None])));
}
