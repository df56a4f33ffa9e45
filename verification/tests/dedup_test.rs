use edgar_lib::models::FactValue;
use edgar_lib::standardizer::dedup::dedup_facts;

/// A fact, and beside it the amount it carries.
fn make_fact(end: &str, filed: &str, val: f64, form: &str, frame: Option<&str>) -> (FactValue, Option<f64>) {
    (
        FactValue {
            filed: filed.to_string(),
            start: None,
            end: end.to_string(),
            has_val: true,
            accession: "test-accn".to_string(),
            form: Some(form.to_string()),
            fiscal_year: None,
            fiscal_period: None,
            frame: frame.map(|s| s.to_string()),
        },
        Some(val),
    )
}

fn split(pairs: Vec<(FactValue, Option<f64>)>) -> (Vec<FactValue>, Vec<Option<f64>>) {
    pairs.into_iter().unzip()
}

#[test]
fn test_dedup_prefers_framed() {
    let (facts, vals) = split(vec![
        make_fact("2023-09-30", "2023-11-01", 100.0, "10-K", None),
        make_fact("2023-09-30", "2023-11-03", 200.0, "10-K", Some("CY2023")),
    ]);

    let deduped = dedup_facts(&facts);
    assert_eq!(deduped.len(), 1);
    assert_eq!(vals[deduped[0]], Some(200.0)); // Framed one wins
}

#[test]
fn test_dedup_prefers_latest_filed() {
    let (facts, vals) = split(vec![
        make_fact("2023-09-30", "2023-11-01", 100.0, "10-K", None),
        make_fact("2023-09-30", "2023-12-15", 150.0, "10-K/A", None),
    ]);

    let deduped = dedup_facts(&facts);
    assert_eq!(deduped.len(), 1);
    assert_eq!(vals[deduped[0]], Some(150.0)); // Later filing wins
}

#[test]
fn test_dedup_prefers_periodic_form() {
    let (facts, vals) = split(vec![
        make_fact("2023-09-30", "2023-11-01", 100.0, "8-K", None),
        make_fact("2023-09-30", "2023-10-30", 200.0, "10-K", None),
    ]);

    let deduped = dedup_facts(&facts);
    assert_eq!(deduped.len(), 1);
    assert_eq!(vals[deduped[0]], Some(200.0)); // 10-K wins over 8-K
}

#[test]
fn test_dedup_different_periods_kept() {
    let (facts, _vals) = split(vec![
        make_fact("2022-09-24", "2022-10-28", 100.0, "10-K", Some("CY2022")),
        make_fact("2023-09-30", "2023-11-03", 200.0, "10-K", Some("CY2023")),
    ]);

    let deduped = dedup_facts(&facts);
    assert_eq!(deduped.len(), 2); // Different end dates => both kept
}

#[test]
fn test_dedup_sorted_by_end_date() {
    let (facts, _vals) = split(vec![
        make_fact("2023-09-30", "2023-11-03", 200.0, "10-K", Some("CY2023")),
        make_fact("2021-09-25", "2021-10-29", 50.0, "10-K", Some("CY2021")),
        make_fact("2022-09-24", "2022-10-28", 100.0, "10-K", Some("CY2022")),
    ]);

    let deduped = dedup_facts(&facts);
    assert_eq!(deduped.len(), 3);
    assert!(facts[deduped[0]].end < facts[deduped[1]].end);
    assert!(facts[deduped[1]].end < facts[deduped[2]].end);
}

#[test]
fn dedup_empty_input_gives_nothing() {
    let deduped = dedup_facts(&[]);
    assert!(deduped.is_empty());
}

#[test]
fn dedup_periodic_beats_later_filed_other_form() {
    // A later 8-K does not displace a 10-K for the same period.
    let (facts, vals) = split(vec![
        make_fact("2023-09-30", "2023-11-01", 100.0, "10-K", None),
        make_fact("2023-09-30", "2024-01-15", 300.0, "8-K", None),
    ]);
    let deduped = dedup_facts(&facts);
    assert_eq!(deduped.len(), 1);
    assert_eq!(vals[deduped[0]], Some(100.0));
}

#[test]
fn dedup_framed_beats_later_unframed() {
    let (facts, vals) = split(vec![
        make_fact("2023-09-30", "2023-11-03", 200.0, "10-K", Some("CY2023")),
        make_fact("2023-09-30", "2024-02-01", 250.0, "10-K/A", None),
    ]);
    let deduped = dedup_facts(&facts);
    assert_eq!(deduped.len(), 1);
    assert_eq!(vals[deduped[0]], Some(200.0));
}

#[test]
fn dedup_equal_facts_keep_the_first() {
    let (facts, _vals) = split(vec![
        make_fact("2023-09-30", "2023-11-03", 200.0, "10-K", None),
        make_fact("2023-09-30", "2023-11-03", 201.0, "10-K", None),
    ]);
    let deduped = dedup_facts(&facts);
    assert_eq!(deduped, vec![0]);
}
