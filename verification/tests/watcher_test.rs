use edgar_lib::models::FeedEntry;
use edgar_lib::watcher::events::PrintHandler;
use edgar_lib::watcher::events::WatcherEvent;
use edgar_lib::watcher::filter::CikTicker;
use edgar_lib::watcher::filter::WatchFilter;
use edgar_lib::watcher::poller::key_of;
use edgar_lib::watcher::poller::PollState;
use edgar_lib::watcher::WatcherConfig;

fn entry(accession: Option<&str>, link: &str, cik: Option<&str>, form: Option<&str>) -> FeedEntry {
    FeedEntry {
        title: format!("{} filing", form.unwrap_or("?")),
        link: link.to_string(),
        company_name: Some("Apple Inc.".to_string()),
        cik: cik.map(|s| s.to_string()),
        form_type: form.map(|s| s.to_string()),
        accession_number: accession.map(|s| s.to_string()),
    }
}

#[test]
fn empty_filter_matches_everything() {
    let f = WatchFilter::new();
    assert!(f.matches(&entry(None, "l", None, None), &[]));
    assert!(f.matches(&entry(Some("1"), "l", Some("320193"), Some("8-K")), &[]));
}

#[test]
fn form_type_filter() {
    let f = WatchFilter::new().with_form_types(vec!["10-K".to_string(), "10-Q".to_string()]);
    assert!(f.matches(&entry(None, "l", None, Some("10-K")), &[]));
    assert!(!f.matches(&entry(None, "l", None, Some("8-K")), &[]));
    // An entry without a form type does not pass a form-type filter.
    assert!(!f.matches(&entry(None, "l", None, None), &[]));
}

#[test]
fn cik_filter() {
    let f = WatchFilter::new().with_ciks(vec!["320193".to_string(), "320193".to_string()]);
    assert_eq!(f.ciks.len(), 1);
    assert!(f.matches(&entry(None, "l", Some("320193"), Some("8-K")), &[]));
    assert!(!f.matches(&entry(None, "l", Some("789019"), Some("8-K")), &[]));
    assert!(!f.matches(&entry(None, "l", None, Some("8-K")), &[]));
}

fn ticker_map() -> Vec<CikTicker> {
    vec![
        CikTicker { cik: "320193".to_string(), ticker: "aapl".to_string() },
        CikTicker { cik: "789019".to_string(), ticker: "MSFT".to_string() },
    ]
}

#[test]
fn tickers_are_kept_upper_case() {
    let f = WatchFilter::new().with_tickers(vec!["aapl".to_string(), "AAPL".to_string(), "msft".to_string()]);
    assert_eq!(f.tickers, vec!["AAPL".to_string(), "MSFT".to_string()]);
}

#[test]
fn ticker_filter_uses_the_ticker_map() {
    let f = WatchFilter::new().with_tickers(vec!["AAPL".to_string()]);
    let map = ticker_map();
    assert!(f.matches(&entry(None, "l", Some("320193"), Some("8-K")), &map));
    assert!(!f.matches(&entry(None, "l", Some("789019"), Some("8-K")), &map));
    // A CIK the map does not know, or no CIK, does not pass a ticker filter.
    assert!(!f.matches(&entry(None, "l", Some("1"), Some("8-K")), &map));
    assert!(!f.matches(&entry(None, "l", None, Some("8-K")), &map));
    // Without tickers, the map does not matter.
    assert!(WatchFilter::new().matches(&entry(None, "l", Some("1"), None), &map));
}

#[test]
fn poll_reports_only_entries_of_filtered_tickers() {
    let filter = WatchFilter::new().with_tickers(vec!["MSFT".to_string()]);
    let map = ticker_map();
    let mut state = PollState::new();
    state.on_entries(&filter, &map, &vec![]);
    let batch = vec![entry(Some("a"), "la", Some("320193"), Some("10-K")), entry(Some("m"), "lm", Some("789019"), Some("10-K"))];
    let reported = state.on_entries(&filter, &map, &batch);
    assert_eq!(reported.len(), 1);
    assert_eq!(reported[0].accession_number.as_deref(), Some("m"));
}

#[test]
fn default_config() {
    let c = WatcherConfig::default();
    assert_eq!(c.channel_capacity, 256);
    assert_eq!(c.poll_interval, std::time::Duration::from_secs(60));
    assert!(c.filter.ciks.is_empty() && c.filter.tickers.is_empty() && c.filter.form_types.is_empty());
}

#[test]
fn key_is_accession_or_link() {
    assert_eq!(key_of(&entry(Some("0001-23"), "http://x", None, None)), "0001-23");
    assert_eq!(key_of(&entry(None, "http://x", None, None)), "http://x");
}

#[test]
fn first_poll_reports_nothing_then_only_new_entries() {
    let filter = WatchFilter::new();
    let mut state = PollState::new();
    let first = vec![entry(Some("a"), "la", None, Some("10-K")), entry(Some("b"), "lb", None, Some("8-K"))];
    assert!(state.on_entries(&filter, &[], &first).is_empty());
    assert!(state.has_seen(&first[0]) && state.has_seen(&first[1]));

    let second = vec![
        entry(Some("a"), "la", None, Some("10-K")),
        entry(Some("c"), "lc", None, Some("10-Q")),
        entry(Some("c"), "lc2", None, Some("10-Q")),
    ];
    let reported = state.on_entries(&filter, &[], &second);
    assert_eq!(reported.len(), 1);
    assert_eq!(reported[0].accession_number.as_deref(), Some("c"));

    // Seen again: nothing is reported twice.
    assert!(state.on_entries(&filter, &[], &second).is_empty());
}

#[test]
fn filtered_entries_are_remembered_but_not_reported() {
    let filter = WatchFilter::new().with_form_types(vec!["10-K".to_string()]);
    let mut state = PollState::new();
    state.on_entries(&filter, &[], &vec![]);
    let batch = vec![entry(Some("x"), "lx", None, Some("8-K")), entry(Some("y"), "ly", None, Some("10-K"))];
    let reported = state.on_entries(&filter, &[], &batch);
    assert_eq!(reported.len(), 1);
    assert_eq!(reported[0].accession_number.as_deref(), Some("y"));
    assert!(state.has_seen(&batch[0]));
}

#[test]
fn trim_seen_forgets_the_oldest_half() {
    let filter = WatchFilter::new();
    let mut state = PollState::new();
    let batch: Vec<FeedEntry> = (0..10_001).map(|i| entry(Some(&format!("k{i}")), "l", None, None)).collect();
    state.on_entries(&filter, &[], &batch);
    state.trim_seen();
    assert!(!state.has_seen(&batch[0]));
    assert!(!state.has_seen(&batch[4_999]));
    assert!(state.has_seen(&batch[5_000]));
    assert!(state.has_seen(&batch[10_000]));
}

#[test]
fn print_handler_lines() {
    let h = PrintHandler;
    let l = h.line(&WatcherEvent::NewFiling(entry(None, "l", None, Some("10-K"))));
    assert_eq!(l, "[NEW FILING] Apple Inc. - 10-K (10-K filing)");
    let mut anon = entry(None, "l", None, None);
    anon.company_name = None;
    assert_eq!(h.line(&WatcherEvent::NewFiling(anon)), "[NEW FILING] Unknown - Unknown (? filing)");
    assert_eq!(h.line(&WatcherEvent::Error("timeout".to_string())), "[WATCHER ERROR] timeout");
    assert_eq!(h.line(&WatcherEvent::Started), "[WATCHER] Started watching for new filings...");
    assert_eq!(h.line(&WatcherEvent::Stopped), "[WATCHER] Stopped.");
}

#[test]
fn a_run_of_polls_reports_errors_and_new_entries() {
    let filter = WatchFilter::new();
    let mut state = PollState::new();
    let a = entry(Some("a"), "la", None, Some("10-K"));
    let b = entry(Some("b"), "lb", None, Some("10-Q"));
    // A failed poll sends its error and leaves the first poll to come.
    let ev = state.on_poll(&filter, &[], Err("timeout".to_string()));
    assert_eq!(ev.len(), 1);
    assert!(matches!(&ev[0], WatcherEvent::Error(m) if m == "timeout"));
    // The first successful poll sends nothing.
    assert!(state.on_poll(&filter, &[], Ok(vec![a.clone()])).is_empty());
    // Later polls send only entries not seen before.
    let ev = state.on_poll(&filter, &[], Ok(vec![a.clone(), b.clone(), b.clone()]));
    assert_eq!(ev.len(), 1);
    assert!(matches!(&ev[0], WatcherEvent::NewFiling(e) if e.accession_number.as_deref() == Some("b")));
    assert!(state.on_poll(&filter, &[], Ok(vec![a, b])).is_empty());
}
