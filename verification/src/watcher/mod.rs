//! Watching EDGAR's feed for new filings: which entries to report.
pub mod events;
pub mod filter;
pub mod poller;

use vstd::prelude::*;

use self::filter::WatchFilter;
use std::time::Duration;

verus! {

/// What `std::time::Duration::from_secs` gives for `secs`: a duration of
/// `secs` whole seconds.
pub uninterp spec fn duration_of_secs(secs: u64) -> Duration;

/// A duration of `secs` seconds, from `std::time::Duration::from_secs`.
///
/// Trusted: the result is the name `duration_of_secs` of `secs`.
#[verifier::external_body]
fn duration_from_secs(secs: u64) -> (r: Duration)
    ensures
        r == duration_of_secs(secs),
{
    Duration::from_secs(secs)
}

/// `Duration::clone` gives back the same duration: `Duration` is `Copy`,
/// and its `Clone` is the derived one.
pub assume_specification[ <Duration as Clone>::clone ](d: &Duration) -> (r: Duration)
    ensures
        r == *d,
;

/// Configuration for the filing watcher.
#[derive(Debug, Clone)]
pub struct WatcherConfig {
    /// How often to poll the SEC RSS feed (default: 60s).
    pub poll_interval: Duration,
    /// Filter for which filings to emit events for.
    pub filter: WatchFilter,
    /// Broadcast channel capacity (default: 256).
    pub channel_capacity: usize,
}

impl Default for WatcherConfig {
    fn default() -> (r: Self)
        ensures
            r.poll_interval == duration_of_secs(60),
            r.channel_capacity == 256,
            r.filter@.ciks.is_empty(),
            r.filter@.tickers.is_empty(),
            r.filter@.form_types.is_empty(),
    {
        WatcherConfig {
            poll_interval: duration_from_secs(60),
            filter: WatchFilter::new(),
            channel_capacity: 256,
        }
    }
}

} // verus!
