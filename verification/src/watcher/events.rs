//! Events emitted by the filing watcher.
use vstd::prelude::*;

use crate::models::FeedEntry;
use crate::standardizer::engine::opt_chars;

verus! {

/// Events emitted by the filing watcher.
#[derive(Debug, Clone)]
pub enum WatcherEvent {
    /// A new filing was detected.
    NewFiling(FeedEntry),
    /// The watcher encountered an error but will continue.
    Error(String),
    /// The watcher has started.
    Started,
    /// The watcher has stopped.
    Stopped,
}

/// Handles watcher events; implement this to act on new filings.
pub trait EventHandler {
    fn handle(&self, event: WatcherEvent);
}

/// Simple event handler that prints each event, errors included, as one
/// line on standard output.
#[derive(Debug, Clone, Copy)]
pub struct PrintHandler;

/// An optional text, or `Unknown` when absent.
pub open spec fn or_unknown(o: Option<Seq<char>>) -> Seq<char> {
    match o {
        Some(s) => s,
        None => "Unknown"@,
    }
}

/// The line printed for an event.
pub open spec fn event_text(event: WatcherEvent) -> Seq<char> {
    match event {
        WatcherEvent::NewFiling(entry) => "[NEW FILING] "@ + or_unknown(opt_chars(entry.company_name)) + " - "@
            + or_unknown(opt_chars(entry.form_type)) + " ("@ + entry.title@ + ")"@,
        WatcherEvent::Error(err) => "[WATCHER ERROR] "@ + err@,
        WatcherEvent::Started => "[WATCHER] Started watching for new filings..."@,
        WatcherEvent::Stopped => "[WATCHER] Stopped."@,
    }
}

fn or_unknown_str(o: &Option<String>) -> (r: &str)
    ensures
        r@ == or_unknown(opt_chars(*o)),
{
    match o {
        Some(s) => s.as_str(),
        None => "Unknown",
    }
}

impl PrintHandler {
    /// The line this handler prints to standard output for an event.
    pub fn line(&self, event: &WatcherEvent) -> (r: String)
        ensures
            r@ == event_text(*event),
    {
        match event {
            WatcherEvent::NewFiling(entry) => {
                let mut text = String::from_str("[NEW FILING] ");
                text.append(or_unknown_str(&entry.company_name));
                text.append(" - ");
                text.append(or_unknown_str(&entry.form_type));
                text.append(" (");
                text.append(entry.title.as_str());
                text.append(")");
                text
            },
            WatcherEvent::Error(err) => {
                let mut text = String::from_str("[WATCHER ERROR] ");
                text.append(err.as_str());
                text
            },
            WatcherEvent::Started => String::from_str("[WATCHER] Started watching for new filings..."),
            WatcherEvent::Stopped => String::from_str("[WATCHER] Stopped."),
        }
    }
}

} // verus!
