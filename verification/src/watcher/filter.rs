//! Which feed entries a watcher reports.
use vstd::prelude::*;

use crate::models::FeedEntry;
use crate::text::distinct_strings;
use crate::text::str_eq;
use crate::text::strings_contain;
use crate::text::strings_view;
use crate::text::to_upper;
use crate::text::uppercase_of;

verus! {

/// Filter configuration for the watcher.
///
/// Each field is a set of strings, held without repeats.
#[derive(Debug, Clone)]
pub struct WatchFilter {
    /// Only emit events for these CIKs (empty = all).
    pub ciks: Vec<String>,
    /// Only emit events for these tickers (empty = all).
    pub tickers: Vec<String>,
    /// Only emit events for these form types (empty = all).
    pub form_types: Vec<String>,
}

/// The sets of strings that a filter holds.
pub struct WatchFilterView {
    pub ciks: Set<Seq<char>>,
    pub tickers: Set<Seq<char>>,
    pub form_types: Set<Seq<char>>,
}

impl View for WatchFilter {
    type V = WatchFilterView;

    open spec fn view(&self) -> WatchFilterView {
        WatchFilterView {
            ciks: strings_view(self.ciks@).to_set(),
            tickers: strings_view(self.tickers@).to_set(),
            form_types: strings_view(self.form_types@).to_set(),
        }
    }
}

/// A set of strings constrains a field: empty means any value passes,
/// otherwise the field must be present and in the set.
pub open spec fn passes(set: Set<Seq<char>>, field: Option<String>) -> bool {
    set.is_empty() || (field matches Some(v) && set.contains(v@))
}

/// One entry of a CIK-to-ticker map: a company's CIK, written as feed
/// entries write it, and one of its tickers.
#[derive(Debug, Clone)]
pub struct CikTicker {
    pub cik: String,
    pub ticker: String,
}

/// A set of tickers constrains an entry: empty means any entry passes,
/// otherwise the entry must have a CIK that the map gives a ticker in the
/// set (tickers compared in upper case).
pub open spec fn ticker_passes(tickers: Set<Seq<char>>, cik: Option<String>, map: Seq<CikTicker>) -> bool {
    tickers.is_empty() || (cik matches Some(c) && exists|i: int|
        0 <= i < map.len() && (#[trigger] map[i]).cik@ == c@ && tickers.contains(uppercase_of(map[i].ticker@)))
}

/// An entry passes a filter: its CIK, its form type and its company's
/// tickers (through `map`) pass their sets.
pub open spec fn filter_accepts(f: WatchFilterView, map: Seq<CikTicker>, entry: FeedEntry) -> bool {
    passes(f.ciks, entry.cik) && passes(f.form_types, entry.form_type) && ticker_passes(f.tickers, entry.cik, map)
}

proof fn lemma_empty_seq_set(s: Seq<Seq<char>>)
    ensures
        s.to_set().is_empty() <==> s.len() == 0,
{
    if s.len() > 0 {
        assert(s.to_set().contains(s[0]));
    } else {
        assert(s.to_set() =~= Set::empty());
    }
}

fn passes_exec(set: &Vec<String>, field: &Option<String>) -> (r: bool)
    ensures
        r == passes(strings_view(set@).to_set(), *field),
{
    proof {
        lemma_empty_seq_set(strings_view(set@));
    }
    if set.len() == 0 {
        return true;
    }
    match field {
        Some(v) => strings_contain(set, v.as_str()),
        None => false,
    }
}

fn ticker_passes_exec(tickers: &Vec<String>, cik: &Option<String>, map: &[CikTicker]) -> (r: bool)
    ensures
        r == ticker_passes(strings_view(tickers@).to_set(), *cik, map@),
{
    proof {
        lemma_empty_seq_set(strings_view(tickers@));
    }
    if tickers.len() == 0 {
        return true;
    }
    let c = match cik {
        Some(c) => c,
        None => return false,
    };
    assert(*cik == Some(*c));
    let ghost set = strings_view(tickers@).to_set();
    let mut i: usize = 0;
    while i < map.len()
        invariant
            i <= map@.len(),
            *cik == Some(*c),
            tickers@.len() > 0,
            set == strings_view(tickers@).to_set(),
            forall|j: int|
                0 <= j < i ==> !((#[trigger] map@[j]).cik@ == c@ && set.contains(uppercase_of(map@[j].ticker@))),
        decreases map.len() - i,
    {
        if str_eq(map[i].cik.as_str(), c.as_str()) {
            let upper = to_upper(map[i].ticker.as_str());
            if strings_contain(tickers, upper.as_str()) {
                proof {
                    assert(strings_view(tickers@).contains(upper@));
                    assert(set.contains(upper@));
                    assert(map@[i as int].cik@ == c@ && set.contains(uppercase_of(map@[i as int].ticker@)));
                    assert(exists|j: int|
                        0 <= j < map@.len() && (#[trigger] map@[j]).cik@ == c@ && set.contains(
                            uppercase_of(map@[j].ticker@),
                        ));
                }
                return true;
            }
        }
        i = i + 1;
    }
    false
}

impl WatchFilter {
    /// A filter that lets every entry pass.
    pub fn new() -> (r: Self)
        ensures
            r@.ciks.is_empty(),
            r@.tickers.is_empty(),
            r@.form_types.is_empty(),
    {
        let r = WatchFilter { ciks: Vec::new(), tickers: Vec::new(), form_types: Vec::new() };
        proof {
            lemma_empty_seq_set(strings_view(r.ciks@));
            lemma_empty_seq_set(strings_view(r.tickers@));
            lemma_empty_seq_set(strings_view(r.form_types@));
        }
        r
    }

    /// Only entries with one of these CIKs pass.
    pub fn with_ciks(self, ciks: Vec<String>) -> (r: Self)
        ensures
            r@.ciks == strings_view(ciks@).to_set(),
            r@.tickers == self@.tickers,
            r@.form_types == self@.form_types,
    {
        let mut s = self;
        s.ciks = distinct_strings(ciks);
        s
    }

    /// Only entries of companies with one of these tickers pass; tickers
    /// are kept in upper case.
    pub fn with_tickers(self, tickers: Vec<String>) -> (r: Self)
        ensures
            r@.tickers == strings_view(tickers@).map_values(|t: Seq<char>| uppercase_of(t)).to_set(),
            r@.ciks == self@.ciks,
            r@.form_types == self@.form_types,
    {
        let mut upper: Vec<String> = Vec::new();
        let mut i: usize = 0;
        while i < tickers.len()
            invariant
                i <= tickers@.len(),
                upper@.len() == i,
                forall|j: int| 0 <= j < i ==> (#[trigger] upper@[j])@ == uppercase_of(tickers@[j]@),
            decreases tickers.len() - i,
        {
            upper.push(to_upper(tickers[i].as_str()));
            i = i + 1;
        }
        assert(strings_view(upper@) =~= strings_view(tickers@).map_values(
            |t: Seq<char>| uppercase_of(t),
        ));
        let mut s = self;
        s.tickers = distinct_strings(upper);
        s
    }

    /// Only entries with one of these form types pass.
    pub fn with_form_types(self, types: Vec<String>) -> (r: Self)
        ensures
            r@.form_types == strings_view(types@).to_set(),
            r@.ciks == self@.ciks,
            r@.tickers == self@.tickers,
    {
        let mut s = self;
        s.form_types = distinct_strings(types);
        s
    }

    /// Check if a feed entry passes this filter; `ticker_map` gives the
    /// tickers of each CIK.
    pub fn matches(&self, entry: &FeedEntry, ticker_map: &[CikTicker]) -> (r: bool)
        ensures
            r == filter_accepts(self@, ticker_map@, *entry),
    {
        // CIK filter
        if !passes_exec(&self.ciks, &entry.cik) {
            return false;
        }
        // Form type filter
        if !passes_exec(&self.form_types, &entry.form_type) {
            return false;
        }
        // Ticker filter, through the ticker map
        ticker_passes_exec(&self.tickers, &entry.cik, ticker_map)
    }
}

impl Default for WatchFilter {
    fn default() -> (r: Self)
        ensures
            r@.ciks.is_empty(),
            r@.tickers.is_empty(),
            r@.form_types.is_empty(),
    {
        WatchFilter::new()
    }
}

/// An empty filter lets every entry pass, whatever the ticker map.
pub proof fn lemma_empty_filter_accepts_all(f: WatchFilterView, map: Seq<CikTicker>, entry: FeedEntry)
    requires
        f.ciks.is_empty(),
        f.tickers.is_empty(),
        f.form_types.is_empty(),
    ensures
        filter_accepts(f, map, entry),
{
}

} // verus!
