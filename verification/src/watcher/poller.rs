//! The decisions of the polling loop: which feed entries are new, and
//! which of them are reported.
use vstd::prelude::*;

use crate::models::FeedEntry;
use crate::text::lemma_push_contains;
use crate::text::strings_contain;
use crate::text::strings_view;
use crate::watcher::filter::WatchFilter;
use crate::watcher::filter::WatchFilterView;
use crate::watcher::filter::filter_accepts;
use crate::watcher::filter::CikTicker;
use crate::watcher::events::WatcherEvent;

verus! {

/// The key under which an entry is remembered: its accession number, or
/// its link where it has none.
pub open spec fn entry_key(e: FeedEntry) -> Seq<char> {
    match e.accession_number {
        Some(a) => a@,
        None => e.link@,
    }
}

/// The keys seen after handling `entries`: each new key is appended.
pub open spec fn seen_after(seen: Seq<Seq<char>>, entries: Seq<FeedEntry>) -> Seq<Seq<char>>
    decreases entries.len(),
{
    if entries.len() == 0 {
        seen
    } else {
        let before = seen_after(seen, entries.drop_last());
        let k = entry_key(entries.last());
        if before.contains(k) {
            before
        } else {
            before.push(k)
        }
    }
}

/// The entries reported when handling `entries`: those whose key was not
/// seen before them, that pass the filter, unless this is the first poll.
pub open spec fn reported(
    seen: Seq<Seq<char>>,
    first_poll: bool,
    filter: WatchFilterView,
    map: Seq<CikTicker>,
    entries: Seq<FeedEntry>,
) -> Seq<FeedEntry>
    decreases entries.len(),
{
    if entries.len() == 0 {
        Seq::empty()
    } else {
        let earlier = reported(seen, first_poll, filter, map, entries.drop_last());
        let x = entries.last();
        if !first_poll && !seen_after(seen, entries.drop_last()).contains(entry_key(x))
            && filter_accepts(filter, map, x) {
            earlier.push(x)
        } else {
            earlier
        }
    }
}

/// The state the polling loop keeps between polls.
pub struct PollState {
    /// Keys of the entries seen so far, oldest first, without repeats.
    seen: Vec<String>,
    /// No poll has succeeded yet.
    first_poll: bool,
}

/// The view of a polling state.
pub struct PollStateView {
    pub seen: Seq<Seq<char>>,
    pub first_poll: bool,
}

impl View for PollState {
    type V = PollStateView;

    closed spec fn view(&self) -> PollStateView {
        PollStateView { seen: strings_view(self.seen@), first_poll: self.first_poll }
    }
}

/// A copy of a feed entry.
pub fn copy_entry(e: &FeedEntry) -> (r: FeedEntry)
    ensures
        r == *e,
{
    FeedEntry {
        title: e.title.clone(),
        link: e.link.clone(),
        company_name: copy_opt(&e.company_name),
        cik: copy_opt(&e.cik),
        form_type: copy_opt(&e.form_type),
        accession_number: copy_opt(&e.accession_number),
    }
}

fn copy_opt(o: &Option<String>) -> (r: Option<String>)
    ensures
        r == *o,
{
    match o {
        Some(s) => Some(s.clone()),
        None => None,
    }
}

/// The key of an entry, as a string.
pub fn key_of(e: &FeedEntry) -> (r: String)
    ensures
        r@ == entry_key(*e),
{
    match &e.accession_number {
        Some(a) => a.clone(),
        None => e.link.clone(),
    }
}

/// Handling entries keeps the seen keys without repeats, and only adds
/// the keys of the entries.
pub proof fn lemma_seen_after(seen: Seq<Seq<char>>, entries: Seq<FeedEntry>, k: Seq<char>)
    requires
        seen.no_duplicates(),
    ensures
        seen_after(seen, entries).no_duplicates(),
        seen_after(seen, entries).contains(k) <==> (seen.contains(k) || entries.map_values(
            |e: FeedEntry| entry_key(e),
        ).contains(k)),
        seen.is_prefix_of(seen_after(seen, entries)),
    decreases entries.len(),
{
    if entries.len() > 0 {
        let prev = entries.drop_last();
        let x = entries.last();
        lemma_seen_after(seen, prev, k);
        let before = seen_after(seen, prev);
        let keys = entries.map_values(|e: FeedEntry| entry_key(e));
        let prev_keys = prev.map_values(|e: FeedEntry| entry_key(e));
        assert(keys =~= prev_keys.push(entry_key(x)));
        lemma_push_contains(prev_keys, entry_key(x), k);
        if !before.contains(entry_key(x)) {
            lemma_push_contains(before, entry_key(x), k);
            assert forall|a: int, b: int|
                0 <= a < b < before.push(entry_key(x)).len() implies before.push(entry_key(x))[a]
                != before.push(entry_key(x))[b] by {
                if b == before.len() {
                    assert(before[a] == before.push(entry_key(x))[a]);
                }
            }
        } else {
            lemma_seen_after(seen, prev, entry_key(x));
        }
    }
}

/// The seen keys after trimming: past 10,000 keys, the 5,000 oldest are
/// forgotten.
pub open spec fn trimmed(seen: Seq<Seq<char>>) -> Seq<Seq<char>> {
    if seen.len() > 10_000 {
        seen.skip(5_000)
    } else {
        seen
    }
}

/// The state after one poll, successful or not, and the trim that follows.
pub open spec fn poll_step(st: PollStateView, result: Result<Vec<FeedEntry>, String>) -> PollStateView {
    match result {
        Ok(es) => PollStateView { seen: trimmed(seen_after(st.seen, es@)), first_poll: false },
        Err(_) => PollStateView { seen: trimmed(st.seen), first_poll: st.first_poll },
    }
}

/// The events of one poll: a new filing for each reported entry, or the
/// error of a failed poll.
pub open spec fn step_events(
    st: PollStateView,
    filter: WatchFilterView,
    map: Seq<CikTicker>,
    result: Result<Vec<FeedEntry>, String>,
) -> Seq<WatcherEvent> {
    match result {
        Ok(es) => reported(st.seen, st.first_poll, filter, map, es@).map_values(
            |e: FeedEntry| WatcherEvent::NewFiling(e),
        ),
        Err(m) => seq![WatcherEvent::Error(m)],
    }
}

impl PollState {
    /// The state before the first poll: nothing seen.
    pub fn new() -> (s: Self)
        ensures
            s.wf(),
            s@.seen == Seq::<Seq<char>>::empty(),
            s@.first_poll,
    {
        let s = PollState { seen: Vec::new(), first_poll: true };
        assert(strings_view(s.seen@) =~= Seq::<Seq<char>>::empty());
        s
    }

    /// The keys seen so far hold no repeats.
    pub closed spec fn wf(&self) -> bool {
        strings_view(self.seen@).no_duplicates()
    }

    /// Handles the entries of a successful poll, and returns those to report.
    ///
    /// An entry whose key was seen before (in an earlier poll or earlier in
    /// this one) is skipped; the others are remembered, and reported when
    /// they pass `filter`, except on the first poll, which only fills the
    /// seen set.
    pub fn on_entries(&mut self, filter: &WatchFilter, ticker_map: &[CikTicker], entries: &Vec<FeedEntry>) -> (r: Vec<FeedEntry>)
        requires
            old(self).wf(),
        ensures
            final(self).wf(),
            r@ == reported(old(self)@.seen, old(self)@.first_poll, filter@, ticker_map@, entries@),
            final(self)@.seen == seen_after(old(self)@.seen, entries@),
            !final(self)@.first_poll,
    {
        let ghost seen0 = self@.seen;
        let first = self.first_poll;
        let mut out: Vec<FeedEntry> = Vec::new();
        let mut i: usize = 0;
        proof {
            lemma_seen_after(seen0, entries@.take(0), Seq::empty());
            assert(entries@.take(0) =~= Seq::<FeedEntry>::empty());
        }
        while i < entries.len()
            invariant
                i <= entries@.len(),
                first == old(self)@.first_poll,
                seen0 == old(self)@.seen,
                strings_view(old(self).seen@).no_duplicates(),
                strings_view(self.seen@) == seen_after(seen0, entries@.take(i as int)),
                out@ == reported(seen0, first, filter@, ticker_map@, entries@.take(i as int)),
            decreases entries.len() - i,
        {
            let entry = &entries[i];
            let key = key_of(entry);
            let ghost prefix = entries@.take(i as int);
            proof {
                assert(entries@.take(i + 1).drop_last() =~= prefix);
                assert(entries@.take(i + 1).last() == *entry);
            }
            if !strings_contain(&self.seen, key.as_str()) {
                let ghost before = strings_view(self.seen@);
                self.seen.push(key);
                assert(strings_view(self.seen@) =~= before.push(entry_key(*entry)));
                if !first && filter.matches(entry, ticker_map) {
                    out.push(copy_entry(entry));
                }
            }
            i = i + 1;
        }
        assert(entries@.take(i as int) =~= entries@);
        proof {
            lemma_seen_after(seen0, entries@, Seq::empty());
        }
        self.first_poll = false;
        out
    }

    /// Whether the key of `entry` has been seen.
    pub fn has_seen(&self, entry: &FeedEntry) -> (r: bool)
        ensures
            r == self@.seen.contains(entry_key(*entry)),
    {
        let key = key_of(entry);
        strings_contain(&self.seen, key.as_str())
    }

    /// Handles the outcome of one poll of the feed, then bounds the seen set,
    /// and returns the events to send: a new filing for each entry that
    /// `on_entries` reports, or the error of a failed poll.
    pub fn on_poll(
        &mut self,
        filter: &WatchFilter,
        ticker_map: &[CikTicker],
        result: Result<Vec<FeedEntry>, String>,
    ) -> (events: Vec<WatcherEvent>)
        requires
            old(self).wf(),
        ensures
            final(self).wf(),
            final(self)@ == poll_step(old(self)@, result),
            events@ == step_events(old(self)@, filter@, ticker_map@, result),
    {
        let ghost st = self@;
        let mut events: Vec<WatcherEvent> = Vec::new();
        match result {
            Ok(entries) => {
                let reported = self.on_entries(filter, ticker_map, &entries);
                let mut i: usize = 0;
                while i < reported.len()
                    invariant
                        i <= reported@.len(),
                        events@ == reported@.take(i as int).map_values(|e: FeedEntry| WatcherEvent::NewFiling(e)),
                    decreases reported.len() - i,
                {
                    events.push(WatcherEvent::NewFiling(copy_entry(&reported[i])));
                    assert(reported@.take(i + 1) =~= reported@.take(i as int).push(reported@[i as int]));
                    assert(events@ =~= reported@.take(i + 1).map_values(|e: FeedEntry| WatcherEvent::NewFiling(e)));
                    i = i + 1;
                }
                assert(reported@.take(i as int) =~= reported@);
            },
            Err(m) => {
                events.push(WatcherEvent::Error(m));
                assert(events@ =~= seq![WatcherEvent::Error(m)]);
            },
        }
        self.trim_seen();
        events
    }

    /// Bounds the seen set: past 10,000 keys, the 5,000 oldest are forgotten.
    pub fn trim_seen(&mut self)
        requires
            old(self).wf(),
        ensures
            final(self).wf(),
            final(self)@.first_poll == old(self)@.first_poll,
            old(self)@.seen.len() > 10_000 ==> final(self)@.seen == old(self)@.seen.skip(5_000),
            old(self)@.seen.len() <= 10_000 ==> final(self)@.seen == old(self)@.seen,
    {
        if self.seen.len() > 10_000 {
            let ghost before = self.seen@;
            let rest = self.seen.split_off(5_000);
            self.seen = rest;
            proof {
                assert(self.seen@ =~= before.skip(5_000));
                assert(strings_view(self.seen@) =~= strings_view(before).skip(5_000));
                let s = strings_view(before);
                assert forall|a: int, b: int|
                    0 <= a < b < s.skip(5_000).len() implies s.skip(5_000)[a] != s.skip(5_000)[b] by {
                    assert(s.skip(5_000)[a] == s[a + 5_000]);
                    assert(s.skip(5_000)[b] == s[b + 5_000]);
                }
            }
        }
    }
}

/// No entry is reported twice in one poll, and a reported entry's key was
/// not seen before the poll and is seen after it.
pub proof fn lemma_reported_are_new(
    seen: Seq<Seq<char>>,
    first_poll: bool,
    filter: WatchFilterView,
    map: Seq<CikTicker>,
    entries: Seq<FeedEntry>,
)
    requires
        seen.no_duplicates(),
    ensures
        forall|i: int|
            0 <= i < reported(seen, first_poll, filter, map, entries).len() ==> {
                let e = #[trigger] reported(seen, first_poll, filter, map, entries)[i];
                &&& !seen.contains(entry_key(e))
                &&& seen_after(seen, entries).contains(entry_key(e))
                &&& filter_accepts(filter, map, e)
            },
        reported(seen, first_poll, filter, map, entries).map_values(|e: FeedEntry| entry_key(e)).no_duplicates(),
    decreases entries.len(),
{
    if entries.len() > 0 {
        let prev = entries.drop_last();
        let x = entries.last();
        lemma_reported_are_new(seen, first_poll, filter, map, prev);
        let earlier = reported(seen, first_poll, filter, map, prev);
        let before = seen_after(seen, prev);
        lemma_seen_after(seen, prev, entry_key(x));
        lemma_seen_after(seen, entries, entry_key(x));
        assert forall|k: Seq<char>| before.contains(k) implies seen_after(seen, entries).contains(k) by {
            lemma_seen_after(seen, prev, k);
            lemma_seen_after(seen, entries, k);
            let keys = entries.map_values(|e: FeedEntry| entry_key(e));
            let prev_keys = prev.map_values(|e: FeedEntry| entry_key(e));
            assert(keys =~= prev_keys.push(entry_key(x)));
            lemma_push_contains(prev_keys, entry_key(x), k);
        }
        if !first_poll && !before.contains(entry_key(x)) && filter_accepts(filter, map, x) {
            let r = earlier.push(x);
            assert forall|i: int| 0 <= i < r.len() implies {
                let e = #[trigger] r[i];
                &&& !seen.contains(entry_key(e))
                &&& seen_after(seen, entries).contains(entry_key(e))
                &&& filter_accepts(filter, map, e)
            } by {
                if i < earlier.len() {
                    assert(r[i] == earlier[i]);
                    assert(before.contains(entry_key(earlier[i])));
                } else {
                    let keys = entries.map_values(|e: FeedEntry| entry_key(e));
                    assert(keys[entries.len() - 1] == entry_key(x));
                    assert(keys.contains(entry_key(x)));
                }
            }
            let ek = earlier.map_values(|e: FeedEntry| entry_key(e));
            assert(r.map_values(|e: FeedEntry| entry_key(e)) =~= ek.push(entry_key(x)));
            assert forall|a: int| 0 <= a < ek.len() implies ek[a] != entry_key(x) by {
                assert(ek[a] == entry_key(earlier[a]));
                assert(seen_after(seen, prev).contains(entry_key(earlier[a])));
            }
            assert forall|a: int, b: int|
                0 <= a < b < ek.push(entry_key(x)).len() implies ek.push(entry_key(x))[a]
                != ek.push(entry_key(x))[b] by {
                if b == ek.len() {
                    assert(ek.push(entry_key(x))[a] == ek[a]);
                }
            }
        }
    }
}

/// The first poll only fills the seen set: it reports nothing.
pub proof fn lemma_first_poll_reports_nothing(
    seen: Seq<Seq<char>>,
    filter: WatchFilterView,
    map: Seq<CikTicker>,
    entries: Seq<FeedEntry>,
)
    ensures
        reported(seen, true, filter, map, entries).len() == 0,
    decreases entries.len(),
{
    if entries.len() > 0 {
        lemma_first_poll_reports_nothing(seen, filter, map, entries.drop_last());
    }
}

/// An entry reported by one poll is not reported again by the next poll
/// (when the seen set was not trimmed in between): their keys differ.
pub proof fn lemma_no_report_twice(
    seen: Seq<Seq<char>>,
    first_poll: bool,
    filter: WatchFilterView,
    map: Seq<CikTicker>,
    entries1: Seq<FeedEntry>,
    entries2: Seq<FeedEntry>,
)
    requires
        seen.no_duplicates(),
    ensures
        forall|i: int, j: int|
            0 <= i < reported(seen, first_poll, filter, map, entries1).len() && 0 <= j < reported(
                seen_after(seen, entries1),
                false,
                filter,
                map,
                entries2,
            ).len() ==> entry_key(#[trigger] reported(seen, first_poll, filter, map, entries1)[i])
                != entry_key(
                #[trigger] reported(seen_after(seen, entries1), false, filter, map, entries2)[j],
            ),
{
    lemma_reported_are_new(seen, first_poll, filter, map, entries1);
    lemma_seen_after(seen, entries1, Seq::empty());
    lemma_reported_are_new(seen_after(seen, entries1), false, filter, map, entries2);
}

/// The entries of the successful polls among the first `n` outcomes, in
/// order.
pub open spec fn ok_entries(results: Seq<Result<Vec<FeedEntry>, String>>, n: int) -> Seq<FeedEntry>
    decreases n,
{
    if n <= 0 {
        Seq::empty()
    } else {
        match results[n - 1] {
            Ok(es) => ok_entries(results, n - 1) + es@,
            Err(_) => ok_entries(results, n - 1),
        }
    }
}

/// Some poll among the first `n` outcomes succeeded.
pub open spec fn has_ok(results: Seq<Result<Vec<FeedEntry>, String>>, n: int) -> bool {
    exists|i: int| 0 <= i < n && #[trigger] results[i] is Ok
}

/// The state after the first `n` poll outcomes, from a new state.
pub open spec fn run_state(results: Seq<Result<Vec<FeedEntry>, String>>, n: int) -> PollStateView
    decreases n,
{
    if n <= 0 {
        PollStateView { seen: Seq::empty(), first_poll: true }
    } else {
        poll_step(run_state(results, n - 1), results[n - 1])
    }
}

/// The events of the first `n` poll outcomes, from a new state.
pub open spec fn run_events(
    filter: WatchFilterView,
    map: Seq<CikTicker>,
    results: Seq<Result<Vec<FeedEntry>, String>>,
    n: int,
) -> Seq<WatcherEvent>
    decreases n,
{
    if n <= 0 {
        Seq::empty()
    } else {
        run_events(filter, map, results, n - 1) + step_events(run_state(results, n - 1), filter, map, results[n - 1])
    }
}

/// What poll `i` should send: the error of a failed poll; nothing for the
/// first successful poll; otherwise a new filing for each entry that passes
/// the filter and whose key was in no earlier successful poll nor earlier
/// in this one.
pub open spec fn expected_step(
    filter: WatchFilterView,
    map: Seq<CikTicker>,
    results: Seq<Result<Vec<FeedEntry>, String>>,
    i: int,
) -> Seq<WatcherEvent> {
    match results[i] {
        Err(m) => seq![WatcherEvent::Error(m)],
        Ok(es) => if !has_ok(results, i) {
            Seq::empty()
        } else {
            reported(seen_after(Seq::empty(), ok_entries(results, i)), false, filter, map, es@).map_values(
                |e: FeedEntry| WatcherEvent::NewFiling(e),
            )
        },
    }
}

/// The expected events of the first `n` poll outcomes.
pub open spec fn expected_events(
    filter: WatchFilterView,
    map: Seq<CikTicker>,
    results: Seq<Result<Vec<FeedEntry>, String>>,
    n: int,
) -> Seq<WatcherEvent>
    decreases n,
{
    if n <= 0 {
        Seq::empty()
    } else {
        expected_events(filter, map, results, n - 1) + expected_step(filter, map, results, n - 1)
    }
}

/// Handling `a` then `b` remembers what handling `a + b` does.
proof fn lemma_seen_after_append(seen: Seq<Seq<char>>, a: Seq<FeedEntry>, b: Seq<FeedEntry>)
    ensures
        seen_after(seen_after(seen, a), b) == seen_after(seen, a + b),
    decreases b.len(),
{
    if b.len() > 0 {
        lemma_seen_after_append(seen, a, b.drop_last());
        assert((a + b).drop_last() =~= a + b.drop_last());
        assert((a + b).last() == b.last());
    }
}

/// While fewer than 10,001 distinct keys have been seen, nothing is trimmed:
/// the state after `n` polls remembers the keys of every successful poll,
/// and is a first poll until one succeeds.
pub proof fn lemma_run_state(results: Seq<Result<Vec<FeedEntry>, String>>, n: int)
    requires
        0 <= n <= results.len(),
        forall|i: int| 0 <= i <= n ==> (#[trigger] seen_after(Seq::empty(), ok_entries(results, i))).len() <= 10_000,
    ensures
        run_state(results, n) == (PollStateView {
            seen: seen_after(Seq::empty(), ok_entries(results, n)),
            first_poll: !has_ok(results, n),
        }),
    decreases n,
{
    if n > 0 {
        lemma_run_state(results, n - 1);
        let prev = ok_entries(results, n - 1);
        assert(seen_after(Seq::empty(), ok_entries(results, n)).len() <= 10_000);
        match results[n - 1] {
            Ok(es) => {
                lemma_seen_after_append(Seq::empty(), prev, es@);
                assert(results[n - 1] is Ok);
            },
            Err(_) => {
                assert(seen_after(Seq::empty(), prev).len() <= 10_000);
                assert(has_ok(results, n) == has_ok(results, n - 1)) by {
                    if has_ok(results, n) {
                        let i = choose|i: int| 0 <= i < n && #[trigger] results[i] is Ok;
                        assert(i < n - 1);
                    }
                }
            },
        }
    }
}

/// Over a run of polls from a new state, while fewer than 10,001 distinct
/// keys have been seen: a failed poll sends its error, the first successful
/// poll sends nothing, and a later successful poll sends a new filing for
/// each entry that passes the filter and whose key was in no earlier
/// successful poll nor earlier in the same poll.
pub proof fn lemma_run_events(
    filter: WatchFilterView,
    map: Seq<CikTicker>,
    results: Seq<Result<Vec<FeedEntry>, String>>,
    n: int,
)
    requires
        0 <= n <= results.len(),
        forall|i: int| 0 <= i <= n ==> (#[trigger] seen_after(Seq::empty(), ok_entries(results, i))).len() <= 10_000,
    ensures
        run_events(filter, map, results, n) == expected_events(filter, map, results, n),
    decreases n,
{
    if n > 0 {
        lemma_run_events(filter, map, results, n - 1);
        lemma_run_state(results, n - 1);
        let st = run_state(results, n - 1);
        match results[n - 1] {
            Ok(es) => {
                if !has_ok(results, n - 1) {
                    lemma_first_poll_reports_nothing(st.seen, filter, map, es@);
                    assert(step_events(st, filter, map, results[n - 1]) =~= Seq::<WatcherEvent>::empty());
                }
            },
            Err(_) => {},
        }
        assert(step_events(st, filter, map, results[n - 1]) == expected_step(filter, map, results, n - 1));
    }
}

} // verus!
