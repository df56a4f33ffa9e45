//! Learned XBRL tag mappings, and how they extend metric definitions.
use vstd::prelude::*;

use crate::dates::iso_date_of;
use crate::dates::today_utc_string;
use crate::standardizer::catalog::DefinitionView;
use crate::standardizer::catalog::MetricDefinition;
use crate::standardizer::catalog::defs_view;
use crate::standardizer::catalog::first_match;
use crate::standardizer::catalog::first_match_view;
use crate::standardizer::output::StandardMetric;
use crate::standardizer::resolution::ResolutionView;
use crate::standardizer::resolution::TagSpec;
use crate::standardizer::resolution::TagSpecView;
use crate::standardizer::resolution::resolution_tag_specs;
use crate::standardizer::resolution::specs_view;
use crate::text::after_last_colon;
use crate::text::lemma_after_last_colon_idempotent;
use crate::text::opt_str_is;
use crate::text::str_eq;
use crate::text::strip_through_last_colon;

verus! {

/// A single learned tag entry persisted to the JSON store.
#[derive(Debug, Clone)]
pub struct LearnedTagEntry {
    pub metric: StandardMetric,
    pub taxonomy: String,
    pub tag: String,
    pub unit: String,
    pub label: Option<String>,
    pub confidence: String,
    pub source: String,
    pub source_entity: String,
    pub discovered_at: String,
    pub approved: bool,
    /// Classification category for rejected/reclassified entries (e.g. "opposite_direction", "garbage").
    /// `None` means the entry has not been categorized as wrong.
    pub category: Option<String>,
    /// Why the entry was approved or rejected, when that was recorded.
    pub review_reason: Option<String>,
}

/// The characters of an optional string.
pub open spec fn opt_view(o: Option<String>) -> Option<Seq<char>> {
    match o {
        Some(s) => Some(s@),
        None => None,
    }
}

/// The view of a learned tag entry.
pub struct EntryView {
    pub metric: StandardMetric,
    pub taxonomy: Seq<char>,
    pub tag: Seq<char>,
    pub unit: Seq<char>,
    pub label: Option<Seq<char>>,
    pub confidence: Seq<char>,
    pub source: Seq<char>,
    pub source_entity: Seq<char>,
    pub discovered_at: Seq<char>,
    pub approved: bool,
    pub category: Option<Seq<char>>,
    pub review_reason: Option<Seq<char>>,
}

impl View for LearnedTagEntry {
    type V = EntryView;

    open spec fn view(&self) -> EntryView {
        EntryView {
            metric: self.metric,
            taxonomy: self.taxonomy@,
            tag: self.tag@,
            unit: self.unit@,
            label: opt_view(self.label),
            confidence: self.confidence@,
            source: self.source@,
            source_entity: self.source_entity@,
            discovered_at: self.discovered_at@,
            approved: self.approved,
            category: opt_view(self.category),
            review_reason: opt_view(self.review_reason),
        }
    }
}

/// The views of a sequence of entries.
pub open spec fn entries_view(s: Seq<LearnedTagEntry>) -> Seq<EntryView> {
    s.map_values(|e: LearnedTagEntry| e@)
}

/// An entry with any taxonomy prefix stripped from its tag and taxonomy
/// (`us-gaap:SomeTag` becomes `SomeTag`).
pub open spec fn cleaned(e: EntryView) -> EntryView {
    EntryView { taxonomy: after_last_colon(e.taxonomy), tag: after_last_colon(e.tag), ..e }
}

/// Two entries name the same (metric, taxonomy, tag).
pub open spec fn same_key(a: EntryView, b: EntryView) -> bool {
    a.metric == b.metric && a.taxonomy == b.taxonomy && a.tag == b.tag
}

/// The entries after adding `e`: its cleaned form is appended unless an
/// entry with the same key is already there.
pub open spec fn add_spec(entries: Seq<EntryView>, e: EntryView) -> Seq<EntryView> {
    if exists|i: int| 0 <= i < entries.len() && same_key(#[trigger] entries[i], cleaned(e)) {
        entries
    } else {
        entries.push(cleaned(e))
    }
}

/// Persistent store for learned XBRL tag mappings.
#[derive(Debug)]
pub struct LearnedTagStore {
    path: String,
    entries: Vec<LearnedTagEntry>,
}

impl LearnedTagStore {
    /// A store for the file at `path` holding `entries`.
    pub fn from_parts(path: String, entries: Vec<LearnedTagEntry>) -> (s: Self)
        ensures
            s.spec_path() == path@,
            s.spec_entries() == entries@,
    {
        LearnedTagStore { path, entries }
    }

    /// The file path of the store.
    pub closed spec fn spec_path(&self) -> Seq<char> {
        self.path@
    }

    /// The entries of the store.
    pub closed spec fn spec_entries(&self) -> Seq<LearnedTagEntry> {
        self.entries@
    }

    /// Add an entry, deduplicating by (metric, taxonomy, tag).
    /// Strips any taxonomy prefix that may have been included in the
    /// tag/taxonomy fields (e.g. "us-gaap:SomeTag" → "SomeTag").
    pub fn add(&mut self, entry: LearnedTagEntry)
        ensures
            entries_view(final(self).spec_entries()) == add_spec(
                entries_view(old(self).spec_entries()),
                entry@,
            ),
            final(self).spec_path() == old(self).spec_path(),
    {
        let mut entry = entry;
        // Strip doubled taxonomy prefixes
        entry.tag = strip_through_last_colon(entry.tag.as_str());
        entry.taxonomy = strip_through_last_colon(entry.taxonomy.as_str());
        let ghost c = entry@;
        let mut found = false;
        let mut i: usize = 0;
        while i < self.entries.len()
            invariant
                i <= self.entries@.len(),
                entry@ == c,
                found == (exists|j: int| 0 <= j < i && same_key(#[trigger] self.entries@[j]@, c)),
            decreases self.entries.len() - i,
        {
            let e = &self.entries[i];
            let matched = e.metric == entry.metric && str_eq(e.taxonomy.as_str(), entry.taxonomy.as_str())
                && str_eq(e.tag.as_str(), entry.tag.as_str());
            assert(matched == same_key(self.entries@[i as int]@, c));
            proof {
                if matched {
                    assert(same_key(self.entries@[i as int]@, c));
                } else if found {
                } else {
                    assert forall|j: int| 0 <= j < i + 1 implies !same_key(#[trigger] self.entries@[j]@, c) by {
                        if j < i {
                        }
                    }
                }
            }
            if matched {
                found = true;
            }
            i = i + 1;
        }
        proof {
            let ev = entries_view(self.entries@);
            assert(found == (exists|j: int| 0 <= j < ev.len() && same_key(#[trigger] ev[j], c))) by {
                if found {
                    let j = choose|j: int| 0 <= j < i && same_key(#[trigger] self.entries@[j]@, c);
                    assert(same_key(ev[j], c));
                }
                if exists|j: int| 0 <= j < ev.len() && same_key(#[trigger] ev[j], c) {
                    let j = choose|j: int| 0 <= j < ev.len() && same_key(#[trigger] ev[j], c);
                    assert(same_key(self.entries@[j]@, c));
                }
            }
        }
        if !found {
            let ghost before = self.entries@;
            self.entries.push(entry);
            assert(entries_view(self.entries@) =~= entries_view(before).push(c));
        }
    }

    /// Get all entries.
    pub fn entries(&self) -> (r: &[LearnedTagEntry])
        ensures
            r@ == self.spec_entries(),
    {
        self.entries.as_slice()
    }

    /// Get mutable access to all entries.
    pub fn entries_mut(&mut self) -> (r: &mut Vec<LearnedTagEntry>)
        ensures
            r@ == old(self).spec_entries(),
            final(r)@ == final(self).spec_entries(),
            final(self).spec_path() == old(self).spec_path(),
    {
        &mut self.entries
    }

    /// Get the file path.
    pub fn path(&self) -> (r: &str)
        ensures
            r@ == self.spec_path(),
    {
        self.path.as_str()
    }

    /// Create a new entry with today's date, with no category and no recorded reason.
    pub fn new_entry(
        metric: StandardMetric,
        taxonomy: String,
        tag: String,
        unit: String,
        label: Option<String>,
        confidence: String,
        source: String,
        source_entity: String,
        approved: bool,
    ) -> (e: LearnedTagEntry)
        ensures
            e.metric == metric,
            e.taxonomy == taxonomy,
            e.tag == tag,
            e.unit == unit,
            e.label == label,
            e.confidence == confidence,
            e.source == source,
            e.source_entity == source_entity,
            e.approved == approved,
            iso_date_of(e.discovered_at@) is Some,
            e.category is None,
            e.review_reason is None,
    {
        LearnedTagEntry {
            metric,
            taxonomy,
            tag,
            unit,
            label,
            confidence,
            source,
            source_entity,
            discovered_at: today_utc_string(),
            approved,
            category: None,
            review_reason: None,
        }
    }
}

/// Adding the same entry twice leaves the store as adding it once.
pub proof fn lemma_add_idempotent(entries: Seq<EntryView>, e: EntryView)
    ensures
        add_spec(add_spec(entries, e), e) == add_spec(entries, e),
{
    lemma_after_last_colon_idempotent(e.tag);
    lemma_after_last_colon_idempotent(e.taxonomy);
    let once = add_spec(entries, e);
    if !(exists|i: int| 0 <= i < entries.len() && same_key(#[trigger] entries[i], cleaned(e))) {
        assert(same_key(once[entries.len() as int], cleaned(e)));
    }
}

/// No two entries name the same (metric, taxonomy, tag).
pub open spec fn keys_unique(entries: Seq<EntryView>) -> bool {
    forall|i: int, j: int| 0 <= i < j < entries.len() ==> !same_key(#[trigger] entries[i], #[trigger] entries[j])
}

/// Adding entries never makes two of them share a key, and the added entry's
/// key is then present.
pub proof fn lemma_add_keeps_keys_unique(entries: Seq<EntryView>, e: EntryView)
    requires
        keys_unique(entries),
    ensures
        keys_unique(add_spec(entries, e)),
        exists|i: int| 0 <= i < add_spec(entries, e).len() && same_key(#[trigger] add_spec(entries, e)[i], cleaned(e)),
{
    let r = add_spec(entries, e);
    if exists|i: int| 0 <= i < entries.len() && same_key(#[trigger] entries[i], cleaned(e)) {
    } else {
        assert(same_key(r[entries.len() as int], cleaned(e)));
        assert forall|i: int, j: int| 0 <= i < j < r.len() implies !same_key(#[trigger] r[i], #[trigger] r[j]) by {
            if j == entries.len() {
                assert(r[i] == entries[i]);
            } else {
                assert(r[i] == entries[i] && r[j] == entries[j]);
            }
        }
    }
}

/// The tag specification of an entry; the unit `unknown` means any unit.
pub open spec fn entry_tag_spec(e: EntryView) -> TagSpecView {
    TagSpecView {
        taxonomy: e.taxonomy,
        tag: e.tag,
        unit: if e.unit == "unknown"@ {
            None
        } else {
            Some(e.unit)
        },
    }
}

pub fn make_tag_spec(entry: &LearnedTagEntry) -> (t: TagSpec)
    ensures
        t@ == entry_tag_spec(entry@),
{
    TagSpec {
        taxonomy: entry.taxonomy.clone(),
        tag: entry.tag.clone(),
        unit: if str_eq(entry.unit.as_str(), "unknown") {
            None
        } else {
            Some(entry.unit.clone())
        },
    }
}

/// All tag specifications of a resolution view, in order.
pub open spec fn view_tag_specs(r: ResolutionView) -> Seq<TagSpecView>
    decreases r,
{
    match r {
        ResolutionView::FirstMatch(s) => s,
        ResolutionView::Sum(s) => s,
        ResolutionView::Difference(a, b) => seq![a, b],
        ResolutionView::Ratio(a, b) => view_tag_specs(*a) + view_tag_specs(*b),
        ResolutionView::Custom(_) => Seq::empty(),
    }
}

pub proof fn lemma_view_tag_specs(r: crate::standardizer::resolution::MetricResolution)
    ensures
        view_tag_specs(r@) == specs_view(resolution_tag_specs(r)),
    decreases r,
{
    match r {
        crate::standardizer::resolution::MetricResolution::Ratio(a, b) => {
            lemma_view_tag_specs(*a);
            lemma_view_tag_specs(*b);
            assert(specs_view(resolution_tag_specs(*a) + resolution_tag_specs(*b)) =~= specs_view(
                resolution_tag_specs(*a),
            ) + specs_view(resolution_tag_specs(*b)));
        },
        crate::standardizer::resolution::MetricResolution::Difference(a, b) => {
            assert(specs_view(seq![*a, *b]) =~= seq![a@, b@]);
        },
        crate::standardizer::resolution::MetricResolution::Custom(_) => {
            assert(specs_view(Seq::empty()) =~= Seq::<TagSpecView>::empty());
        },
        _ => {},
    }
}

/// The first position of a definition for `metric`, if any.
pub open spec fn first_def_index(defs: Seq<DefinitionView>, metric: StandardMetric) -> Option<int> {
    if exists|i: int| 0 <= i < defs.len() && defs[i].metric == metric {
        Some(
            choose|i: int|
                0 <= i < defs.len() && defs[i].metric == metric && forall|j: int|
                    0 <= j < i ==> defs[j].metric != metric,
        )
    } else {
        None
    }
}

/// The definitions after adding `spec` for `metric`: the first definition
/// of the metric becomes a first-match over its tags with `spec` put first
/// (`prepend`) or last; without one, a definition with `spec` alone is
/// appended.
pub open spec fn add_to_definitions_spec(
    defs: Seq<DefinitionView>,
    metric: StandardMetric,
    spec: TagSpecView,
    prepend: bool,
) -> Seq<DefinitionView> {
    match first_def_index(defs, metric) {
        Some(i) => {
            let existing = view_tag_specs(defs[i].resolution);
            let specs = if prepend {
                seq![spec] + existing
            } else {
                existing.push(spec)
            };
            defs.update(i, first_match_view(metric, specs))
        },
        None => defs.push(first_match_view(metric, seq![spec])),
    }
}

fn add_to_definitions(
    definitions: &mut Vec<MetricDefinition>,
    metric: StandardMetric,
    spec: TagSpec,
    prepend: bool,
)
    ensures
        defs_view(final(definitions)@) == add_to_definitions_spec(
            defs_view(old(definitions)@),
            metric,
            spec@,
            prepend,
        ),
{
    let ghost dv = defs_view(definitions@);
    let mut i: usize = 0;
    while i < definitions.len()
        invariant
            i <= definitions@.len(),
            dv == defs_view(definitions@),
            forall|j: int| 0 <= j < i ==> definitions@[j].metric != metric,
        ensures
            i <= definitions@.len(),
            dv == defs_view(definitions@),
            forall|j: int| 0 <= j < i ==> definitions@[j].metric != metric,
            i < definitions@.len() ==> definitions@[i as int].metric == metric,
        decreases definitions.len() - i,
    {
        if definitions[i].metric == metric {
            break;
        }
        i = i + 1;
    }
    if i < definitions.len() {
        proof {
            assert(dv[i as int].metric == metric);
            let w = choose|w: int|
                0 <= w < dv.len() && dv[w].metric == metric && forall|j: int|
                    0 <= j < w ==> dv[j].metric != metric;
            assert(w == i) by {
                if w < i {
                    assert(definitions@[w].metric != metric);
                } else if w > i {
                    assert(dv[i as int].metric != metric);
                }
            }
            lemma_view_tag_specs(definitions@[i as int].resolution);
        }
        let mut specs = definitions[i].resolution.tag_specs();
        let ghost existing = specs@;
        let ghost sv = spec@;
        if prepend {
            specs.insert(0, spec);
            assert(specs_view(specs@) =~= seq![sv] + specs_view(existing));
        } else {
            specs.push(spec);
            assert(specs_view(specs@) =~= specs_view(existing).push(sv));
        }
        definitions.set(i, first_match(metric, specs));
        assert(defs_view(definitions@) =~= add_to_definitions_spec(dv, metric, sv, prepend));
    } else {
        let ghost sv = spec@;
        let mut specs: Vec<TagSpec> = Vec::new();
        specs.push(spec);
        assert(specs_view(specs@) =~= seq![sv]);
        definitions.push(first_match(metric, specs));
        assert(defs_view(definitions@) =~= dv.push(first_match_view(metric, seq![sv])));
    }
}

/// An entry is taken in the first pass (`primary`: approved, with no
/// category) or in the second (approved, categorized, not `garbage`).
pub open spec fn taken_in_pass(e: EntryView, primary: bool) -> bool {
    if primary {
        e.approved && e.category is None
    } else {
        e.approved && (e.category matches Some(c) && c != "garbage"@)
    }
}

/// The definitions after one pass over `entries`.
pub open spec fn augment_pass(defs: Seq<DefinitionView>, entries: Seq<EntryView>, primary: bool) -> Seq<DefinitionView>
    decreases entries.len(),
{
    if entries.len() == 0 {
        defs
    } else {
        let before = augment_pass(defs, entries.drop_last(), primary);
        let e = entries.last();
        if taken_in_pass(e, primary) {
            add_to_definitions_spec(before, e.metric, entry_tag_spec(e), primary)
        } else {
            before
        }
    }
}

/// The definitions after augmenting with `entries`: primary tags first,
/// then categorized ones.
pub open spec fn augment_spec(defs: Seq<DefinitionView>, entries: Seq<EntryView>) -> Seq<DefinitionView> {
    augment_pass(augment_pass(defs, entries, true), entries, false)
}

fn augment_one_pass(definitions: &mut Vec<MetricDefinition>, entries: &[LearnedTagEntry], primary: bool)
    ensures
        defs_view(final(definitions)@) == augment_pass(
            defs_view(old(definitions)@),
            entries_view(entries@),
            primary,
        ),
{
    let ghost d0 = defs_view(definitions@);
    let mut i: usize = 0;
    while i < entries.len()
        invariant
            i <= entries@.len(),
            d0 == defs_view(old(definitions)@),
            defs_view(definitions@) == augment_pass(d0, entries_view(entries@.take(i as int)), primary),
        decreases entries.len() - i,
    {
        let entry = &entries[i];
        proof {
            assert(entries_view(entries@.take(i + 1)).drop_last() =~= entries_view(entries@.take(i as int)));
            assert(entries_view(entries@.take(i + 1)).last() == entry@);
        }
        let taken = if primary {
            entry.approved && entry.category.is_none()
        } else {
            entry.approved && entry.category.is_some() && !opt_str_is(&entry.category, "garbage")
        };
        if taken {
            let spec = make_tag_spec(entry);
            add_to_definitions(definitions, entry.metric, spec, primary);
        }
        i = i + 1;
    }
    assert(entries@.take(i as int) =~= entries@);
}

/// Augment metric definitions with approved learned tag entries.
///
/// Primary tags (no category) are prepended to the `FirstMatch` chain for highest
/// priority. Categorized tags (subcomponents, disclosure items, etc.) are appended
/// as lower-priority fallbacks. Garbage entries are skipped entirely.
pub fn augment_definitions(definitions: &mut Vec<MetricDefinition>, entries: &[LearnedTagEntry])
    ensures
        defs_view(final(definitions)@) == augment_spec(
            defs_view(old(definitions)@),
            entries_view(entries@),
        ),
{
    // First pass: primary tags (no category), prepended for highest priority
    augment_one_pass(definitions, entries, true);
    // Second pass: categorized tags, appended as fallbacks
    augment_one_pass(definitions, entries, false);
}

/// An entry that augmentation skips: not approved, or categorized as
/// `garbage`.
pub open spec fn skipped(e: EntryView) -> bool {
    !e.approved || e.category == Some("garbage"@)
}

/// Entries that are not approved, or that are categorized as garbage, leave
/// the definitions unchanged.
pub proof fn lemma_skipped_change_nothing(defs: Seq<DefinitionView>, entries: Seq<EntryView>)
    requires
        forall|i: int| 0 <= i < entries.len() ==> skipped(#[trigger] entries[i]),
    ensures
        augment_spec(defs, entries) == defs,
{
    lemma_skipped_pass(defs, entries, true);
    lemma_skipped_pass(defs, entries, false);
}

proof fn lemma_skipped_pass(defs: Seq<DefinitionView>, entries: Seq<EntryView>, primary: bool)
    requires
        forall|i: int| 0 <= i < entries.len() ==> skipped(#[trigger] entries[i]),
    ensures
        augment_pass(defs, entries, primary) == defs,
    decreases entries.len(),
{
    if entries.len() > 0 {
        assert(skipped(entries[entries.len() - 1]));
        lemma_skipped_pass(defs, entries.drop_last(), primary);
    }
}

/// Where some definition below `k + 1` has the metric, a first one does.
proof fn lemma_first_def_exists(defs: Seq<DefinitionView>, metric: StandardMetric, k: int)
    requires
        0 <= k < defs.len(),
        defs[k].metric == metric,
    ensures
        exists|i: int|
            0 <= i <= k && defs[i].metric == metric && forall|j: int| 0 <= j < i ==> defs[j].metric != metric,
    decreases k,
{
    if exists|j: int| 0 <= j < k && defs[j].metric == metric {
        let j = choose|j: int| 0 <= j < k && defs[j].metric == metric;
        lemma_first_def_exists(defs, metric, j);
    } else {
        assert(forall|j: int| 0 <= j < k ==> defs[j].metric != metric);
    }
}

/// After adding a tag for a metric, the first definition of the metric is a
/// first-match whose chain starts with the tag (when prepended) or ends with
/// it (when appended).
proof fn lemma_added_tag_position(defs: Seq<DefinitionView>, metric: StandardMetric, spec: TagSpecView, prepend: bool)
    ensures
        ({
            let r = add_to_definitions_spec(defs, metric, spec, prepend);
            first_def_index(r, metric) matches Some(i) && r[i].resolution matches ResolutionView::FirstMatch(s)
                && s.len() > 0 && (if prepend {
                s[0] == spec
            } else {
                s.last() == spec
            })
        }),
{
    let r = add_to_definitions_spec(defs, metric, spec, prepend);
    if exists|k: int| 0 <= k < defs.len() && defs[k].metric == metric {
        let k = choose|k: int| 0 <= k < defs.len() && defs[k].metric == metric;
        lemma_first_def_exists(defs, metric, k);
    }
    match first_def_index(defs, metric) {
        Some(i) => {
            assert(0 <= i < defs.len() && defs[i].metric == metric && forall|j: int| 0 <= j < i ==> defs[j].metric != metric);
            assert(r[i].metric == metric);
            let c = choose|c: int|
                0 <= c < r.len() && r[c].metric == metric && forall|j: int| 0 <= j < c ==> r[j].metric != metric;
            if c < i {
                assert(r[c] == defs[c]);
            }
            if c > i {
                assert(r[i].metric == metric);
            }
            assert(c == i);
        },
        None => {
            assert(!exists|i: int| 0 <= i < defs.len() && defs[i].metric == metric);
            let n = defs.len() as int;
            assert(r[n].metric == metric);
            let c = choose|c: int|
                0 <= c < r.len() && r[c].metric == metric && forall|j: int| 0 <= j < c ==> r[j].metric != metric;
            if c < n {
                assert(r[c] == defs[c]);
                assert(defs[c].metric == metric);
            }
            assert(c == n);
        },
    }
}

/// A primary learned tag (approved, with no category) takes the highest
/// priority: augmenting with it makes it the first tag tried for its metric.
pub proof fn lemma_primary_entry_first(defs: Seq<DefinitionView>, e: EntryView)
    requires
        e.approved,
        e.category is None,
    ensures
        ({
            let r = augment_spec(defs, seq![e]);
            first_def_index(r, e.metric) matches Some(i) && r[i].resolution matches ResolutionView::FirstMatch(s)
                && s.len() > 0 && s[0] == entry_tag_spec(e)
        }),
{
    let es = seq![e];
    assert(es.drop_last() =~= Seq::<EntryView>::empty());
    assert(es.last() == e);
    let r1 = add_to_definitions_spec(defs, e.metric, entry_tag_spec(e), true);
    assert(augment_pass(defs, es.drop_last(), true) == defs);
    assert(taken_in_pass(e, true));
    assert(augment_pass(defs, es, true) == r1);
    assert(augment_pass(r1, es.drop_last(), false) == r1);
    assert(!taken_in_pass(e, false));
    assert(augment_pass(r1, es, false) == r1);
    lemma_added_tag_position(defs, e.metric, entry_tag_spec(e), true);
}

/// A categorized learned tag (approved, not garbage) is a fallback:
/// augmenting with it makes it the last tag tried for its metric.
pub proof fn lemma_categorized_entry_last(defs: Seq<DefinitionView>, e: EntryView)
    requires
        e.approved,
        e.category matches Some(c) && c != "garbage"@,
    ensures
        ({
            let r = augment_spec(defs, seq![e]);
            first_def_index(r, e.metric) matches Some(i) && r[i].resolution matches ResolutionView::FirstMatch(s)
                && s.len() > 0 && s.last() == entry_tag_spec(e)
        }),
{
    let es = seq![e];
    assert(es.drop_last() =~= Seq::<EntryView>::empty());
    assert(es.last() == e);
    assert(augment_pass(defs, es.drop_last(), true) == defs);
    assert(!taken_in_pass(e, true));
    assert(augment_pass(defs, es, true) == defs);
    let r2 = add_to_definitions_spec(defs, e.metric, entry_tag_spec(e), false);
    assert(augment_pass(defs, es.drop_last(), false) == defs);
    assert(taken_in_pass(e, false));
    assert(augment_pass(defs, es, false) == r2);
    lemma_added_tag_position(defs, e.metric, entry_tag_spec(e), false);
}

/// One pass over `entries` gives what it gives over the entries that are
/// not skipped.
proof fn lemma_pass_ignores_skipped(defs: Seq<DefinitionView>, entries: Seq<EntryView>, primary: bool)
    ensures
        augment_pass(defs, entries, primary) == augment_pass(
            defs,
            entries.filter(|e: EntryView| !skipped(e)),
            primary,
        ),
    decreases entries.len(),
{
    if entries.len() > 0 {
        lemma_pass_ignores_skipped(defs, entries.drop_last(), primary);
        let f = entries.filter(|e: EntryView| !skipped(e));
        let prev = entries.drop_last().filter(|e: EntryView| !skipped(e));
        let e = entries.last();
        reveal(Seq::filter);
        assert(f == if !skipped(e) {
            prev.push(e)
        } else {
            prev
        });
        if !skipped(e) {
            assert(f.drop_last() =~= prev);
            assert(f.last() == e);
        } else {
            assert(!taken_in_pass(e, primary));
        }
    }
}

/// Augmenting with entries gives the same definitions as augmenting with
/// only those that are approved and not categorized as garbage: the others
/// are skipped entirely.
pub proof fn lemma_augment_ignores_skipped(defs: Seq<DefinitionView>, entries: Seq<EntryView>)
    ensures
        augment_spec(defs, entries) == augment_spec(defs, entries.filter(|e: EntryView| !skipped(e))),
{
    let kept = entries.filter(|e: EntryView| !skipped(e));
    lemma_pass_ignores_skipped(defs, entries, true);
    lemma_pass_ignores_skipped(augment_pass(defs, kept, true), entries, false);
}

} // verus!
