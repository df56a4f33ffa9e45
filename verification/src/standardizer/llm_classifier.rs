//! Matching missing metrics to unmatched XBRL tags with a language model:
//! the prompt that asks for the matches, the span of its reply that holds
//! them, and the candidates they become.
use vstd::prelude::*;

use crate::standardizer::coverage::CandidateTag;
use crate::standardizer::coverage::MissingMetric;
use crate::standardizer::coverage::MissingView;
use crate::standardizer::engine::FactRef;
use crate::standardizer::engine::opt_chars;
use crate::standardizer::output::metric_variant_name;
use crate::text::after_last_colon;
use crate::text::after_last_colon_str;
use crate::text::chars_of;
use crate::text::decimal_digits;
use crate::text::find_char;
use crate::text::first_index_of;
use crate::text::last_index_of;
use crate::text::lemma_first_index_of;
use crate::text::lemma_last_index_of;
use crate::text::rfind_char;
use crate::text::str_eq;
use crate::text::usize_to_decimal;

verus! {

/// At most this many unmatched tags are listed in a prompt.
pub const MAX_PROMPT_TAGS: usize = 100;

/// A classification result from the language model.
#[derive(Debug, Clone)]
pub struct LlmClassification {
    pub metric: String,
    pub tag: String,
    pub taxonomy: String,
    pub confidence: String,
    pub reasoning: String,
}

/// A tag the company reports that no standard metric is mapped to.
#[derive(Debug, Clone)]
pub struct UnmatchedTag {
    pub taxonomy: String,
    pub tag: String,
    pub label: Option<String>,
    /// The fact holding the tag's latest annual value, if any.
    pub latest_value: Option<FactRef>,
}

/// The prompt line of a missing metric.
pub open spec fn missing_line(m: MissingView) -> Seq<char> {
    "- "@ + m.display_name + " ("@ + metric_variant_name(m.metric) + ")\n"@
}

/// The prompt line of an unmatched tag, with the text of its latest value.
pub open spec fn tag_line(t: UnmatchedTag, value_text: Option<String>) -> Seq<char> {
    "- "@ + t.taxonomy@ + ":"@ + t.tag@ + " | Label: "@ + match t.label {
        Some(l) => l@,
        None => "(no label)"@,
    } + " | Latest annual value: "@ + match value_text {
        Some(v) => v@,
        None => "N/A"@,
    } + "\n"@
}

/// The lines of the first `n` missing metrics.
pub open spec fn missing_lines(ms: Seq<MissingView>, n: int) -> Seq<char>
    decreases n,
{
    if n <= 0 {
        Seq::empty()
    } else {
        missing_lines(ms, n - 1) + missing_line(ms[n - 1])
    }
}

/// The lines of the first `n` unmatched tags.
pub open spec fn tag_lines(ts: Seq<UnmatchedTag>, vs: Seq<Option<String>>, n: int) -> Seq<char>
    decreases n,
{
    if n <= 0 {
        Seq::empty()
    } else {
        tag_lines(ts, vs, n - 1) + tag_line(ts[n - 1], vs[n - 1])
    }
}

/// The opening of a prompt.
pub open spec fn prompt_head(entity_name: Seq<char>) -> Seq<char> {
    "You are analyzing XBRL financial data for "@ + entity_name
        + ".\nThe following standard financial metrics could not be resolved from known XBRL tags:\n\n"@
}

/// The text between the missing metrics and the unmatched tags.
pub open spec fn prompt_middle() -> Seq<char> {
    "\nThe company reports these XBRL tags that are not mapped to any standard metric:\n\n"@
}

/// The closing instructions of a prompt.
pub open spec fn prompt_tail() -> Seq<char> {
    "\nFor each missing metric, identify which unmatched tag(s) likely contain that data.\nReturn ONLY a JSON array (no markdown fencing) of classifications:\n[{\"metric\": \"MetricVariantName\", \"tag\": \"XBRLTagName\", \"taxonomy\": \"us-gaap\", \"confidence\": \"high|medium|low\", \"reasoning\": \"brief explanation\"}]\nOnly include matches you are confident about. It's fine to return an empty array [].\n"@
}

/// The number of unmatched tags a prompt lists.
pub open spec fn listed_count(n: int) -> int {
    if n < MAX_PROMPT_TAGS {
        n
    } else {
        MAX_PROMPT_TAGS as int
    }
}

/// The prompt: the missing metrics, at most `MAX_PROMPT_TAGS` unmatched
/// tags with a count of those left out, and the instructions.
pub open spec fn prompt_text(
    entity_name: Seq<char>,
    ms: Seq<MissingView>,
    ts: Seq<UnmatchedTag>,
    vs: Seq<Option<String>>,
) -> Seq<char> {
    let listed = listed_count(ts.len() as int);
    prompt_head(entity_name) + missing_lines(ms, ms.len() as int) + prompt_middle() + tag_lines(ts, vs, listed)
        + if ts.len() > listed {
        "  ... and "@ + decimal_digits((ts.len() - listed) as nat) + " more tags\n"@
    } else {
        Seq::empty()
    } + prompt_tail()
}

/// The views of a sequence of missing metrics.
pub open spec fn missing_view(ms: Seq<MissingMetric>) -> Seq<MissingView> {
    ms.map_values(|m: MissingMetric| m@)
}

/// Builds the prompt that asks which unmatched tags hold the missing
/// metrics. `value_texts[i]` is the text of the latest value of
/// `unmatched_tags[i]`, as the caller writes it.
pub fn build_prompt(
    entity_name: &str,
    missing: &[MissingMetric],
    unmatched_tags: &[UnmatchedTag],
    value_texts: &[Option<String>],
) -> (r: String)
    requires
        value_texts@.len() == unmatched_tags@.len(),
    ensures
        r@ == prompt_text(entity_name@, missing_view(missing@), unmatched_tags@, value_texts@),
{
    let ghost ms = missing_view(missing@);
    let mut prompt = String::from_str("You are analyzing XBRL financial data for ");
    prompt.append(entity_name);
    prompt.append(
        ".\nThe following standard financial metrics could not be resolved from known XBRL tags:\n\n",
    );
    let ghost head = prompt@;
    let mut i: usize = 0;
    while i < missing.len()
        invariant
            i <= missing@.len(),
            ms == missing_view(missing@),
            head == prompt_head(entity_name@),
            prompt@ == head + missing_lines(ms, i as int),
        decreases missing.len() - i,
    {
        let m = &missing[i];
        assert(ms[i as int] == m@);
        prompt.append("- ");
        prompt.append(m.display_name.as_str());
        prompt.append(" (");
        let name = m.metric.variant_name();
        prompt.append(name.as_str());
        prompt.append(")\n");
        i = i + 1;
    }
    prompt.append("\nThe company reports these XBRL tags that are not mapped to any standard metric:\n\n");
    let ghost upto_middle = prompt@;
    let n = unmatched_tags.len();
    let limit = if n < MAX_PROMPT_TAGS {
        n
    } else {
        MAX_PROMPT_TAGS
    };
    let mut k: usize = 0;
    while k < limit
        invariant
            limit == listed_count(n as int),
            n == unmatched_tags@.len(),
            value_texts@.len() == n,
            k <= limit,
            prompt@ == upto_middle + tag_lines(unmatched_tags@, value_texts@, k as int),
        decreases limit - k,
    {
        let t = &unmatched_tags[k];
        prompt.append("- ");
        prompt.append(t.taxonomy.as_str());
        prompt.append(":");
        prompt.append(t.tag.as_str());
        prompt.append(" | Label: ");
        match &t.label {
            Some(l) => prompt.append(l.as_str()),
            None => prompt.append("(no label)"),
        }
        prompt.append(" | Latest annual value: ");
        match &value_texts[k] {
            Some(v) => prompt.append(v.as_str()),
            None => prompt.append("N/A"),
        }
        prompt.append("\n");
        k = k + 1;
    }
    let ghost upto_tags = prompt@;
    if n > limit {
        prompt.append("  ... and ");
        let more = usize_to_decimal(n - limit);
        prompt.append(more.as_str());
        prompt.append(" more tags\n");
    }
    let ghost upto_more = prompt@;
    prompt.append(
        "\nFor each missing metric, identify which unmatched tag(s) likely contain that data.\nReturn ONLY a JSON array (no markdown fencing) of classifications:\n[{\"metric\": \"MetricVariantName\", \"tag\": \"XBRLTagName\", \"taxonomy\": \"us-gaap\", \"confidence\": \"high|medium|low\", \"reasoning\": \"brief explanation\"}]\nOnly include matches you are confident about. It's fine to return an empty array [].\n",
    );
    proof {
        if n > limit {
            assert(upto_more =~= upto_tags + ("  ... and "@ + decimal_digits((n - limit) as nat) + " more tags\n"@));
        } else {
            assert(upto_more =~= upto_tags + Seq::<char>::empty());
        }
    }
    prompt
}

/// The prompt of a classification request, or `None` when there is nothing
/// to classify: no missing metric or no unmatched tag.
pub fn classification_prompt(
    entity_name: &str,
    missing: &[MissingMetric],
    unmatched_tags: &[UnmatchedTag],
    value_texts: &[Option<String>],
) -> (r: Option<String>)
    requires
        value_texts@.len() == unmatched_tags@.len(),
    ensures
        match r {
            Some(p) => missing@.len() > 0 && unmatched_tags@.len() > 0 && p@ == prompt_text(
                entity_name@,
                missing_view(missing@),
                unmatched_tags@,
                value_texts@,
            ),
            None => missing@.len() == 0 || unmatched_tags@.len() == 0,
        },
{
    if missing.len() == 0 || unmatched_tags.len() == 0 {
        return None;
    }
    Some(build_prompt(entity_name, missing, unmatched_tags, value_texts))
}

/// The part of a reply that holds the JSON array: from its first `[` to its
/// last `]`, both included.
pub open spec fn json_span(text: Seq<char>) -> Option<Seq<char>> {
    match (first_index_of(text, '['), last_index_of(text, ']')) {
        (Some(a), Some(b)) => Some(text.subrange(a, b + 1)),
        _ => None,
    }
}

/// A reply whose span can be cut: its last `]` does not lie more than one
/// place before its first `[`.
pub open spec fn span_well_ordered(text: Seq<char>) -> bool {
    match (first_index_of(text, '['), last_index_of(text, ']')) {
        (Some(a), Some(b)) => a <= b + 1,
        _ => true,
    }
}

/// Finds the JSON array in a reply, which may come wrapped in prose or
/// markdown fencing. Surrounding whitespace never holds a bracket, so the
/// span is the same in the trimmed reply. `None` when the reply holds no
/// `[` or no `]`: there is then nothing to parse.
pub fn classification_json_span(text: &str) -> (r: Option<String>)
    requires
        span_well_ordered(text@),
    ensures
        opt_chars(r) == json_span(text@),
{
    let v = chars_of(text);
    let start = find_char(&v, '[');
    proof {
        lemma_first_index_of(v@, '[', start);
    }
    match start {
        None => None,
        Some(a) => {
            let end = rfind_char(&v, ']');
            proof {
                lemma_last_index_of(v@, ']', end);
            }
            match end {
                None => None,
                Some(b) => Some(String::from_str(text.substring_char(a, b + 1))),
            }
        },
    }
}

/// Strip the taxonomy prefix from a tag name if the model included it:
/// `us-gaap:RetainedEarningsAccumulatedDeficit` becomes
/// `RetainedEarningsAccumulatedDeficit`.
pub fn strip_taxonomy_prefix(tag: &str) -> (r: &str)
    ensures
        r@ == after_last_colon(tag@),
{
    after_last_colon_str(tag)
}

/// The first unmatched tag, from position `from` on, with the given
/// taxonomy and tag.
pub open spec fn find_unmatched(ts: Seq<UnmatchedTag>, taxonomy: Seq<char>, tag: Seq<char>, from: int) -> Option<int>
    decreases ts.len() - from,
{
    if from < 0 || from >= ts.len() {
        None
    } else if ts[from].taxonomy@ == taxonomy && ts[from].tag@ == tag {
        Some(from)
    } else {
        find_unmatched(ts, taxonomy, tag, from + 1)
    }
}

/// A found unmatched tag lies in the sequence and matches.
proof fn lemma_find_unmatched(ts: Seq<UnmatchedTag>, taxonomy: Seq<char>, tag: Seq<char>, from: int)
    requires
        0 <= from,
    ensures
        find_unmatched(ts, taxonomy, tag, from) matches Some(j) ==> from <= j < ts.len()
            && ts[j].taxonomy@ == taxonomy && ts[j].tag@ == tag,
    decreases ts.len() - from,
{
    if from < ts.len() && !(ts[from].taxonomy@ == taxonomy && ts[from].tag@ == tag) {
        lemma_find_unmatched(ts, taxonomy, tag, from + 1);
    }
}

/// The reason given for a candidate that the model proposed.
pub open spec fn llm_reason(c: LlmClassification) -> Seq<char> {
    "llm: "@ + c.reasoning@ + " (confidence: "@ + c.confidence@ + ")"@
}

/// Convert a classification into a candidate tag for its missing metric.
/// Taxonomy and tag lose any prefix up to a colon; label and latest value
/// come from the first unmatched tag with that taxonomy and tag, if any.
pub fn classification_to_candidate(classification: &LlmClassification, unmatched_tags: &[UnmatchedTag]) -> (r:
    Option<CandidateTag>)
    ensures
        r matches Some(c) && {
            let taxonomy = after_last_colon(classification.taxonomy@);
            let tag = after_last_colon(classification.tag@);
            let found = find_unmatched(unmatched_tags@, taxonomy, tag, 0);
            &&& c.taxonomy@ == taxonomy
            &&& c.tag@ == tag
            &&& opt_chars(c.label) == match found {
                Some(i) => opt_chars(unmatched_tags@[i].label),
                None => None,
            }
            &&& c.latest_value == match found {
                Some(i) => unmatched_tags@[i].latest_value,
                None => None,
            }
            &&& c.unit@ == "USD"@
            &&& c.match_reason@ == llm_reason(*classification)
        },
{
    let clean_tag = String::from_str(strip_taxonomy_prefix(classification.tag.as_str()));
    let clean_taxonomy = String::from_str(strip_taxonomy_prefix(classification.taxonomy.as_str()));
    let ghost ts = unmatched_tags@;
    let mut i: usize = unmatched_tags.len();
    let mut found: Option<usize> = None;
    // Scan from the back so that the match kept is the first one.
    while i > 0
        invariant
            i <= ts.len(),
            ts == unmatched_tags@,
            match find_unmatched(ts, clean_taxonomy@, clean_tag@, i as int) {
                Some(j) => found == Some(j as usize),
                None => found is None,
            },
            found matches Some(j) ==> j < ts.len(),
        decreases i,
    {
        i = i - 1;
        proof {
            lemma_find_unmatched(ts, clean_taxonomy@, clean_tag@, i + 1);
        }
        if str_eq(unmatched_tags[i].taxonomy.as_str(), clean_taxonomy.as_str()) && str_eq(
            unmatched_tags[i].tag.as_str(),
            clean_tag.as_str(),
        ) {
            found = Some(i);
        }
    }
    proof {
        lemma_find_unmatched(ts, clean_taxonomy@, clean_tag@, 0);
    }
    let (label, latest_value) = match found {
        Some(j) => {
            let label = match &unmatched_tags[j].label {
                Some(l) => Some(l.clone()),
                None => None,
            };
            (label, unmatched_tags[j].latest_value)
        },
        None => (None, None),
    };
    let mut reason = String::from_str("llm: ");
    reason.append(classification.reasoning.as_str());
    reason.append(" (confidence: ");
    reason.append(classification.confidence.as_str());
    reason.append(")");
    let unit = String::from_str("USD");
    Some(
        CandidateTag {
            taxonomy: clean_taxonomy,
            tag: clean_tag,
            label,
            latest_value,
            unit,
            match_reason: reason,
        },
    )
}

} // verus!
