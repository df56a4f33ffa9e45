//! Catalogs of metric definitions: which metric, resolved how.
pub mod balance_sheet;
pub mod cash_flow;
pub mod income_statement;
pub mod per_share;
pub mod ratios;
pub mod sector;

use vstd::prelude::*;

use crate::standardizer::output::StandardMetric;
use crate::standardizer::resolution::MetricResolution;
use crate::standardizer::resolution::ResolutionView;
use crate::standardizer::resolution::TagSpec;
use crate::standardizer::resolution::TagSpecView;
use crate::standardizer::resolution::specs_view;

verus! {

/// A single metric definition with its resolution strategy.
#[derive(Debug)]
pub struct MetricDefinition {
    pub metric: StandardMetric,
    pub resolution: MetricResolution,
}

/// The view of a metric definition.
pub struct DefinitionView {
    pub metric: StandardMetric,
    pub resolution: ResolutionView,
}

impl View for MetricDefinition {
    type V = DefinitionView;

    open spec fn view(&self) -> DefinitionView {
        DefinitionView { metric: self.metric, resolution: self.resolution@ }
    }
}

/// The views of a sequence of definitions.
pub open spec fn defs_view(s: Seq<MetricDefinition>) -> Seq<DefinitionView> {
    s.map_values(|d: MetricDefinition| d@)
}

/// A definition that tries `tags` in order.
pub open spec fn first_match_view(metric: StandardMetric, tags: Seq<TagSpecView>) -> DefinitionView {
    DefinitionView { metric, resolution: ResolutionView::FirstMatch(tags) }
}

/// A definition computed by the formula numbered `formula`.
pub open spec fn custom_view(metric: StandardMetric, formula: u32) -> DefinitionView {
    DefinitionView { metric, resolution: ResolutionView::Custom(formula) }
}

/// A us-gaap tag in US dollars.
pub open spec fn usd_tag(tag: Seq<char>) -> TagSpecView {
    TagSpecView { taxonomy: "us-gaap"@, tag, unit: Some("USD"@) }
}

/// A us-gaap tag counted in shares.
pub open spec fn shares_tag(tag: Seq<char>) -> TagSpecView {
    TagSpecView { taxonomy: "us-gaap"@, tag, unit: Some("shares"@) }
}

/// A us-gaap tag in US dollars per share.
pub open spec fn per_share_tag(tag: Seq<char>) -> TagSpecView {
    TagSpecView { taxonomy: "us-gaap"@, tag, unit: Some("USD/shares"@) }
}

/// A dei tag in any unit.
pub open spec fn dei_tag(tag: Seq<char>) -> TagSpecView {
    TagSpecView { taxonomy: "dei"@, tag, unit: None }
}

/// A definition that tries `tags` in order.
pub fn first_match(metric: StandardMetric, tags: Vec<TagSpec>) -> (d: MetricDefinition)
    ensures
        d@ == first_match_view(metric, specs_view(tags@)),
{
    MetricDefinition { metric, resolution: MetricResolution::FirstMatch(tags) }
}

impl MetricDefinition {
    /// A copy of this definition.
    pub fn copy(&self) -> (d: MetricDefinition)
        ensures
            d@ == self@,
    {
        MetricDefinition { metric: self.metric, resolution: self.resolution.copy() }
    }
}

/// A copy of a sequence of definitions.
pub fn copy_definitions(defs: &Vec<MetricDefinition>) -> (r: Vec<MetricDefinition>)
    ensures
        defs_view(r@) == defs_view(defs@),
{
    let mut out: Vec<MetricDefinition> = Vec::new();
    let mut i: usize = 0;
    while i < defs.len()
        invariant
            i <= defs@.len(),
            out@.len() == i,
            forall|j: int| 0 <= j < i ==> (#[trigger] out@[j])@ == defs@[j]@,
        decreases defs.len() - i,
    {
        out.push(defs[i].copy());
        i = i + 1;
    }
    assert(defs_view(out@) =~= defs_view(defs@));
    out
}

/// Appends `more` to `defs`.
pub fn extend_definitions(defs: &mut Vec<MetricDefinition>, more: Vec<MetricDefinition>)
    ensures
        defs_view(final(defs)@) == defs_view(old(defs)@) + defs_view(more@),
{
    let mut more = more;
    let ghost a = defs@;
    let ghost b = more@;
    defs.append(&mut more);
    assert(defs@ == a + b);
    assert(defs_view(defs@) =~= defs_view(a) + defs_view(b));
}

/// A source of metric definitions. Implement this to provide custom metrics.
pub trait MetricCatalog {
    /// The definitions that this catalog provides.
    spec fn spec_definitions(&self) -> Seq<DefinitionView>;

    /// The definitions that this catalog provides.
    fn definitions(&self) -> (r: Vec<MetricDefinition>)
        ensures
            defs_view(r@) == self.spec_definitions(),
    ;
}

/// A catalog backed by a pre-built Vec of definitions.
pub struct VecCatalog(pub Vec<MetricDefinition>);

impl MetricCatalog for VecCatalog {
    open spec fn spec_definitions(&self) -> Seq<DefinitionView> {
        defs_view(self.0@)
    }

    fn definitions(&self) -> (r: Vec<MetricDefinition>) {
        copy_definitions(&self.0)
    }
}

/// The default catalog combining all standard metric definitions.
pub struct DefaultCatalog;

/// The definitions of the default catalog: income statement, balance
/// sheet, cash flow, per-share metrics and ratios, in that order.
pub open spec fn default_definitions_spec() -> Seq<DefinitionView> {
    income_statement::income_statement_definitions_spec() + balance_sheet::balance_sheet_definitions_spec()
        + cash_flow::cash_flow_definitions_spec() + per_share::per_share_definitions_spec()
        + ratios::ratios_definitions_spec()
}

impl MetricCatalog for DefaultCatalog {
    open spec fn spec_definitions(&self) -> Seq<DefinitionView> {
        default_definitions_spec()
    }

    fn definitions(&self) -> (r: Vec<MetricDefinition>) {
        let mut defs: Vec<MetricDefinition> = Vec::new();
        assert(defs_view(defs@) =~= Seq::empty());
        extend_definitions(&mut defs, income_statement::definitions());
        extend_definitions(&mut defs, balance_sheet::definitions());
        extend_definitions(&mut defs, cash_flow::definitions());
        extend_definitions(&mut defs, per_share::definitions());
        extend_definitions(&mut defs, ratios::definitions());
        assert(defs_view(defs@) =~= default_definitions_spec());
        defs
    }
}

} // verus!
