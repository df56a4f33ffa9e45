//! How a standardized metric is resolved from raw XBRL tags.
use vstd::prelude::*;

verus! {

/// Specifies a single XBRL tag to look up.
#[derive(Debug, Clone)]
pub struct TagSpec {
    /// The XBRL taxonomy (e.g., "us-gaap", "dei", "ifrs-full").
    pub taxonomy: String,
    /// The XBRL tag name.
    pub tag: String,
    /// Preferred unit (e.g., "USD", "shares", "USD/shares"). None = any.
    pub unit: Option<String>,
}

/// The characters of a tag specification.
pub struct TagSpecView {
    pub taxonomy: Seq<char>,
    pub tag: Seq<char>,
    pub unit: Option<Seq<char>>,
}

impl View for TagSpec {
    type V = TagSpecView;

    open spec fn view(&self) -> TagSpecView {
        TagSpecView {
            taxonomy: self.taxonomy@,
            tag: self.tag@,
            unit: match self.unit {
                Some(u) => Some(u@),
                None => None,
            },
        }
    }
}

/// The views of a sequence of tag specifications.
pub open spec fn specs_view(s: Seq<TagSpec>) -> Seq<TagSpecView> {
    s.map_values(|t: TagSpec| t@)
}

/// A tag specification in taxonomy `taxonomy` with unit `unit`.
pub open spec fn tag_spec_is(t: TagSpec, taxonomy: Seq<char>, tag: Seq<char>, unit: Option<Seq<char>>) -> bool {
    t@ == TagSpecView { taxonomy, tag, unit }
}

/// A copy of an optional string.
pub fn copy_opt_string(o: &Option<String>) -> (r: Option<String>)
    ensures
        r == *o,
{
    match o {
        Some(s) => Some(s.clone()),
        None => None,
    }
}

impl TagSpec {
    /// A us-gaap tag, in any unit.
    pub fn gaap(tag: &str) -> (r: Self)
        ensures
            tag_spec_is(r, "us-gaap"@, tag@, None),
    {
        Self { taxonomy: String::from_str("us-gaap"), tag: String::from_str(tag), unit: None }
    }

    /// A us-gaap tag in US dollars.
    pub fn gaap_usd(tag: &str) -> (r: Self)
        ensures
            tag_spec_is(r, "us-gaap"@, tag@, Some("USD"@)),
    {
        Self {
            taxonomy: String::from_str("us-gaap"),
            tag: String::from_str(tag),
            unit: Some(String::from_str("USD")),
        }
    }

    /// A us-gaap tag counted in shares.
    pub fn gaap_shares(tag: &str) -> (r: Self)
        ensures
            tag_spec_is(r, "us-gaap"@, tag@, Some("shares"@)),
    {
        Self {
            taxonomy: String::from_str("us-gaap"),
            tag: String::from_str(tag),
            unit: Some(String::from_str("shares")),
        }
    }

    /// A us-gaap tag in US dollars per share.
    pub fn gaap_per_share(tag: &str) -> (r: Self)
        ensures
            tag_spec_is(r, "us-gaap"@, tag@, Some("USD/shares"@)),
    {
        Self {
            taxonomy: String::from_str("us-gaap"),
            tag: String::from_str(tag),
            unit: Some(String::from_str("USD/shares")),
        }
    }

    /// A dei (document and entity information) tag, in any unit.
    pub fn dei(tag: &str) -> (r: Self)
        ensures
            tag_spec_is(r, "dei"@, tag@, None),
    {
        Self { taxonomy: String::from_str("dei"), tag: String::from_str(tag), unit: None }
    }

    /// A copy of this specification.
    pub fn copy(&self) -> (r: Self)
        ensures
            r == *self,
    {
        TagSpec {
            taxonomy: self.taxonomy.clone(),
            tag: self.tag.clone(),
            unit: copy_opt_string(&self.unit),
        }
    }
}

/// How to resolve a standardized metric from raw XBRL facts.
#[derive(Debug)]
pub enum MetricResolution {
    /// Try tags in order, take the first one that has data.
    FirstMatch(Vec<TagSpec>),
    /// Sum values from multiple tags.
    Sum(Vec<TagSpec>),
    /// Compute A - B.
    Difference(Box<TagSpec>, Box<TagSpec>),
    /// Compute A / B.
    Ratio(Box<MetricResolution>, Box<MetricResolution>),
    /// Computed from already-resolved metrics by the formula with this number.
    Custom(u32),
}

/// The characters of a resolution strategy.
pub enum ResolutionView {
    FirstMatch(Seq<TagSpecView>),
    Sum(Seq<TagSpecView>),
    Difference(TagSpecView, TagSpecView),
    Ratio(Box<ResolutionView>, Box<ResolutionView>),
    Custom(u32),
}

/// The view of a resolution strategy.
pub open spec fn resolution_view(r: MetricResolution) -> ResolutionView
    decreases r,
{
    match r {
        MetricResolution::FirstMatch(specs) => ResolutionView::FirstMatch(specs_view(specs@)),
        MetricResolution::Sum(specs) => ResolutionView::Sum(specs_view(specs@)),
        MetricResolution::Difference(a, b) => ResolutionView::Difference(a@, b@),
        MetricResolution::Ratio(a, b) => ResolutionView::Ratio(
            Box::new(resolution_view(*a)),
            Box::new(resolution_view(*b)),
        ),
        MetricResolution::Custom(n) => ResolutionView::Custom(n),
    }
}

impl View for MetricResolution {
    type V = ResolutionView;

    open spec fn view(&self) -> ResolutionView {
        resolution_view(*self)
    }
}

/// All tag specifications that a resolution refers to, in order.
pub open spec fn resolution_tag_specs(r: MetricResolution) -> Seq<TagSpec>
    decreases r,
{
    match r {
        MetricResolution::FirstMatch(specs) => specs@,
        MetricResolution::Sum(specs) => specs@,
        MetricResolution::Difference(a, b) => seq![*a, *b],
        MetricResolution::Ratio(a, b) => resolution_tag_specs(*a) + resolution_tag_specs(*b),
        MetricResolution::Custom(_) => Seq::empty(),
    }
}

/// A copy of a sequence of tag specifications.
pub fn copy_specs(specs: &Vec<TagSpec>) -> (r: Vec<TagSpec>)
    ensures
        r@ == specs@,
{
    let mut out: Vec<TagSpec> = Vec::new();
    let mut i: usize = 0;
    while i < specs.len()
        invariant
            i <= specs@.len(),
            out@ == specs@.take(i as int),
        decreases specs.len() - i,
    {
        out.push(specs[i].copy());
        i = i + 1;
        assert(out@ =~= specs@.take(i as int));
    }
    assert(specs@.take(i as int) =~= specs@);
    out
}

impl MetricResolution {
    /// All TagSpecs referenced by this resolution, in order.
    /// Useful for coverage analysis to know which tags were tried.
    pub fn tag_specs(&self) -> (r: Vec<TagSpec>)
        ensures
            r@ == resolution_tag_specs(*self),
        decreases self,
    {
        match self {
            MetricResolution::FirstMatch(specs) => copy_specs(specs),
            MetricResolution::Sum(specs) => copy_specs(specs),
            MetricResolution::Difference(a, b) => {
                let mut out: Vec<TagSpec> = Vec::new();
                out.push(a.copy());
                out.push(b.copy());
                assert(out@ =~= seq![**a, **b]);
                out
            },
            MetricResolution::Ratio(a, b) => {
                let mut out = a.tag_specs();
                let mut rest = b.tag_specs();
                out.append(&mut rest);
                out
            },
            MetricResolution::Custom(_) => Vec::new(),
        }
    }

    /// A copy of this resolution.
    pub fn copy(&self) -> (r: Self)
        ensures
            r@ == self@,
            resolution_tag_specs(r) == resolution_tag_specs(*self),
        decreases self,
    {
        match self {
            MetricResolution::FirstMatch(specs) => MetricResolution::FirstMatch(copy_specs(specs)),
            MetricResolution::Sum(specs) => MetricResolution::Sum(copy_specs(specs)),
            MetricResolution::Difference(a, b) => MetricResolution::Difference(
                Box::new(a.copy()),
                Box::new(b.copy()),
            ),
            MetricResolution::Ratio(a, b) => MetricResolution::Ratio(
                Box::new(a.copy()),
                Box::new(b.copy()),
            ),
            MetricResolution::Custom(n) => MetricResolution::Custom(*n),
        }
    }

    /// Whether this resolution is computed from already-resolved metrics.
    pub fn is_custom(&self) -> (r: bool)
        ensures
            r == (*self is Custom),
    {
        match self {
            MetricResolution::Custom(_) => true,
            _ => false,
        }
    }
}

} // verus!
