//! Hybrid memory decay: configuration and the decisions around the curve.
//!
//! Memories and edges decay exponentially during a consolidation phase and
//! by a power law afterwards. The curve itself is computed in floating point
//! outside this crate; what is kept here is everything around it that is
//! decided exactly:
//!
//! - which tier of the three-tier model an edge's tier index selects, and
//!   the maximum age (in hours) of each tier;
//! - the per-edge-category decay configuration: a default parameter set and
//!   overrides per [`EdgeCategory`], with lookup falling back to the default;
//! - the text of the retention-curve report.
use vstd::prelude::*;

use crate::decimal::{one_decimal, pad_left, push_one_decimal_padded};
use crate::graph_memory::EdgeCategory;

verus! {

// ---------------------------------------------------------------------------
// Tiers
// ---------------------------------------------------------------------------

/// Maximum age of an L1 (working) edge, in hours.
pub const L1_MAX_AGE_HOURS: u32 = 48;

/// Maximum age of an L2 (episodic) edge, in days.
pub const L2_MAX_AGE_DAYS: u32 = 30;

/// Maximum age of an L3 (semantic) edge, in hours: effectively unlimited
/// (ten years).
pub const L3_MAX_AGE_HOURS: u32 = 87600;

/// Tier of the three-tier memory model that sets an edge's decay rate and
/// maximum age.
#[derive(Debug, Clone, Copy, PartialEq, Eq, Structural)]
pub enum DecayTier {
    /// L1, working memory: hourly decay, pruned after hours.
    Working,
    /// L2, episodic memory: daily decay, pruned after days.
    Episodic,
    /// L3, semantic memory: monthly decay, near-permanent.
    Semantic,
}

/// The tier that a tier index selects: 0 is L1, 1 is L2, and every other
/// index is L3.
pub open spec fn tier_of_index(tier: u8) -> DecayTier {
    if tier == 0 {
        DecayTier::Working
    } else if tier == 1 {
        DecayTier::Episodic
    } else {
        DecayTier::Semantic
    }
}

/// Maximum age of a tier, in hours.
pub open spec fn tier_max_age_hours(tier: DecayTier) -> nat {
    match tier {
        DecayTier::Working => L1_MAX_AGE_HOURS as nat,
        DecayTier::Episodic => (L2_MAX_AGE_DAYS * 24) as nat,
        DecayTier::Semantic => L3_MAX_AGE_HOURS as nat,
    }
}

impl DecayTier {
    /// The tier for a tier index (0 = L1, 1 = L2, 2 = L3). An index above
    /// 2 is treated as L3.
    pub fn from_index(tier: u8) -> (t: DecayTier)
        ensures
            t == tier_of_index(tier),
            tier >= 2 ==> t == DecayTier::Semantic,
    {
        match tier {
            0 => DecayTier::Working,
            1 => DecayTier::Episodic,
            _ => DecayTier::Semantic,
        }
    }

    /// Maximum age of this tier in hours, before any long-term
    /// potentiation extends it.
    pub fn max_age_hours(self) -> (hours: u32)
        ensures
            hours == tier_max_age_hours(self),
    {
        match self {
            DecayTier::Working => L1_MAX_AGE_HOURS,
            DecayTier::Episodic => L2_MAX_AGE_DAYS * 24,
            DecayTier::Semantic => L3_MAX_AGE_HOURS,
        }
    }
}

// ---------------------------------------------------------------------------
// Per-category overrides
// ---------------------------------------------------------------------------

/// A map from edge category to a value, holding at most one value per
/// category. Its view is a `Map<EdgeCategory, P>`.
pub struct EdgeCategoryMap<P> {
    structure: Option<P>,
    causal: Option<P>,
    temporal: Option<P>,
    meta: Option<P>,
}

impl<P> EdgeCategoryMap<P> {
    /// The value stored for `category`, if any.
    pub closed spec fn slot(self, category: EdgeCategory) -> Option<P> {
        match category {
            EdgeCategory::Structure => self.structure,
            EdgeCategory::Causal => self.causal,
            EdgeCategory::Temporal => self.temporal,
            EdgeCategory::Meta => self.meta,
        }
    }
}

impl<P> View for EdgeCategoryMap<P> {
    type V = Map<EdgeCategory, P>;

    closed spec fn view(&self) -> Map<EdgeCategory, P> {
        Map::new(|c: EdgeCategory| self.slot(c) is Some, |c: EdgeCategory| self.slot(c)->0)
    }
}

impl<P: Copy> EdgeCategoryMap<P> {
    /// An empty map.
    pub fn new() -> (m: Self)
        ensures
            m@ == Map::<EdgeCategory, P>::empty(),
    {
        let m = EdgeCategoryMap { structure: None, causal: None, temporal: None, meta: None };
        assert(m@ =~= Map::<EdgeCategory, P>::empty());
        m
    }

    /// Stores `value` for `category`, replacing any value stored before;
    /// returns the value that was replaced.
    pub fn insert(&mut self, category: EdgeCategory, value: P) -> (previous: Option<P>)
        ensures
            final(self)@ == old(self)@.insert(category, value),
            previous == (if old(self)@.contains_key(category) {
                Some(old(self)@[category])
            } else {
                None
            }),
    {
        let previous = match category {
            EdgeCategory::Structure => {
                let p = self.structure;
                self.structure = Some(value);
                p
            },
            EdgeCategory::Causal => {
                let p = self.causal;
                self.causal = Some(value);
                p
            },
            EdgeCategory::Temporal => {
                let p = self.temporal;
                self.temporal = Some(value);
                p
            },
            EdgeCategory::Meta => {
                let p = self.meta;
                self.meta = Some(value);
                p
            },
        };
        assert(self@ =~= old(self)@.insert(category, value));
        previous
    }

    /// The value stored for `category`, if any.
    pub fn get(&self, category: EdgeCategory) -> (value: Option<P>)
        ensures
            value == (if self@.contains_key(category) {
                Some(self@[category])
            } else {
                None
            }),
    {
        match category {
            EdgeCategory::Structure => self.structure,
            EdgeCategory::Causal => self.causal,
            EdgeCategory::Temporal => self.temporal,
            EdgeCategory::Meta => self.meta,
        }
    }
}

/// The parameters that apply to `category`: its override when there is one,
/// `default` otherwise.
pub open spec fn resolve_params<P>(overrides: Map<EdgeCategory, P>, default: P, category: EdgeCategory) -> P {
    if overrides.contains_key(category) {
        overrides[category]
    } else {
        default
    }
}

/// Decay configuration: a default parameter set and per-edge-category
/// overrides. Anything absent from the overrides falls back to `default`.
///
/// `P` is the parameter set of the decay curve (crossover, rates and floor).
pub struct DecayConfig<P> {
    /// Used when no override matches.
    pub default: P,
    /// Per-edge-category overrides.
    pub per_edge_category: EdgeCategoryMap<P>,
}

impl<P: Copy> DecayConfig<P> {
    /// A configuration with the given default and no overrides.
    pub fn new(default: P) -> (config: Self)
        ensures
            config.default == default,
            config.per_edge_category@ == Map::<EdgeCategory, P>::empty(),
    {
        DecayConfig { default, per_edge_category: EdgeCategoryMap::new() }
    }

    /// Look up the params for an edge category, falling back to `default`.
    pub fn params_for_edge_category(&self, category: EdgeCategory) -> (params: P)
        ensures
            params == resolve_params(self.per_edge_category@, self.default, category),
    {
        match self.per_edge_category.get(category) {
            Some(p) => p,
            None => self.default,
        }
    }
}

/// With no overrides, every category gets the default parameters.
pub proof fn lemma_no_override_uses_default<P>(default: P, category: EdgeCategory)
    ensures
        resolve_params(Map::<EdgeCategory, P>::empty(), default, category) == default,
{
}

/// After an override for `category` is stored, looking up `category` gives
/// that override, and looking up any other category gives what it gave
/// before.
pub proof fn lemma_override_read_back<P>(
    overrides: Map<EdgeCategory, P>,
    default: P,
    category: EdgeCategory,
    params: P,
    other: EdgeCategory,
)
    ensures
        resolve_params(overrides.insert(category, params), default, category) == params,
        other != category ==> resolve_params(overrides.insert(category, params), default, other)
            == resolve_params(overrides, default, other),
{
}

// ---------------------------------------------------------------------------
// Retention curve report
// ---------------------------------------------------------------------------

/// Days at which the retention curve is reported, in tenths of a day
/// (0.5, 1, 3, 7, 14, 30, 90 and 365 days).
pub open spec fn retention_sample_tenths() -> Seq<u32> {
    seq![5u32, 10, 30, 70, 140, 300, 900, 3650]
}

/// The days at which the retention curve is reported, in tenths of a day.
pub fn retention_curve_sample_tenths() -> (tenths: Vec<u32>)
    ensures
        tenths@ == retention_sample_tenths(),
{
    vec![5u32, 10, 30, 70, 140, 300, 900, 3650]
}

/// First line of the report, naming the curve.
pub open spec fn retention_header(potentiated: bool) -> Seq<char> {
    "Retention curve ("@ + (if potentiated {
        "potentiated"@
    } else {
        "normal"@
    }) + "):\n"@
}

/// One line of the report: the day, right-aligned in five characters with
/// one decimal, and the retention percentage as given.
pub open spec fn retention_line(tenths: u32, percent: Seq<char>) -> Seq<char> {
    "  Day "@ + pad_left(one_decimal(tenths as nat), 5) + ": "@ + percent + "%\n"@
}

/// The lines for the first `n` samples.
pub open spec fn retention_lines(percents: Seq<Seq<char>>, n: nat) -> Seq<char>
    decreases n,
{
    if n == 0 {
        Seq::empty()
    } else {
        retention_lines(percents, (n - 1) as nat) + retention_line(
            retention_sample_tenths()[n - 1],
            percents[n - 1],
        )
    }
}

/// The whole report.
pub open spec fn retention_report(potentiated: bool, percents: Seq<Seq<char>>) -> Seq<char> {
    retention_header(potentiated) + retention_lines(percents, retention_sample_tenths().len())
}

/// Retention report for debugging/visualization: a header line, then one
/// line per sample day with the retention percentage at that day.
///
/// `percents[i]` is the retention at the `i`-th sample day, already
/// rendered with two decimals in a field of six characters.
pub fn retention_curve_debug(potentiated: bool, percents: &Vec<String>) -> (output: String)
    requires
        percents.len() == retention_sample_tenths().len(),
    ensures
        output@ == retention_report(potentiated, percents@.map_values(|p: String| p@)),
{
    let ghost views = percents@.map_values(|p: String| p@);
    let days = retention_curve_sample_tenths();
    let mut output = String::new();
    output.append("Retention curve (");
    if potentiated {
        output.append("potentiated");
    } else {
        output.append("normal");
    }
    output.append("):\n");
    let mut i: usize = 0;
    while i < days.len()
        invariant
            days@ == retention_sample_tenths(),
            percents.len() == days.len(),
            views == percents@.map_values(|p: String| p@),
            0 <= i <= days.len(),
            output@ == retention_header(potentiated) + retention_lines(views, i as nat),
        decreases days.len() - i,
    {
        let ghost before = output@;
        output.append("  Day ");
        push_one_decimal_padded(&mut output, days[i], 5);
        output.append(": ");
        output.append(percents[i].as_str());
        output.append("%\n");
        assert(views[i as int] == percents@[i as int]@);
        assert(output@ =~= before + retention_line(days@[i as int], views[i as int]));
        i = i + 1;
    }
    output
}

} // verus!
