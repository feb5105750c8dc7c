//! Edge vocabulary of the memory graph.
use vstd::prelude::*;

verus! {

/// Coarse grouping of typed graph edges. Every relation type belongs to
/// exactly one category; decay parameters can be overridden per category.
#[derive(Debug, Clone, Copy, PartialEq, Eq, Hash, Structural)]
pub enum EdgeCategory {
    /// Part-of / containment / ownership backbone.
    Structure,
    /// Cause and effect (causes, inhibits, enables, amplifies, ...).
    Causal,
    /// Ordering in time (preceded, triggered, coincided with).
    Temporal,
    /// Statements about other statements (contradicts, supports, ...).
    Meta,
}

} // verus!
