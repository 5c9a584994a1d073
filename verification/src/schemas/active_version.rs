//! The active (live or staging) version of a feature, flattened for the
//! proxy. Outcomes, and the components of each outcome, are ordered by
//! `order_index`.

use vstd::prelude::*;

use crate::models::enums::Placement;
use crate::schemas::applicability::Applicability;
use crate::schemas::rule_graph::RuleGraph;

verus! {

/// One component within an active outcome.
#[derive(Debug)]
pub struct ActiveComponent {
    /// Component id.
    pub id: u128,
    /// Component slug.
    pub slug: String,
    /// Component type discriminator; the proxy dispatches on it.
    pub component_type: String,
    /// Stored component configuration.
    pub config: serde_json::Value,
    /// Placement.
    pub placement: Placement,
    /// Ordering index.
    pub order_index: i32,
}

/// One outcome within the active version.
#[derive(Debug)]
pub struct ActiveOutcome {
    /// Outcome id.
    pub id: u128,
    /// Outcome title.
    pub title: String,
    /// Whether this is the protected builtin outcome.
    pub is_builtin: bool,
    /// Ordering index.
    pub order_index: i32,
    /// Components, ordered by `order_index`.
    pub components: Vec<ActiveComponent>,
}

/// The active version of a feature.
#[derive(Debug)]
pub struct ActiveVersionRead {
    /// The active version's number.
    pub version_number: i32,
    /// The typed rule graph.
    pub rule_graph: RuleGraph,
    /// Applicability gate.
    pub applicability: Applicability,
    /// Outcomes, ordered by `order_index`.
    pub outcomes: Vec<ActiveOutcome>,
}

} // verus!
