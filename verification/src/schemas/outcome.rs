//! Outcome request shapes.

use vstd::prelude::*;

use crate::models::outcome::Outcome;
use crate::schemas::component::ComponentRead;

verus! {

/// Create-outcome request body.
#[derive(Debug, Clone)]
pub struct OutcomeCreate {
    /// Display title.
    pub title: String,
    /// Optional description.
    pub description: Option<String>,
}

/// Patch-outcome request body; all fields optional.
#[derive(Debug, Clone)]
pub struct OutcomeUpdate {
    /// New title.
    pub title: Option<String>,
    /// New description.
    pub description: Option<String>,
    /// New ordering within the version.
    pub order_index: Option<i32>,
}

/// Outcome read shape with its components (ordered by `order_index`).
#[derive(Debug)]
pub struct OutcomeRead {
    /// Outcome id.
    pub id: u128,
    /// Owning version id.
    pub version_id: u128,
    /// Title.
    pub title: String,
    /// Optional description.
    pub description: Option<String>,
    /// Whether this is the protected builtin outcome.
    pub is_builtin: bool,
    /// Ordering within the version.
    pub order_index: i32,
    /// Nested components.
    pub components: Vec<ComponentRead>,
    /// Creation time.
    pub created_at: i64,
    /// Last-update time.
    pub updated_at: i64,
}

impl OutcomeRead {
    /// Builds the read shape from an outcome row and its (already ordered)
    /// components.
    pub fn from_parts(outcome: Outcome, components: Vec<ComponentRead>) -> (res: Self)
        ensures
            res.id == outcome.id,
            res.version_id == outcome.version_id,
            res.title == outcome.title,
            res.description == outcome.description,
            res.is_builtin == outcome.is_builtin,
            res.order_index == outcome.order_index,
            res.components == components,
            res.created_at == outcome.created_at,
            res.updated_at == outcome.updated_at,
    {
        OutcomeRead {
            id: outcome.id,
            version_id: outcome.version_id,
            title: outcome.title,
            description: outcome.description,
            is_builtin: outcome.is_builtin,
            order_index: outcome.order_index,
            components,
            created_at: outcome.created_at,
            updated_at: outcome.updated_at,
        }
    }
}

/// One element of a component reorder request.
#[derive(Debug, Clone, Copy)]
pub struct ReorderItem {
    /// Target component id.
    pub id: u128,
    /// New ordering value.
    pub order_index: i32,
}

} // verus!
