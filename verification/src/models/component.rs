//! Component rows: one concrete response edit inside an outcome.

use vstd::prelude::*;

use crate::models::enums::Placement;

verus! {

/// A component of an outcome.
#[derive(Debug)]
pub struct Component {
    /// Component id.
    pub id: u128,
    /// Owning outcome id.
    pub outcome_id: u128,
    /// Stable slug within the outcome.
    pub slug: String,
    /// Discriminator string (`html_injection`, `json_set`, ...).
    pub component_type: String,
    /// Typed configuration, as stored (carries a matching `type` tag).
    pub config: serde_json::Value,
    /// Placement on the page.
    pub placement: Placement,
    /// Ordering within the outcome.
    pub order_index: i32,
    /// Creation time.
    pub created_at: i64,
    /// Last-update time.
    pub updated_at: i64,
}

} // verus!
