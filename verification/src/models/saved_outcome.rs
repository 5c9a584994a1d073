//! Saved-outcome rows: a named reference to one library component version
//! with fixed variable values.

use vstd::prelude::*;

verus! {

/// A saved outcome.
#[derive(Debug)]
pub struct SavedOutcome {
    /// Saved-outcome id.
    pub id: u128,
    /// Slug.
    pub slug: String,
    /// Name.
    pub name: String,
    /// Referenced component template id.
    pub component_id: u128,
    /// Pinned version number; `None` follows the template's default.
    pub version_number: Option<i32>,
    /// Variable values, stored as a JSON object of strings.
    pub variables: serde_json::Value,
    /// Creation time.
    pub created_at: i64,
    /// Last-update time.
    pub updated_at: i64,
}

} // verus!
