//! Product rows of the catalogue.

use vstd::prelude::*;

verus! {

/// A product, keyed by its snake_case label.
#[derive(Debug, Clone)]
pub struct Product {
    /// Snake_case label primary key.
    pub label: String,
    /// Human-readable name.
    pub name: String,
    /// Optional description.
    pub description: Option<String>,
    /// Creation time.
    pub created_at: i64,
    /// Last-update time.
    pub updated_at: i64,
}

} // verus!
