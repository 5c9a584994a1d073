//! Outcome rows: a named bundle of components within a version.

use vstd::prelude::*;

verus! {

/// An outcome of a version.
#[derive(Debug, Clone)]
pub struct Outcome {
    /// Outcome id.
    pub id: u128,
    /// Owning version id.
    pub version_id: u128,
    /// Display title.
    pub title: String,
    /// Optional description.
    pub description: Option<String>,
    /// Whether this is the protected builtin outcome.
    pub is_builtin: bool,
    /// Ordering within the version.
    pub order_index: i32,
    /// Creation time.
    pub created_at: i64,
    /// Last-update time.
    pub updated_at: i64,
}

} // verus!
