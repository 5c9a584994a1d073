//! Version rows of a feature.

use vstd::prelude::*;

use crate::models::enums::VersionStatus;

verus! {

/// A version of a feature, carrying the rule graph and applicability gate as
/// stored JSON.
#[derive(Debug)]
pub struct Version {
    /// Version id.
    pub id: u128,
    /// Owning feature slug.
    pub feature_id: String,
    /// Monotonic version number within the feature.
    pub version_number: i32,
    /// Optional description.
    pub description: Option<String>,
    /// Lifecycle status.
    pub status: VersionStatus,
    /// Rule graph, as stored.
    pub rule_graph: serde_json::Value,
    /// Applicability gate, as stored.
    pub applicability: serde_json::Value,
    /// Author.
    pub created_by: String,
    /// Last updater.
    pub last_updated_by: String,
    /// Last update time.
    pub last_updated_at: i64,
    /// Creation time.
    pub created_at: i64,
}

} // verus!
