//! Feature rows: the unit an author owns, keyed by slug.

use vstd::prelude::*;

use crate::models::enums::FeatureType;

verus! {

/// A feature and the versions it currently serves.
#[derive(Debug, Clone)]
pub struct Feature {
    /// Slug primary key.
    pub id: String,
    /// Human-readable name.
    pub name: String,
    /// Content type (the `type` column).
    pub feature_type: FeatureType,
    /// Currently staged version id.
    pub staging_version_id: Option<u128>,
    /// Currently live version id.
    pub live_version_id: Option<u128>,
    /// Creation time.
    pub created_at: i64,
    /// Last-update time.
    pub updated_at: i64,
}

} // verus!
