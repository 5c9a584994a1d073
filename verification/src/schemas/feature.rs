//! Feature request shapes.

use vstd::prelude::*;

use crate::models::enums::FeatureType;
use crate::models::feature::Feature;

verus! {

/// Request body for `POST /features`.
#[derive(Debug, Clone)]
pub struct FeatureCreate {
    /// Slug primary key (kebab-case, lowercase, 3..=64 chars).
    pub id: String,
    /// Human-readable name.
    pub name: String,
    /// Content type (the `type` field of the wire format).
    pub feature_type: FeatureType,
}

/// Request body for `PATCH /features/{fid}`.
#[derive(Debug, Clone)]
pub struct FeatureUpdate {
    /// New human-readable name.
    pub name: Option<String>,
}

/// Response shape for a feature.
#[derive(Debug, Clone)]
pub struct FeatureRead {
    /// Slug primary key.
    pub id: String,
    /// Human-readable name.
    pub name: String,
    /// Content type (the `type` field of the wire format).
    pub feature_type: FeatureType,
    /// Currently staged version id.
    pub staging_version_id: Option<u128>,
    /// Currently live version id.
    pub live_version_id: Option<u128>,
    /// Creation time.
    pub created_at: i64,
    /// Last-update time.
    pub updated_at: i64,
}

impl From<Feature> for FeatureRead {
    fn from(f: Feature) -> (res: Self)
        ensures
            res.id == f.id,
            res.name == f.name,
            res.feature_type == f.feature_type,
            res.staging_version_id == f.staging_version_id,
            res.live_version_id == f.live_version_id,
            res.created_at == f.created_at,
            res.updated_at == f.updated_at,
    {
        FeatureRead {
            id: f.id,
            name: f.name,
            feature_type: f.feature_type,
            staging_version_id: f.staging_version_id,
            live_version_id: f.live_version_id,
            created_at: f.created_at,
            updated_at: f.updated_at,
        }
    }
}

impl vstd::std_specs::convert::FromSpecImpl<Feature> for FeatureRead {
    open spec fn obeys_from_spec() -> bool {
        true
    }

    open spec fn from_spec(f: Feature) -> FeatureRead {
        FeatureRead {
            id: f.id,
            name: f.name,
            feature_type: f.feature_type,
            staging_version_id: f.staging_version_id,
            live_version_id: f.live_version_id,
            created_at: f.created_at,
            updated_at: f.updated_at,
        }
    }
}

} // verus!
