//! Version publish and list-query shapes.

use vstd::prelude::*;

use crate::models::enums::VersionStatus;
use crate::schemas::applicability::Applicability;
use crate::schemas::rule_graph::RuleGraph;

verus! {

/// Target environment for publish/unpublish.
#[derive(Debug, Clone, Copy, PartialEq, Eq, Structural)]
pub enum PublishEnvironment {
    /// The staging environment.
    Staging,
    /// The live environment.
    Live,
}

/// Request body for publish/unpublish.
#[derive(Debug, Clone)]
pub struct PublishRequest {
    /// Target environment.
    pub environment: PublishEnvironment,
}

/// Query parameters for `GET /features/{fid}/versions`.
#[derive(Debug, Clone)]
pub struct VersionListQuery {
    /// Filter by lifecycle status.
    pub status: Option<VersionStatus>,
    /// Free-text search over description.
    pub search: Option<String>,
    /// 1-based page number.
    pub page: Option<u32>,
    /// Page size (capped at the maximum page size).
    pub page_size: Option<u32>,
}

/// Request body for `POST /features/{fid}/versions`. An omitted rule graph
/// or applicability gate is carried forward from the source version.
#[derive(Debug, Clone, Default)]
pub struct VersionCreate {
    /// Optional description of the new version.
    pub description: Option<String>,
    /// Optional rule graph to store on the new version.
    pub rule_graph: Option<RuleGraph>,
    /// Optional applicability gate.
    pub applicability: Option<Applicability>,
}

/// Request body for `PATCH /features/{fid}/versions/{vnum}`.
#[derive(Debug, Clone)]
pub struct VersionUpdate {
    /// Updated description.
    pub description: Option<String>,
    /// Updated rule graph.
    pub rule_graph: Option<RuleGraph>,
    /// Updated applicability gate (editable on drafts only).
    pub applicability: Option<Applicability>,
}

/// Full version representation.
#[derive(Debug, Clone)]
pub struct VersionRead {
    /// Version id.
    pub id: u128,
    /// Owning feature slug.
    pub feature_id: String,
    /// Monotonic version number within the feature.
    pub version_number: i32,
    /// Optional description.
    pub description: Option<String>,
    /// Lifecycle status.
    pub status: VersionStatus,
    /// Typed rule graph.
    pub rule_graph: RuleGraph,
    /// Applicability gate.
    pub applicability: Applicability,
    /// Author.
    pub created_by: String,
    /// Last updater.
    pub last_updated_by: String,
    /// Last update time.
    pub last_updated_at: i64,
    /// Creation time.
    pub created_at: i64,
}

/// Lightweight version row for list responses (no rule graph).
#[derive(Debug, Clone)]
pub struct VersionSummary {
    /// Version id.
    pub id: u128,
    /// Owning feature slug.
    pub feature_id: String,
    /// Monotonic version number within the feature.
    pub version_number: i32,
    /// Optional description.
    pub description: Option<String>,
    /// Lifecycle status.
    pub status: VersionStatus,
    /// Last updater.
    pub last_updated_by: String,
    /// Last update time.
    pub last_updated_at: i64,
    /// Creation time.
    pub created_at: i64,
}

} // verus!
