//! Query-string parameters of the `/api/v1` endpoints.

use vstd::prelude::*;

use crate::schemas::version::PublishEnvironment;

verus! {

/// `?q` name filter of the component-template list.
#[derive(Debug, Clone, Default)]
pub struct ComponentListQuery {
    /// Case-insensitive name filter.
    pub q: Option<String>,
}

/// `?version=default|N` of the component-template resolve endpoint.
#[derive(Debug, Clone, Default)]
pub struct ResolveQuery {
    /// `default` (or absent) for the current default; a positive integer for
    /// that version.
    pub version: Option<String>,
}

/// `?env=live|staging` of the active-version endpoint (default `live`).
#[derive(Debug, Clone)]
pub struct ActiveVersionQuery {
    /// Target environment.
    pub env: Option<PublishEnvironment>,
}

/// `?q` name filter of the product list.
#[derive(Debug, Clone, Default)]
pub struct ProductListQuery {
    /// Case-insensitive name filter.
    pub q: Option<String>,
}

/// `?q` name filter of the saved-outcome list.
#[derive(Debug, Clone, Default)]
pub struct SavedOutcomeListQuery {
    /// Case-insensitive name filter.
    pub q: Option<String>,
}

/// `?q` name filter of the site list.
#[derive(Debug, Clone, Default)]
pub struct SiteListQuery {
    /// Case-insensitive name filter.
    pub q: Option<String>,
}

/// `?env=live|staging` of the site edge-bundle export (default `live`).
#[derive(Debug, Clone)]
pub struct EdgeBundleQuery {
    /// Target environment.
    pub env: Option<PublishEnvironment>,
}

/// Filters of the test-preset list.
#[derive(Debug, Clone, Default)]
pub struct TestPresetListQuery {
    /// Case-insensitive name filter.
    pub q: Option<String>,
    /// Filter to a single kind (`rule` | `url`).
    pub kind: Option<String>,
}

} // verus!
