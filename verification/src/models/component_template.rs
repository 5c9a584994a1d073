//! Component-template rows: a globally scoped, independently versioned HTML
//! (mustache) template and its versions.

use vstd::prelude::*;

use crate::models::enums::DefaultMode;

verus! {

/// A component template: the library entry plus the movable default
/// pointer. `default_version_id` is meaningful only when `default_mode` is
/// `Pinned`; with `Latest` the default is the highest version number.
#[derive(Debug, Clone)]
pub struct ComponentTemplate {
    /// Template id.
    pub id: u128,
    /// Slug (unique, kebab-case).
    pub slug: String,
    /// Human-readable name.
    pub name: String,
    /// Optional description.
    pub description: Option<String>,
    /// How the default version resolves.
    pub default_mode: DefaultMode,
    /// The pinned default version id (used only when pinned).
    pub default_version_id: Option<u128>,
    /// Creation time.
    pub created_at: i64,
    /// Last-update time.
    pub updated_at: i64,
}

/// One version of a component template: the mustache body plus the declared
/// variables (a JSON array of `{name, title, description}`).
#[derive(Debug)]
pub struct ComponentTemplateVersion {
    /// Version id.
    pub id: u128,
    /// Owning template id.
    pub component_id: u128,
    /// Per-template version number (unique within the template).
    pub version_number: i32,
    /// Optional per-version description.
    pub description: Option<String>,
    /// Mustache template body.
    pub html_body: String,
    /// Declared variables.
    pub variables: serde_json::Value,
    /// Creation time.
    pub created_at: i64,
    /// Last-update time.
    pub updated_at: i64,
}

} // verus!
