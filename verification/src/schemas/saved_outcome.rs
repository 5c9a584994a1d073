//! Saved-outcome request and response shapes.

use vstd::prelude::*;

use crate::json::{object_members, string_members, string_members_of};
use crate::string_map::{collect_entries, StringMap};
use crate::models::saved_outcome::SavedOutcome;

verus! {

/// `PATCH` body. `version_number` is a double option: omitted → unchanged;
/// present as `null` → cleared to "Latest"; present with a value → pinned.
/// `variables` are the replacement `name → value` map.
#[derive(Debug, Clone, Default)]
pub struct SavedOutcomeUpdate {
    /// New name.
    pub name: Option<String>,
    /// Version pin change (see the type's documentation).
    pub version_number: Option<Option<i32>>,
    /// Replacement variable values.
    pub variables: Option<StringMap>,
}

impl SavedOutcomeUpdate {
    /// Whether the update carries no fields (a no-op PATCH).
    pub fn is_empty(&self) -> (res: bool)
        ensures
            res == (self.name is None && self.version_number is None && self.variables is None),
    {
        self.name.is_none() && self.version_number.is_none() && self.variables.is_none()
    }
}

/// Proxy-facing resolved-and-rendered saved outcome.
#[derive(Debug, Clone)]
pub struct ResolvedSavedOutcomeRead {
    /// Already-rendered HTML body.
    pub html_body: String,
}

/// Request body for `POST /saved-outcomes`.
#[derive(Debug, Clone)]
pub struct SavedOutcomeCreate {
    /// Slug (kebab-case, lowercase, 3..=120 chars).
    pub slug: String,
    /// Name.
    pub name: String,
    /// Referenced component template id.
    pub component_id: u128,
    /// Pinned version; `None` means "Latest".
    pub version_number: Option<i32>,
    /// Variable values.
    pub variables: StringMap,
}

/// Saved-outcome read shape.
#[derive(Debug, Clone)]
pub struct SavedOutcomeRead {
    /// Saved-outcome id.
    pub id: u128,
    /// Slug.
    pub slug: String,
    /// Name.
    pub name: String,
    /// Referenced component template id.
    pub component_id: u128,
    /// Name of the referenced component template, joined at read time.
    pub component_name: String,
    /// Pinned version; `None` means "Latest".
    pub version_number: Option<i32>,
    /// Variable values.
    pub variables: StringMap,
    /// Creation time.
    pub created_at: i64,
    /// Last-update time.
    pub updated_at: i64,
}

/// Builds a [`SavedOutcomeRead`] from a row plus its joined component name;
/// the variables are the string-valued members of the stored object.
pub fn to_read(row: SavedOutcome, component_name: String) -> (res: SavedOutcomeRead)
    ensures
        res.id == row.id,
        res.slug == row.slug,
        res.name == row.name,
        res.component_id == row.component_id,
        res.component_name == component_name,
        res.version_number == row.version_number,
        res.variables@ == collect_entries(string_members(object_members(row.variables))),
        res.created_at == row.created_at,
        res.updated_at == row.updated_at,
{
    let variables = StringMap::from_entries(string_members_of(&row.variables));
    SavedOutcomeRead {
        id: row.id,
        slug: row.slug,
        name: row.name,
        component_id: row.component_id,
        component_name,
        version_number: row.version_number,
        variables,
        created_at: row.created_at,
        updated_at: row.updated_at,
    }
}

} // verus!
