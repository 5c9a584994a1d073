//! Test-preset rows: saved inputs of the test panels.

use vstd::prelude::*;

verus! {

/// A test preset.
#[derive(Debug)]
pub struct TestPreset {
    /// Slug primary key.
    pub slug: String,
    /// Human-readable name.
    pub name: String,
    /// Preset kind (`rule` | `url`).
    pub kind: String,
    /// Opaque saved inputs (a JSON object).
    pub payload: serde_json::Value,
    /// Creation time.
    pub created_at: i64,
    /// Last-update time.
    pub updated_at: i64,
}

} // verus!
