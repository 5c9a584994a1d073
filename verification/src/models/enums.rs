//! Shared enumerations of the domain model.

use vstd::prelude::*;

verus! {

/// Feature content type.
#[derive(Debug, Clone, Copy, PartialEq, Eq, Structural)]
pub enum FeatureType {
    /// HTML feature.
    Html,
    /// JSON feature.
    Json,
}

/// Version lifecycle status.
#[derive(Debug, Clone, Copy, PartialEq, Eq, Structural)]
pub enum VersionStatus {
    /// Editable draft.
    Draft,
    /// Published to the staging environment.
    Staging,
    /// Published to the live environment.
    Live,
    /// Previously published, now superseded.
    Prev,
}

/// How a component template's default version resolves: `Latest` tracks the
/// highest version number, `Pinned` resolves to the template's pinned
/// version id.
#[derive(Debug, Clone, Copy, PartialEq, Eq, Structural)]
pub enum DefaultMode {
    /// Default tracks the highest version number.
    Latest,
    /// Default is pinned to the template's `default_version_id`.
    Pinned,
}

/// Component placement on the page.
#[derive(Debug, Clone, Copy, PartialEq, Eq, Structural)]
pub enum Placement {
    /// Inline within the matched element.
    Inline,
    /// Sticky footer overlay.
    StickyFooter,
    /// Popup/modal overlay.
    Popup,
}

} // verus!
