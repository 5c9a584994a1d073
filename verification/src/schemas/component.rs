//! Component configurations and their domain validation.
//!
//! A component's configuration is a tagged union over the edit kinds: HTML
//! injection, content truncation, and JSON remove/set/replace. Beyond its
//! shape, each kind has domain rules: selectors and paths must be non-blank,
//! word budgets within `1..=10000`, paths at most [`MAX_TARGET_PATH_LEN`]
//! characters.

use vstd::prelude::*;
use vstd::string::*;

use crate::models::component::Component;
use crate::models::enums::Placement;
use crate::text::{char_count, is_blank, is_blank_spec};

verus! {

/// Maximum `target_path` length, in characters.
pub const MAX_TARGET_PATH_LEN: usize = 500;

/// HTML injection placement mode.
#[derive(Debug, Clone, Copy, PartialEq, Eq, Structural)]
pub enum HtmlPlacementMode {
    /// Replace the target element's contents.
    Replace,
    /// Append inside the target element.
    Append,
    /// Prepend inside the target element.
    Prepend,
    /// Insert before the target element.
    Before,
    /// Insert after the target element.
    After,
}

/// Typed component configuration, tagged by `type`.
#[derive(Debug)]
pub enum ComponentConfig {
    /// `type = "html_injection"`.
    HtmlInjection {
        /// CSS selector the injection targets.
        target_selector: String,
        /// How the HTML body is placed relative to the target.
        placement_mode: HtmlPlacementMode,
        /// Raw HTML to inject (sanitized by the proxy at apply time).
        html_body: String,
        /// Optional theme key.
        theme: Option<String>,
    },
    /// `type = "content_truncation"`.
    ContentTruncation {
        /// CSS selector whose content is truncated.
        target_selector: String,
        /// Word budget before truncation (`1..=10000`).
        word_count: u32,
        /// Whether to fade out the truncated remainder.
        fade_out: bool,
    },
    /// `type = "json_remove"`: delete the value(s) at `target_path`.
    JsonRemove {
        /// Simple JSON path (dot + `[index]`) to delete.
        target_path: String,
    },
    /// `type = "json_set"`: create or overwrite the value at `target_path`.
    JsonSet {
        /// Simple JSON path to upsert.
        target_path: String,
        /// The JSON value to write (any JSON, including `null`).
        value: serde_json::Value,
    },
    /// `type = "json_replace"`: overwrite only when `target_path` exists.
    JsonReplace {
        /// Simple JSON path to overwrite when present.
        target_path: String,
        /// The JSON value to write (any JSON, including `null`).
        value: serde_json::Value,
    },
}

/// The discriminator of each configuration kind.
pub open spec fn config_type(c: ComponentConfig) -> Seq<char> {
    match c {
        ComponentConfig::HtmlInjection { .. } => "html_injection"@,
        ComponentConfig::ContentTruncation { .. } => "content_truncation"@,
        ComponentConfig::JsonRemove { .. } => "json_remove"@,
        ComponentConfig::JsonSet { .. } => "json_set"@,
        ComponentConfig::JsonReplace { .. } => "json_replace"@,
    }
}

/// The domain problem of a JSON `target_path`, if any.
pub open spec fn target_path_problem(path: Seq<char>) -> Option<Seq<char>> {
    if is_blank_spec(path) {
        Some("target_path must not be empty"@)
    } else if path.len() > MAX_TARGET_PATH_LEN {
        Some("target_path must be at most 500 characters"@)
    } else {
        None
    }
}

/// The domain problem of a configuration, if any.
pub open spec fn config_problem(c: ComponentConfig) -> Option<Seq<char>> {
    match c {
        ComponentConfig::HtmlInjection { target_selector, .. } => if is_blank_spec(
            target_selector@,
        ) {
            Some("target_selector must not be empty"@)
        } else {
            None
        },
        ComponentConfig::ContentTruncation { target_selector, word_count, .. } => if is_blank_spec(
            target_selector@,
        ) {
            Some("target_selector must not be empty"@)
        } else if word_count < 1 || word_count > 10000 {
            Some("word_count must be between 1 and 10000"@)
        } else {
            None
        },
        ComponentConfig::JsonRemove { target_path } => target_path_problem(target_path@),
        ComponentConfig::JsonSet { target_path, .. } => target_path_problem(target_path@),
        ComponentConfig::JsonReplace { target_path, .. } => target_path_problem(target_path@),
    }
}

/// Validates a JSON mutation `target_path`: non-blank and at most
/// [`MAX_TARGET_PATH_LEN`] characters.
pub fn validate_target_path(target_path: &str) -> (res: Result<(), String>)
    ensures
        match res {
            Ok(_) => target_path_problem(target_path@) is None,
            Err(msg) => target_path_problem(target_path@) == Some(msg@),
        },
{
    if is_blank(target_path) {
        return Err("target_path must not be empty".to_owned());
    }
    if char_count(target_path) > MAX_TARGET_PATH_LEN {
        return Err("target_path must be at most 500 characters".to_owned());
    }
    Ok(())
}

impl ComponentConfig {
    /// The discriminator string of this configuration.
    pub fn type_str(&self) -> (res: &'static str)
        ensures
            res@ == config_type(*self),
    {
        match self {
            ComponentConfig::HtmlInjection { .. } => "html_injection",
            ComponentConfig::ContentTruncation { .. } => "content_truncation",
            ComponentConfig::JsonRemove { .. } => "json_remove",
            ComponentConfig::JsonSet { .. } => "json_set",
            ComponentConfig::JsonReplace { .. } => "json_replace",
        }
    }

    /// Domain validation beyond shape; the error is a message.
    pub fn validate_domain(&self) -> (res: Result<(), String>)
        ensures
            match res {
                Ok(_) => config_problem(*self) is None,
                Err(msg) => config_problem(*self) == Some(msg@),
            },
    {
        match self {
            ComponentConfig::HtmlInjection { target_selector, .. } => {
                if is_blank(target_selector.as_str()) {
                    return Err("target_selector must not be empty".to_owned());
                }
                Ok(())
            },
            ComponentConfig::ContentTruncation { target_selector, word_count, .. } => {
                if is_blank(target_selector.as_str()) {
                    return Err("target_selector must not be empty".to_owned());
                }
                if *word_count < 1 || *word_count > 10000 {
                    return Err("word_count must be between 1 and 10000".to_owned());
                }
                Ok(())
            },
            ComponentConfig::JsonRemove { target_path } => validate_target_path(
                target_path.as_str(),
            ),
            ComponentConfig::JsonSet { target_path, .. } => validate_target_path(
                target_path.as_str(),
            ),
            ComponentConfig::JsonReplace { target_path, .. } => validate_target_path(
                target_path.as_str(),
            ),
        }
    }
}

/// The three JSON mutation kinds check their `target_path` alike, whatever
/// the value: a path of white space only is rejected as empty, a path of more
/// than 500 characters as too long, and any other path is accepted.
pub proof fn law_json_paths_are_checked_alike(p: String, v: serde_json::Value)
    ensures
        config_problem(ComponentConfig::JsonRemove { target_path: p }) == config_problem(
            ComponentConfig::JsonSet { target_path: p, value: v },
        ),
        config_problem(ComponentConfig::JsonSet { target_path: p, value: v }) == config_problem(
            ComponentConfig::JsonReplace { target_path: p, value: v },
        ),
        is_blank_spec(p@) ==> config_problem(ComponentConfig::JsonSet { target_path: p, value: v })
            == Some("target_path must not be empty"@),
        !is_blank_spec(p@) && p@.len() > 500 ==> config_problem(
            ComponentConfig::JsonSet { target_path: p, value: v },
        ) == Some("target_path must be at most 500 characters"@),
        config_problem(ComponentConfig::JsonSet { target_path: p, value: v }) is None <==> (
        !is_blank_spec(p@) && p@.len() <= 500),
{
}

/// A selector of white space only is rejected for both selector kinds, and a
/// truncation's word budget must lie in `1..=10000`; otherwise the
/// configuration is accepted.
pub proof fn law_selector_kinds(
    sel: String,
    mode: HtmlPlacementMode,
    body: String,
    theme: Option<String>,
    words: u32,
    fade: bool,
)
    ensures
        config_problem(
            ComponentConfig::HtmlInjection {
                target_selector: sel,
                placement_mode: mode,
                html_body: body,
                theme,
            },
        ) is None <==> !is_blank_spec(sel@),
        config_problem(
            ComponentConfig::ContentTruncation { target_selector: sel, word_count: words, fade_out: fade },
        ) is None <==> (!is_blank_spec(sel@) && 1 <= words <= 10000),
        is_blank_spec(sel@) ==> config_problem(
            ComponentConfig::ContentTruncation { target_selector: sel, word_count: words, fade_out: fade },
        ) == Some("target_selector must not be empty"@),
{
}

/// Create-component request body.
#[derive(Debug)]
pub struct ComponentCreate {
    /// Stable slug within the outcome.
    pub slug: String,
    /// Discriminator string; must match the configuration's `type`.
    pub component_type: String,
    /// Typed configuration payload.
    pub config: ComponentConfig,
    /// Placement on the page.
    pub placement: Placement,
    /// Optional explicit ordering; defaults to append.
    pub order_index: Option<i32>,
}

/// Patch-component request body; all fields optional.
#[derive(Debug)]
pub struct ComponentUpdate {
    /// New slug.
    pub slug: Option<String>,
    /// New discriminator string.
    pub component_type: Option<String>,
    /// New typed configuration.
    pub config: Option<ComponentConfig>,
    /// New placement.
    pub placement: Option<Placement>,
    /// New ordering.
    pub order_index: Option<i32>,
}

/// Component read shape; `config` is the stored JSON.
#[derive(Debug)]
pub struct ComponentRead {
    /// Component id.
    pub id: u128,
    /// Owning outcome id.
    pub outcome_id: u128,
    /// Slug.
    pub slug: String,
    /// Discriminator string.
    pub component_type: String,
    /// Stored configuration JSON.
    pub config: serde_json::Value,
    /// Placement.
    pub placement: Placement,
    /// Ordering.
    pub order_index: i32,
    /// Creation time.
    pub created_at: i64,
    /// Last-update time.
    pub updated_at: i64,
}

impl From<Component> for ComponentRead {
    fn from(c: Component) -> (res: Self)
        ensures
            res.id == c.id,
            res.outcome_id == c.outcome_id,
            res.slug == c.slug,
            res.component_type == c.component_type,
            res.config == c.config,
            res.placement == c.placement,
            res.order_index == c.order_index,
            res.created_at == c.created_at,
            res.updated_at == c.updated_at,
    {
        ComponentRead {
            id: c.id,
            outcome_id: c.outcome_id,
            slug: c.slug,
            component_type: c.component_type,
            config: c.config,
            placement: c.placement,
            order_index: c.order_index,
            created_at: c.created_at,
            updated_at: c.updated_at,
        }
    }
}

impl vstd::std_specs::convert::FromSpecImpl<Component> for ComponentRead {
    open spec fn obeys_from_spec() -> bool {
        true
    }

    open spec fn from_spec(c: Component) -> ComponentRead {
        ComponentRead {
            id: c.id,
            outcome_id: c.outcome_id,
            slug: c.slug,
            component_type: c.component_type,
            config: c.config,
            placement: c.placement,
            order_index: c.order_index,
            created_at: c.created_at,
            updated_at: c.updated_at,
        }
    }
}

} // verus!
