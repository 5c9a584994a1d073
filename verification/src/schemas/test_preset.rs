//! Test-preset request and response shapes and their validation.
//!
//! A preset's `kind` is `rule` or `url`. Its `payload` is an opaque JSON
//! object owned by the frontend test panels; the backend checks only that it
//! is an object and that its compact serialization is at most
//! [`MAX_PAYLOAD_BYTES`] bytes.

use vstd::prelude::*;
use vstd::string::*;
use vstd::utf8::encode_utf8;

use crate::error::{details_view, AppError, AppResult, DetailView, FieldError, ValidationDetail};
use crate::json::{is_json_object, json_text, object_members, serialize};
use crate::models::test_preset::TestPreset;

verus! {

/// Maximum serialized size of a payload, in bytes.
pub const MAX_PAYLOAD_BYTES: usize = 16384;

/// The preset kinds.
pub open spec fn is_preset_kind(value: Seq<char>) -> bool {
    value == "rule"@ || value == "url"@
}

/// Field rule: the kind must be `rule` or `url` (failure code
/// `kind_invalid`).
pub fn validate_kind(value: &str) -> (res: Result<(), FieldError>)
    ensures
        match res {
            Ok(_) => is_preset_kind(value@),
            Err(e) => !is_preset_kind(value@) && e.code@ == "kind_invalid"@ && e.message is None,
        },
{
    let v = value.to_owned();
    if v == "rule".to_owned() || v == "url".to_owned() {
        Ok(())
    } else {
        Err(FieldError { code: "kind_invalid".to_owned(), message: None })
    }
}

/// The detail reported for a payload that is not a JSON object.
pub open spec fn payload_not_object() -> DetailView {
    DetailView {
        loc: "payload"@,
        msg: "payload must be a JSON object"@,
        rule_id: "payload_not_object"@,
    }
}

/// The detail reported for a payload whose serialization is too large.
pub open spec fn payload_too_large() -> DetailView {
    DetailView {
        loc: "payload"@,
        msg: "payload must be at most 16384 bytes when serialized"@,
        rule_id: "payload_too_large"@,
    }
}

/// The verdict on an object payload given the outcome of serializing it: a
/// serialization failure is an internal error carrying its text; otherwise
/// the text must be at most [`MAX_PAYLOAD_BYTES`] bytes.
pub fn check_serialized_payload(serialized: Result<String, String>) -> (res: AppResult<()>)
    ensures
        match serialized {
            Err(msg) => res == Err::<(), AppError>(AppError::Internal(msg)),
            Ok(text) => match res {
                Ok(_) => encode_utf8(text@).len() <= MAX_PAYLOAD_BYTES,
                Err(AppError::Validation { details }) => encode_utf8(text@).len() > MAX_PAYLOAD_BYTES
                    && details_view(details@) == seq![payload_too_large()],
                Err(_) => false,
            },
        },
{
    let text = match serialized {
        Ok(s) => s,
        Err(msg) => {
            return Err(AppError::Internal(msg));
        },
    };
    if text.as_str().as_bytes().len() > MAX_PAYLOAD_BYTES {
        let mut details: Vec<ValidationDetail> = Vec::new();
        details.push(
            ValidationDetail::new(
                "payload".to_owned(),
                "payload must be at most 16384 bytes when serialized".to_owned(),
                "payload_too_large".to_owned(),
            ),
        );
        assert(details_view(details@) =~= seq![payload_too_large()]);
        return Err(AppError::validation(details));
    }
    Ok(())
}

/// Validates a preset payload: it must be a JSON object, and then its
/// compact serialization must be at most [`MAX_PAYLOAD_BYTES`] bytes. It
/// succeeds exactly on such payloads; serializing a JSON value never fails,
/// so no internal error is returned.
pub fn validate_payload(payload: &serde_json::Value) -> (res: AppResult<()>)
    ensures
        match res {
            Ok(_) => object_members(*payload) is Some && encode_utf8(json_text(*payload)).len()
                <= MAX_PAYLOAD_BYTES,
            Err(AppError::Validation { details }) => if object_members(*payload) is None {
                details_view(details@) == seq![payload_not_object()]
            } else {
                encode_utf8(json_text(*payload)).len() > MAX_PAYLOAD_BYTES && details_view(details@)
                    == seq![payload_too_large()]
            },
            Err(_) => false,
        },
{
    if !is_json_object(payload) {
        let mut details: Vec<ValidationDetail> = Vec::new();
        details.push(
            ValidationDetail::new(
                "payload".to_owned(),
                "payload must be a JSON object".to_owned(),
                "payload_not_object".to_owned(),
            ),
        );
        assert(details_view(details@) =~= seq![payload_not_object()]);
        return Err(AppError::validation(details));
    }
    check_serialized_payload(serialize(payload))
}

/// Request body for `POST /test-presets`.
#[derive(Debug)]
pub struct TestPresetCreate {
    /// Slug primary key (kebab-case, lowercase, 3..=64 chars).
    pub slug: String,
    /// Human-readable name.
    pub name: String,
    /// Preset kind (`rule` | `url`).
    pub kind: String,
    /// Opaque saved inputs (a JSON object).
    pub payload: serde_json::Value,
}

/// Request body for `PATCH /test-presets/{slug}`; slug and kind are
/// immutable.
#[derive(Debug, Default)]
pub struct TestPresetUpdate {
    /// New human-readable name.
    pub name: Option<String>,
    /// Replacement payload object; `None` leaves it unchanged.
    pub payload: Option<serde_json::Value>,
}

impl TestPresetUpdate {
    /// Whether the update carries no fields (a no-op PATCH).
    pub fn is_empty(&self) -> (res: bool)
        ensures
            res == (self.name is None && self.payload is None),
    {
        self.name.is_none() && self.payload.is_none()
    }
}

/// Response shape for a test preset.
#[derive(Debug)]
pub struct TestPresetRead {
    /// Slug primary key.
    pub slug: String,
    /// Human-readable name.
    pub name: String,
    /// Preset kind.
    pub kind: String,
    /// Opaque saved inputs.
    pub payload: serde_json::Value,
    /// Creation time.
    pub created_at: i64,
    /// Last-update time.
    pub updated_at: i64,
}

impl From<TestPreset> for TestPresetRead {
    fn from(p: TestPreset) -> (res: Self)
        ensures
            res.slug == p.slug,
            res.name == p.name,
            res.kind == p.kind,
            res.payload == p.payload,
            res.created_at == p.created_at,
            res.updated_at == p.updated_at,
    {
        TestPresetRead {
            slug: p.slug,
            name: p.name,
            kind: p.kind,
            payload: p.payload,
            created_at: p.created_at,
            updated_at: p.updated_at,
        }
    }
}

impl vstd::std_specs::convert::FromSpecImpl<TestPreset> for TestPresetRead {
    open spec fn obeys_from_spec() -> bool {
        true
    }

    open spec fn from_spec(p: TestPreset) -> TestPresetRead {
        TestPresetRead {
            slug: p.slug,
            name: p.name,
            kind: p.kind,
            payload: p.payload,
            created_at: p.created_at,
            updated_at: p.updated_at,
        }
    }
}

} // verus!
