use rre_backend::schemas::test_preset::check_serialized_payload;
use rre_backend::error::{AppError, AppResult, ValidationDetail};
use rre_backend::schemas::test_preset::{
    validate_kind, validate_payload, TestPresetUpdate, MAX_PAYLOAD_BYTES,
};
use serde_json::Value;

fn details_of(result: AppResult<()>) -> Vec<ValidationDetail> {
    match result {
        Err(AppError::Validation { details }) => details,
        other => panic!("expected validation error, got {other:?}"),
    }
}

fn object(pairs: &[(&str, Value)]) -> Value {
    let mut m = serde_json::Map::new();
    for (k, v) in pairs {
        m.insert(k.to_string(), v.clone());
    }
    Value::Object(m)
}

#[test]
fn accepts_object_payload() {
    assert!(validate_payload(&object(&[])).is_ok());
    assert!(validate_payload(&object(&[("url", Value::from("https://example.com"))])).is_ok());
}

#[test]
fn rejects_non_object_payload() {
    for value in [
        Value::Null,
        Value::from(1),
        Value::from("s"),
        Value::Array(vec![Value::from(1), Value::from(2), Value::from(3)]),
        Value::Bool(true),
    ] {
        let details = details_of(validate_payload(&value));
        assert_eq!(details[0].rule_id, "payload_not_object");
        assert_eq!(details[0].loc, "payload");
    }
}

#[test]
fn rejects_oversized_payload() {
    // A single string field exceeding the serialized cap.
    let big = "a".repeat(MAX_PAYLOAD_BYTES + 1);
    let payload = object(&[("blob", Value::from(big))]);
    let details = details_of(validate_payload(&payload));
    assert_eq!(details[0].rule_id, "payload_too_large");
    assert_eq!(details[0].loc, "payload");
}

#[test]
fn payload_at_the_cap_is_accepted() {
    // {"b":"…"} is 8 bytes of framing around the string.
    let payload = object(&[("b", Value::from("a".repeat(MAX_PAYLOAD_BYTES - 8)))]);
    assert_eq!(serde_json::to_string(&payload).unwrap().len(), MAX_PAYLOAD_BYTES);
    assert!(validate_payload(&payload).is_ok());
    let over = object(&[("b", Value::from("a".repeat(MAX_PAYLOAD_BYTES - 7)))]);
    assert_eq!(
        details_of(validate_payload(&over))[0].msg,
        "payload must be at most 16384 bytes when serialized"
    );
}

#[test]
fn validate_kind_accepts_known_and_rejects_unknown() {
    assert!(validate_kind("rule").is_ok());
    assert!(validate_kind("url").is_ok());
    assert!(validate_kind("other").is_err());
    assert_eq!(validate_kind("URL").unwrap_err().code, "kind_invalid");
}

#[test]
fn update_is_empty_and_partial() {
    assert!(TestPresetUpdate::default().is_empty());
    let only_name = TestPresetUpdate {
        name: Some("X".to_string()),
        ..TestPresetUpdate::default()
    };
    assert!(!only_name.is_empty());
    let only_payload = TestPresetUpdate {
        payload: Some(object(&[])),
        ..TestPresetUpdate::default()
    };
    assert!(!only_payload.is_empty());
}

#[test]
fn serialized_payload_verdicts() {
    assert!(check_serialized_payload(Ok("{}".to_string())).is_ok());
    match check_serialized_payload(Err("boom".to_string())) {
        Err(AppError::Internal(msg)) => assert_eq!(msg, "boom"),
        other => panic!("expected internal error, got {other:?}"),
    }
    let too_big = "x".repeat(MAX_PAYLOAD_BYTES + 1);
    assert_eq!(
        details_of(check_serialized_payload(Ok(too_big)))[0].rule_id,
        "payload_too_large"
    );
}
