use rre_backend::error::{AppError, FieldError, ValidationDetail};

fn detail(loc: &str, msg: &str, rule: &str) -> ValidationDetail {
    ValidationDetail::new(loc.to_string(), msg.to_string(), rule.to_string())
}

#[test]
fn codes_and_statuses_of_every_variant() {
    let cases: Vec<(AppError, &str, u16)> = vec![
        (AppError::validation(Vec::new()), "VALIDATION_ERROR", 422),
        (AppError::FeatureNotFound("f".into()), "FEATURE_NOT_FOUND", 404),
        (AppError::SiteNotFound("s".into()), "SITE_NOT_FOUND", 404),
        (AppError::ProductNotFound("p".into()), "PRODUCT_NOT_FOUND", 404),
        (AppError::TestPresetNotFound("t".into()), "TEST_PRESET_NOT_FOUND", 404),
        (AppError::VersionNotFound("v".into()), "VERSION_NOT_FOUND", 404),
        (AppError::OutcomeNotFound("o".into()), "OUTCOME_NOT_FOUND", 404),
        (AppError::ComponentNotFound("c".into()), "COMPONENT_NOT_FOUND", 404),
        (AppError::NoLiveVersion("n".into()), "NO_LIVE_VERSION", 404),
        (AppError::SlugConflict("s".into()), "SLUG_CONFLICT", 409),
        (AppError::ExecutionOrderConflict("e".into()), "EXECUTION_ORDER_CONFLICT", 409),
        (AppError::VersionEditLocked("v".into()), "VERSION_EDIT_LOCKED", 409),
        (AppError::InvalidStatusTransition("i".into()), "INVALID_STATUS_TRANSITION", 409),
        (AppError::BuiltinOutcomeProtected("b".into()), "BUILTIN_OUTCOME_PROTECTED", 409),
        (AppError::Internal("db down".into()), "INTERNAL_ERROR", 500),
    ];
    for (err, code, status) in cases {
        assert_eq!(err.code(), code);
        assert_eq!(err.status(), status, "{code}");
    }
}

#[test]
fn validation_envelope_carries_details() {
    let err = AppError::validation(vec![detail("headers", "too many", "headers_too_many")]);
    let (status, env) = err.into_envelope();
    assert_eq!(status, 422);
    assert_eq!(env.error.code, "VALIDATION_ERROR");
    assert_eq!(env.error.message, "validation error");
    let details = env.error.details.expect("details present for 422");
    assert_eq!(details.len(), 1);
    assert_eq!(details[0].rule_id, "headers_too_many");
}

#[test]
fn domain_errors_show_their_text_without_details() {
    let (status, env) = AppError::VersionEditLocked("version 3 is live".into()).into_envelope();
    assert_eq!(status, 409);
    assert_eq!(env.error.code, "VERSION_EDIT_LOCKED");
    assert_eq!(env.error.message, "version 3 is live");
    assert!(env.error.details.is_none());
}

#[test]
fn internal_errors_never_leak_their_text() {
    let (status, env) = AppError::Internal("relation rre.x does not exist".into()).into_envelope();
    assert_eq!(status, 500);
    assert_eq!(env.error.message, "internal server error");
    assert!(env.error.details.is_none());
}

#[test]
fn field_errors_become_details_with_code_fallback() {
    let errors = vec![
        (
            "slug".to_string(),
            vec![
                FieldError { code: "length".to_string(), message: None },
                FieldError { code: "regex".to_string(), message: Some("bad slug".to_string()) },
            ],
        ),
        ("kind".to_string(), vec![FieldError { code: "kind_invalid".to_string(), message: None }]),
        ("name".to_string(), Vec::new()),
    ];
    match AppError::from_field_errors(&errors) {
        AppError::Validation { details } => {
            let got: Vec<(&str, &str, &str)> = details
                .iter()
                .map(|d| (d.loc.as_str(), d.msg.as_str(), d.rule_id.as_str()))
                .collect();
            assert_eq!(
                got,
                [
                    ("slug", "length", "length"),
                    ("slug", "bad slug", "regex"),
                    ("kind", "kind_invalid", "kind_invalid"),
                ]
            );
        }
        other => panic!("expected validation error, got {other:?}"),
    }
}
