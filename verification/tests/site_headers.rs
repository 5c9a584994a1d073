use rre_backend::error::{AppError, AppResult, ValidationDetail};
use rre_backend::schemas::site::{validate_headers, MAX_HEADERS, MAX_HEADER_NAME_LEN, MAX_HEADER_VALUE_LEN};
use rre_backend::string_map::StringMap;

fn map(pairs: &[(&str, &str)]) -> StringMap {
    StringMap::from_entries(
        pairs
            .iter()
            .map(|(k, v)| (k.to_string(), v.to_string()))
            .collect(),
    )
}

fn details_of(result: AppResult<()>) -> Vec<ValidationDetail> {
    match result {
        Err(AppError::Validation { details }) => details,
        other => panic!("expected validation error, got {other:?}"),
    }
}

#[test]
fn accepts_empty_map() {
    assert!(validate_headers(&StringMap::new()).is_ok());
}

#[test]
fn accepts_valid_headers() {
    let h = map(&[("X-Foo", "bar"), ("Authorization", "Bearer abc")]);
    assert!(validate_headers(&h).is_ok());
    // Empty value is allowed (0-length).
    assert!(validate_headers(&map(&[("X-Empty", "")])).is_ok());
}

#[test]
fn rejects_crlf_in_value() {
    let details = details_of(validate_headers(&map(&[("X-Foo", "a\r\nInjected: 1")])));
    assert_eq!(details[0].rule_id, "header_value_control_char");
    assert_eq!(details[0].loc, "headers[\"X-Foo\"]");
}

#[test]
fn rejects_bare_newline_and_del_in_value() {
    assert_eq!(
        details_of(validate_headers(&map(&[("X-Foo", "a\nb")])))[0].rule_id,
        "header_value_control_char"
    );
    assert_eq!(
        details_of(validate_headers(&map(&[("X-Foo", "a\x7fb")])))[0].rule_id,
        "header_value_control_char"
    );
}

#[test]
fn rejects_name_with_space() {
    let details = details_of(validate_headers(&map(&[("Bad Name", "1")])));
    assert_eq!(details[0].rule_id, "header_name_invalid");
    assert_eq!(details[0].loc, "headers[\"Bad Name\"]");
}

#[test]
fn rejects_empty_name() {
    assert_eq!(
        details_of(validate_headers(&map(&[("", "1")])))[0].rule_id,
        "header_name_invalid"
    );
}

#[test]
fn rejects_forbidden_header_names() {
    for name in ["Host", "Content-Length", "transfer-encoding", "CONNECTION", "Te"] {
        let details = details_of(validate_headers(&map(&[(name, "v")])));
        assert_eq!(
            details[0].rule_id, "header_name_forbidden",
            "name {name} should be forbidden"
        );
        assert_eq!(details[0].loc, format!("headers[\"{name}\"]"));
    }
}

#[test]
fn rejects_more_than_max_headers() {
    let many: Vec<(String, String)> = (0..=MAX_HEADERS)
        .map(|i| (format!("X-H-{i}"), "v".to_string()))
        .collect();
    let details = details_of(validate_headers(&StringMap::from_entries(many)));
    assert_eq!(details[0].rule_id, "headers_too_many");
    assert_eq!(details[0].loc, "headers");
}

#[test]
fn rejects_oversized_value() {
    let big = "a".repeat(MAX_HEADER_VALUE_LEN + 1);
    assert_eq!(
        details_of(validate_headers(&map(&[("X-Big", &big)])))[0].rule_id,
        "header_value_too_long"
    );
}

#[test]
fn rejects_oversized_name() {
    let big = "a".repeat(MAX_HEADER_NAME_LEN + 1);
    assert_eq!(
        details_of(validate_headers(&map(&[(big.as_str(), "v")])))[0].rule_id,
        "header_name_invalid"
    );
}

#[test]
fn too_many_headers_is_reported_alone_with_its_message() {
    let many: Vec<(String, String)> = (0..=MAX_HEADERS)
        .map(|i| (format!("Bad Name {i}"), "v".to_string()))
        .collect();
    let details = details_of(validate_headers(&StringMap::from_entries(many)));
    assert_eq!(details.len(), 1);
    assert_eq!(details[0].msg, "at most 32 custom headers are allowed");
}

#[test]
fn exactly_max_headers_is_accepted() {
    let many: Vec<(String, String)> = (0..MAX_HEADERS)
        .map(|i| (format!("X-H-{i}"), "v".to_string()))
        .collect();
    assert!(validate_headers(&StringMap::from_entries(many)).is_ok());
}

#[test]
fn every_failing_entry_is_reported_in_order() {
    let h = map(&[("Bad Name", "1"), ("X-Ok", "fine"), ("Host", "x"), ("X-Ctl", "a\tb")]);
    let details = details_of(validate_headers(&h));
    let rules: Vec<&str> = details.iter().map(|d| d.rule_id.as_str()).collect();
    assert_eq!(
        rules,
        ["header_name_invalid", "header_name_forbidden", "header_value_control_char"]
    );
    assert_eq!(details[1].msg, "header name 'Host' is reserved and cannot be configured");
    assert_eq!(details[2].loc, "headers[\"X-Ctl\"]");
}

#[test]
fn name_check_precedes_value_checks() {
    let details = details_of(validate_headers(&map(&[("Bad Name", "a\nb")])));
    assert_eq!(details.len(), 1);
    assert_eq!(
        details[0].msg,
        "header name must be an HTTP token (1..=128 chars, no spaces or separators)"
    );
}

#[test]
fn non_ascii_value_is_rejected_and_token_chars_accepted() {
    assert_eq!(
        details_of(validate_headers(&map(&[("X-Foo", "caf\u{e9}")])))[0].rule_id,
        "header_value_control_char"
    );
    assert!(validate_headers(&map(&[("!#$%&'*+-.^_`|~09AZaz", "v")])).is_ok());
    assert_eq!(
        details_of(validate_headers(&map(&[("X:Foo", "v")])))[0].rule_id,
        "header_name_invalid"
    );
}

#[test]
fn name_and_value_length_limits_are_inclusive() {
    let name = "a".repeat(MAX_HEADER_NAME_LEN);
    let value = "b".repeat(MAX_HEADER_VALUE_LEN);
    assert!(validate_headers(&map(&[(name.as_str(), value.as_str())])).is_ok());
}

#[test]
fn repeated_names_count_once() {
    let many: Vec<(String, String)> = (0..=MAX_HEADERS)
        .map(|i| ("X-Same".to_string(), format!("v{i}")))
        .collect();
    let h = StringMap::from_entries(many);
    assert_eq!(h.len(), 1);
    assert!(validate_headers(&h).is_ok());
}
