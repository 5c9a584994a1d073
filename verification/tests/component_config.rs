use rre_backend::schemas::component::{validate_target_path, ComponentConfig, HtmlPlacementMode};
use serde_json::Value;

/// `json_set`/`json_replace` accept any JSON value, including `null`.
#[test]
fn json_set_accepts_null_value() {
    let set = ComponentConfig::JsonSet {
        target_path: "$.user.token".to_string(),
        value: Value::Null,
    };
    assert!(set.validate_domain().is_ok());
}

/// `target_path` must be trimmed-non-empty.
#[test]
fn empty_target_path_is_rejected() {
    let remove = ComponentConfig::JsonRemove {
        target_path: "   ".to_string(),
    };
    let err = remove.validate_domain().unwrap_err();
    assert_eq!(err, "target_path must not be empty");
}

/// `target_path` is length-capped at 500 chars.
#[test]
fn overlong_target_path_is_rejected() {
    let replace = ComponentConfig::JsonReplace {
        target_path: "$.".to_string() + &"a".repeat(600),
        value: Value::from(1),
    };
    let err = replace.validate_domain().unwrap_err();
    assert!(err.contains("at most 500"));
}

/// A well-formed simple path passes.
#[test]
fn valid_target_path_passes() {
    let remove = ComponentConfig::JsonRemove {
        target_path: "$.items[0].price".to_string(),
    };
    assert!(remove.validate_domain().is_ok());
}

#[test]
fn type_str_names_every_variant() {
    let configs = [
        ComponentConfig::HtmlInjection {
            target_selector: "#a".to_string(),
            placement_mode: HtmlPlacementMode::Append,
            html_body: "<p>x</p>".to_string(),
            theme: None,
        },
        ComponentConfig::ContentTruncation {
            target_selector: "article".to_string(),
            word_count: 50,
            fade_out: true,
        },
        ComponentConfig::JsonRemove { target_path: "$.user.email".to_string() },
        ComponentConfig::JsonSet { target_path: "$.user.premium".to_string(), value: Value::Bool(true) },
        ComponentConfig::JsonReplace { target_path: "$.items[0].price".to_string(), value: Value::from(9) },
    ];
    let names: Vec<&str> = configs.iter().map(|c| c.type_str()).collect();
    assert_eq!(
        names,
        ["html_injection", "content_truncation", "json_remove", "json_set", "json_replace"]
    );
}

#[test]
fn blank_selectors_and_word_budget_are_checked() {
    let html = ComponentConfig::HtmlInjection {
        target_selector: " \t".to_string(),
        placement_mode: HtmlPlacementMode::Replace,
        html_body: String::new(),
        theme: None,
    };
    assert_eq!(html.validate_domain().unwrap_err(), "target_selector must not be empty");
    for (count, ok) in [(0u32, false), (1, true), (10_000, true), (10_001, false)] {
        let trunc = ComponentConfig::ContentTruncation {
            target_selector: ".body".to_string(),
            word_count: count,
            fade_out: false,
        };
        assert_eq!(trunc.validate_domain().is_ok(), ok, "word_count {count}");
        if !ok {
            assert_eq!(
                trunc.validate_domain().unwrap_err(),
                "word_count must be between 1 and 10000"
            );
        }
    }
}

#[test]
fn target_path_limit_counts_characters() {
    assert!(validate_target_path(&"\u{e9}".repeat(500)).is_ok());
    assert_eq!(
        validate_target_path(&"\u{e9}".repeat(501)).unwrap_err(),
        "target_path must be at most 500 characters"
    );
}
