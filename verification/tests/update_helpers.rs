use rre_backend::schemas::component_template::{ComponentTemplateUpdate, VersionUpdate};
use rre_backend::schemas::product::ProductUpdate;
use rre_backend::schemas::saved_outcome::SavedOutcomeUpdate;

#[test]
fn component_template_update_is_empty_helper() {
    assert!(ComponentTemplateUpdate::default().is_empty());
    let only_name = ComponentTemplateUpdate {
        name: Some("Renamed".to_string()),
        ..ComponentTemplateUpdate::default()
    };
    assert!(!only_name.is_empty());
}

#[test]
fn version_update_is_empty_helper() {
    assert!(VersionUpdate::default().is_empty());
    let only_body = VersionUpdate {
        html_body: Some("<p>x</p>".to_string()),
        ..VersionUpdate::default()
    };
    assert!(!only_body.is_empty());
}

#[test]
fn saved_outcome_update_is_empty_helper() {
    assert!(SavedOutcomeUpdate::default().is_empty());
    let only_name = SavedOutcomeUpdate {
        name: Some("Renamed".to_string()),
        ..SavedOutcomeUpdate::default()
    };
    assert!(!only_name.is_empty());
}

#[test]
fn saved_outcome_update_clearing_the_pin_is_not_empty() {
    let cleared = SavedOutcomeUpdate {
        version_number: Some(None),
        ..SavedOutcomeUpdate::default()
    };
    assert!(!cleared.is_empty());
}

#[test]
fn product_update_is_empty_helper() {
    let input = ProductUpdate {
        name: Some("Renamed".to_string()),
        ..ProductUpdate::default()
    };
    assert!(!input.is_empty());
    assert!(ProductUpdate::default().is_empty());
}
