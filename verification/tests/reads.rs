use rre_backend::models::component::Component;
use rre_backend::models::enums::{FeatureType, Placement};
use rre_backend::models::feature::Feature;
use rre_backend::models::outcome::Outcome;
use rre_backend::models::product::Product;
use rre_backend::models::test_preset::TestPreset;
use rre_backend::schemas::component::ComponentRead;
use rre_backend::schemas::component_template::ComponentTemplateVersionSummary;
use rre_backend::schemas::feature::FeatureRead;
use rre_backend::schemas::outcome::OutcomeRead;
use rre_backend::schemas::product::ProductRead;
use rre_backend::schemas::site::SiteUpdate;
use rre_backend::string_map::StringMap;
use rre_backend::schemas::test_preset::TestPresetRead;
use rre_backend::models::component_template::ComponentTemplateVersion;
use serde_json::Value;

#[test]
fn row_to_read_mappings_keep_every_field() {
    let p = ProductRead::from(Product {
        label: "premium".to_string(),
        name: "Premium".to_string(),
        description: Some("d".to_string()),
        created_at: 1,
        updated_at: 2,
    });
    assert_eq!((p.label.as_str(), p.name.as_str(), p.created_at, p.updated_at), ("premium", "Premium", 1, 2));

    let f = FeatureRead::from(Feature {
        id: "demo-article".to_string(),
        name: "Demo".to_string(),
        feature_type: FeatureType::Json,
        staging_version_id: None,
        live_version_id: Some(42),
        created_at: 3,
        updated_at: 4,
    });
    assert_eq!(f.feature_type, FeatureType::Json);
    assert_eq!(f.live_version_id, Some(42));

    let t = TestPresetRead::from(TestPreset {
        slug: "s".to_string(),
        name: "n".to_string(),
        kind: "url".to_string(),
        payload: Value::Null,
        created_at: 5,
        updated_at: 6,
    });
    assert_eq!(t.kind, "url");

    let c = ComponentRead::from(Component {
        id: 1,
        outcome_id: 2,
        slug: "paywall".to_string(),
        component_type: "html_injection".to_string(),
        config: Value::Bool(true),
        placement: Placement::StickyFooter,
        order_index: 3,
        created_at: 0,
        updated_at: 0,
    });
    assert_eq!(c.placement, Placement::StickyFooter);
    assert_eq!(c.config, Value::Bool(true));

    let o = OutcomeRead::from_parts(
        Outcome {
            id: 9,
            version_id: 8,
            title: "Paywall".to_string(),
            description: None,
            is_builtin: false,
            order_index: 1,
            created_at: 0,
            updated_at: 0,
        },
        vec![c],
    );
    assert_eq!(o.components.len(), 1);
    assert_eq!(o.version_id, 8);
}

#[test]
fn summary_copies_version_row() {
    let v = ComponentTemplateVersion {
        id: 11,
        component_id: 1,
        version_number: 2,
        description: Some("second".to_string()),
        html_body: String::new(),
        variables: Value::Null,
        created_at: 7,
        updated_at: 8,
    };
    let s = ComponentTemplateVersionSummary::from_row(&v, false);
    assert_eq!((s.id, s.version_number, s.is_default), (11, 2, false));
    assert_eq!(s.description.as_deref(), Some("second"));
}

#[test]
fn site_update_is_empty_helper() {
    assert!(SiteUpdate::default().is_empty());
    let only_headers = SiteUpdate { headers: Some(StringMap::new()), ..SiteUpdate::default() };
    assert!(!only_headers.is_empty());
    let only_port = SiteUpdate { dest_port: Some(8081), ..SiteUpdate::default() };
    assert!(!only_port.is_empty());
}
