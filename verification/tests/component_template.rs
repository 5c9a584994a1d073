use chrono::Utc;
use rre_backend::models::component_template::{ComponentTemplate, ComponentTemplateVersion};
use rre_backend::models::enums::DefaultMode;
use rre_backend::schemas::component_template::{
    build_read, resolve_default_id, ComponentTemplateVersionRead, ResolvedComponentRead,
};
use serde_json::Value;
use uuid::Uuid;

fn ts() -> i64 {
    Utc::now().timestamp_micros()
}

fn component(mode: DefaultMode, default_version_id: Option<u128>) -> ComponentTemplate {
    ComponentTemplate {
        id: Uuid::new_v4().as_u128(),
        slug: "paywall-cta".to_string(),
        name: "Paywall CTA".to_string(),
        description: None,
        default_mode: mode,
        default_version_id,
        created_at: ts(),
        updated_at: ts(),
    }
}

fn version(component_id: u128, n: i32) -> ComponentTemplateVersion {
    ComponentTemplateVersion {
        id: Uuid::new_v4().as_u128(),
        component_id,
        version_number: n,
        description: None,
        html_body: "<div>{{headline}}</div>".to_string(),
        variables: Value::Array(Vec::new()),
        created_at: ts(),
        updated_at: ts(),
    }
}

#[test]
fn resolve_default_latest_picks_highest_number() {
    let comp = component(DefaultMode::Latest, None);
    let v1 = version(comp.id, 1);
    let v2 = version(comp.id, 2);
    let v2_id = v2.id;
    let id = resolve_default_id(&comp, &[v1, v2]);
    assert_eq!(id, Some(v2_id));
}

#[test]
fn resolve_default_pinned_picks_pointer() {
    let v1 = version(Uuid::new_v4().as_u128(), 1);
    let v2 = version(v1.component_id, 2);
    let comp = component(DefaultMode::Pinned, Some(v1.id));
    let v1_id = v1.id;
    let id = resolve_default_id(&comp, &[v1, v2]);
    assert_eq!(id, Some(v1_id));
}

#[test]
fn resolve_default_pinned_missing_pointer_yields_none() {
    let comp = component(DefaultMode::Pinned, Some(Uuid::new_v4().as_u128()));
    let v1 = version(comp.id, 1);
    assert_eq!(resolve_default_id(&comp, &[v1]), None);
}

#[test]
fn build_read_marks_default_and_latest() {
    let comp = component(DefaultMode::Latest, None);
    let cid = comp.id;
    let v1 = version(cid, 1);
    let v2 = version(cid, 2);
    let v2_num = v2.version_number;
    let read = build_read(comp, vec![v1, v2]);
    assert_eq!(read.latest_version_number, 2);
    assert_eq!(read.default_version_number, Some(v2_num));
    assert!(read
        .versions
        .iter()
        .any(|s| s.is_default && s.version_number == 2));
    assert!(read
        .versions
        .iter()
        .any(|s| !s.is_default && s.version_number == 1));
}

#[test]
fn latest_ties_resolve_to_the_last_row_and_order_does_not_matter() {
    let comp = component(DefaultMode::Latest, None);
    let a = version(comp.id, 3);
    let b = version(comp.id, 1);
    let c = version(comp.id, 3);
    let c_id = c.id;
    assert_eq!(resolve_default_id(&comp, &[a, b, c]), Some(c_id));
}

#[test]
fn latest_with_no_versions_has_no_default() {
    let comp = component(DefaultMode::Latest, None);
    assert_eq!(resolve_default_id(&comp, &[]), None);
    let read = build_read(comp, Vec::new());
    assert_eq!(read.latest_version_number, 0);
    assert_eq!(read.default_version_number, None);
    assert!(read.versions.is_empty());
}

#[test]
fn pinned_read_marks_only_the_pinned_version() {
    let v1 = version(1, 1);
    let v2 = version(1, 2);
    let v3 = version(1, 3);
    let pinned = v2.id;
    let mut comp = component(DefaultMode::Pinned, Some(pinned));
    comp.id = 1;
    let read = build_read(comp, vec![v1, v2, v3]);
    assert_eq!(read.latest_version_number, 3);
    assert_eq!(read.default_version_number, Some(2));
    let flags: Vec<bool> = read.versions.iter().map(|s| s.is_default).collect();
    assert_eq!(flags, [false, true, false]);
    assert_eq!(read.default_mode, DefaultMode::Pinned);
}

#[test]
fn latest_number_may_be_negative_when_all_numbers_are() {
    let comp = component(DefaultMode::Latest, None);
    let read = build_read(comp, vec![version(7, -5), version(7, -2)]);
    assert_eq!(read.latest_version_number, -2);
}

#[test]
fn version_row_mappings_keep_fields() {
    let v = version(9, 4);
    let id = v.id;
    let read = ComponentTemplateVersionRead::from_row(v, true);
    assert_eq!(read.id, id);
    assert_eq!(read.version_number, 4);
    assert!(read.is_default);
    assert_eq!(read.html_body, "<div>{{headline}}</div>");
    let resolved = ResolvedComponentRead::from_row(version(9, 6));
    assert_eq!(resolved.version_number, 6);
    assert_eq!(resolved.variables, Value::Array(Vec::new()));
}
