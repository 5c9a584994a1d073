use rre_backend::json::string_entries;
use rre_backend::models::saved_outcome::SavedOutcome;
use rre_backend::models::site::Site;
use rre_backend::schemas::saved_outcome::to_read;
use rre_backend::schemas::site::{headers_from_json, headers_to_json, SiteRead};
use rre_backend::string_map::StringMap;
use serde_json::Value;

fn map(pairs: &[(&str, &str)]) -> Vec<(String, String)> {
    pairs
        .iter()
        .map(|(k, v)| (k.to_string(), v.to_string()))
        .collect()
}

#[test]
fn json_roundtrip_helpers() {
    let h = StringMap::from_entries(map(&[("X-Foo", "bar")]));
    let json = headers_to_json(&h);
    assert_eq!(json["X-Foo"], "bar");
    assert_eq!(headers_from_json(&json).entries(), h.entries());
    // Non-object / null defaults to empty.
    assert!(headers_from_json(&Value::Null).is_empty());
}

#[test]
fn non_string_members_are_skipped() {
    let mut m = serde_json::Map::new();
    m.insert("A".to_string(), Value::from("x"));
    m.insert("B".to_string(), Value::from(3));
    m.insert("C".to_string(), Value::Null);
    let read = headers_from_json(&Value::Object(m));
    assert_eq!(read.entries(), &map(&[("A", "x")]));
    assert!(headers_from_json(&Value::from("text")).is_empty());
}

#[test]
fn later_header_entry_wins_in_stored_object() {
    let json = headers_to_json(&StringMap::from_entries(map(&[("X-A", "1"), ("X-A", "2")])));
    assert_eq!(headers_from_json(&json).entries(), &map(&[("X-A", "2")]));
}

#[test]
fn site_read_types_the_stored_headers() {
    let mut m = serde_json::Map::new();
    m.insert("X-Foo".to_string(), Value::from("bar"));
    let site = Site {
        slug: "demo-localhost".to_string(),
        name: "Demo".to_string(),
        source_protocol: "http".to_string(),
        source_host: "localhost".to_string(),
        source_port: 9000,
        dest_protocol: "http".to_string(),
        dest_host: "demo-upstream".to_string(),
        dest_port: 8081,
        headers: Value::Object(m),
        created_at: 1,
        updated_at: 2,
    };
    let read = SiteRead::from(site);
    assert_eq!(read.headers.entries(), &map(&[("X-Foo", "bar")]));
    assert_eq!(read.dest_port, 8081);
    assert_eq!(read.updated_at, 2);
}

#[test]
fn saved_outcome_read_keeps_string_variables() {
    let mut m = serde_json::Map::new();
    m.insert("headline".to_string(), Value::from("Hi"));
    m.insert("count".to_string(), Value::from(2));
    let row = SavedOutcome {
        id: 5,
        slug: "promo-banner-default".to_string(),
        name: "Promo Banner (Default)".to_string(),
        component_id: 7,
        version_number: None,
        variables: Value::Object(m),
        created_at: 0,
        updated_at: 0,
    };
    let read = to_read(row, "Promo Banner".to_string());
    assert_eq!(read.variables.entries(), &map(&[("headline", "Hi")]));
    assert_eq!(read.component_name, "Promo Banner");
    assert_eq!(read.version_number, None);
}

#[test]
fn string_entries_skip_non_strings_in_order() {
    let members = vec![
        ("b".to_string(), Some("2".to_string())),
        ("a".to_string(), None),
        ("c".to_string(), Some(String::new())),
    ];
    assert_eq!(string_entries(&members), map(&[("b", "2"), ("c", "")]));
}

#[test]
fn string_map_keeps_first_place_and_last_value() {
    let m = StringMap::from_entries(map(&[("a", "1"), ("b", "2"), ("a", "3")]));
    assert_eq!(m.entries(), &map(&[("a", "3"), ("b", "2")]));
    assert_eq!(m.len(), 2);
    assert!(!m.is_empty());
    assert!(StringMap::new().is_empty());
    assert_eq!(m.clone().entries(), m.entries());
}
