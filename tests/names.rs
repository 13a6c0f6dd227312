use geoip_client::{JsonValue, NameMap};

fn names(pairs: Vec<(&str, JsonValue)>) -> JsonValue {
    JsonValue::Object(pairs.into_iter().map(|(k, v)| (k.to_string(), v)).collect())
}

#[test]
fn names_keep_every_language() {
    let v = names(vec![
        ("en", JsonValue::Str("Canada".to_string())),
        ("fr", JsonValue::Str("Canada".to_string())),
    ]);
    let n = NameMap::from_json(&v).unwrap();
    assert_eq!(n.len(), 2);
    assert_eq!(n.get("en").unwrap(), "Canada");
    assert_eq!(n.get("fr").unwrap(), "Canada");
    assert!(n.get("de").is_none());
    assert_eq!(n.render(), "{\"en\": \"Canada\", \"fr\": \"Canada\"}");
}

#[test]
fn names_with_uncommon_keys() {
    let v = names(vec![
        ("zh-CN", JsonValue::Str("加拿大".to_string())),
        ("pt-BR", JsonValue::Str("Canadá".to_string())),
        ("xx", JsonValue::Str(String::new())),
    ]);
    let n = NameMap::from_json(&v).unwrap();
    assert_eq!(n.len(), 3);
    assert_eq!(n.get("zh-CN").unwrap(), "加拿大");
    assert_eq!(n.get("pt-BR").unwrap(), "Canadá");
    assert_eq!(n.get("xx").unwrap(), "");
}

#[test]
fn empty_names() {
    let n = NameMap::from_json(&names(vec![])).unwrap();
    assert_eq!(n.len(), 0);
    assert_eq!(n.render(), "{}");
}

#[test]
fn repeated_key_keeps_first_place_and_last_value() {
    let v = names(vec![
        ("en", JsonValue::Str("A".to_string())),
        ("de", JsonValue::Str("B".to_string())),
        ("en", JsonValue::Str("C".to_string())),
    ]);
    let n = NameMap::from_json(&v).unwrap();
    assert_eq!(n.len(), 2);
    assert_eq!(n.get("en").unwrap(), "C");
    assert_eq!(n.render(), "{\"en\": \"C\", \"de\": \"B\"}");
}

#[test]
fn names_must_be_strings() {
    let v = names(vec![("en", JsonValue::UInt(1))]);
    assert!(NameMap::from_json(&v).is_none());
    assert!(NameMap::from_json(&JsonValue::Str("en".to_string())).is_none());
}

#[test]
fn insert_replaces_in_place() {
    let mut n = NameMap::new();
    n.insert("en".to_string(), "London".to_string());
    n.insert("fr".to_string(), "Londres".to_string());
    n.insert("en".to_string(), "City of London".to_string());
    assert_eq!(n.len(), 2);
    assert_eq!(n.render(), "{\"en\": \"City of London\", \"fr\": \"Londres\"}");
}

#[test]
fn names_round_trip() {
    let mut n = NameMap::new();
    n.insert("en".to_string(), "Canada".to_string());
    n.insert("fr".to_string(), "Canada".to_string());
    let back = NameMap::from_json(&n.to_json()).unwrap();
    assert_eq!(back, n);
}
