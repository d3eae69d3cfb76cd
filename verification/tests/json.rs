use baker::json::{clone_json, clone_map, JsonMap, JsonValue};

#[test]
fn insert_replaces_in_place_and_appends_new_keys() {
    let mut m = JsonMap::new();
    m.insert("a".to_string(), JsonValue::Bool(true));
    m.insert("b".to_string(), JsonValue::Null);
    m.insert("a".to_string(), JsonValue::Bool(false));
    assert_eq!(m.len(), 2);
    assert_eq!(m.key_at(0), "a");
    assert_eq!(m.key_at(1), "b");
    assert!(matches!(m.get("a"), Some(JsonValue::Bool(false))));
    assert!(m.contains_key("b"));
    assert!(!m.contains_key("c"));
}

#[test]
fn extend_prefers_the_new_entries() {
    let mut base = JsonMap::new();
    base.insert("a".to_string(), JsonValue::Number("1".to_string()));
    base.insert("b".to_string(), JsonValue::Number("2".to_string()));
    let mut extra = JsonMap::new();
    extra.insert("b".to_string(), JsonValue::Number("3".to_string()));
    extra.insert("c".to_string(), JsonValue::Number("4".to_string()));
    base.extend(extra);
    assert_eq!(base.len(), 3);
    assert!(matches!(base.get("b"), Some(JsonValue::Number(n)) if n == "3"));
    assert_eq!(base.key_at(2), "c");
}

#[test]
fn value_accessors() {
    let v = JsonValue::String("x".to_string());
    assert_eq!(v.as_str(), Some("x"));
    assert_eq!(v.as_bool(), None);
    assert!(JsonValue::Null.is_null());
    assert!(JsonValue::Array(vec![]).is_array());
    let mut m = JsonMap::new();
    m.insert("k".to_string(), JsonValue::Bool(true));
    let obj = JsonValue::Object(m);
    assert!(obj.is_object());
    assert_eq!(obj.get("k").and_then(|v| v.as_bool()), Some(true));
    assert!(JsonValue::Null.get("k").is_none());
    assert_eq!(format!("{:?}", clone_json(&obj)), format!("{:?}", obj));
}

#[test]
fn clone_map_copies_every_entry() {
    let mut m = JsonMap::new();
    m.insert("a".to_string(), JsonValue::Bool(true));
    m.insert("b".to_string(), JsonValue::String("x".to_string()));
    let c = clone_map(&m);
    assert_eq!(c.len(), 2);
    assert!(matches!(c.get("a"), Some(JsonValue::Bool(true))));
    assert!(matches!(c.get("b"), Some(JsonValue::String(s)) if s == "x"));
}
