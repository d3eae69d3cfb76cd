use baker::error::Error;
use baker::json::{compact_json, pretty_json, to_json_text, JsonMap, JsonValue};
use baker::schema::validate_with_schema;
use baker::web::form::textarea_text;

fn object(entries: Vec<(&str, JsonValue)>) -> JsonValue {
    let mut m = JsonMap::new();
    for (k, v) in entries {
        m.insert(k.to_string(), v);
    }
    JsonValue::Object(m)
}

#[test]
fn test_validate_with_schema_invalid_schema() {
    let value = object(vec![("name", JsonValue::String("test".to_string()))]);
    let invalid_schema = r#"{"type": "object", "properties": {"name": {"type": "string"}}"#;
    assert!(validate_with_schema(&value, invalid_schema).is_err());
}

#[test]
fn test_validate_with_schema_valid_value() {
    let value = object(vec![("name", JsonValue::String("test".to_string()))]);
    let schema = r#"{"type": "object", "properties": {"name": {"type": "string"}}, "required": ["name"]}"#;
    assert!(validate_with_schema(&value, schema).is_ok());
}

#[test]
fn test_validate_with_schema_invalid_value() {
    let value = object(vec![("name", JsonValue::Number("123".to_string()))]);
    let schema = r#"{"type": "object", "properties": {"name": {"type": "string"}}, "required": ["name"]}"#;
    assert!(validate_with_schema(&value, schema).is_err());
}

#[test]
fn schema_errors_are_listed_with_their_paths() {
    let value = object(vec![("name", JsonValue::Number("123".to_string()))]);
    let schema = r#"{"type": "object", "properties": {"name": {"type": "string"}}}"#;
    match validate_with_schema(&value, schema) {
        Err(Error::Other(m)) => {
            assert!(m.starts_with("Validation failed: Error: "));
            assert!(m.ends_with(" (at /name)"));
        }
        other => panic!("unexpected {other:?}"),
    }
    match validate_with_schema(&value, "not json") {
        Err(Error::JSONParseError(_)) => {}
        other => panic!("unexpected {other:?}"),
    }
    match validate_with_schema(&value, r#"{"type": 12}"#) {
        Err(Error::Other(m)) => assert!(m.starts_with("Invalid JSON schema: ")),
        other => panic!("unexpected {other:?}"),
    }
}

#[test]
fn json_text_keeps_entry_order_and_escapes_strings() {
    let v = object(vec![
        ("b", JsonValue::String("say \"hi\"\\\n".to_string())),
        ("a", JsonValue::Array(vec![JsonValue::Null, JsonValue::Bool(false), JsonValue::Number("1.5".to_string())])),
    ]);
    assert_eq!(to_json_text(&v), r#"{"b":"say \"hi\"\\\u000a","a":[null,false,1.5]}"#);
}

#[test]
fn compact_and_pretty_text_are_serde_json_s() {
    let v = object(vec![("b", JsonValue::Bool(true)), ("a", JsonValue::Number("1".to_string()))]);
    assert_eq!(compact_json(&v), r#"{"a":1,"b":true}"#);
    assert_eq!(pretty_json(&v), "{\n  \"a\": 1,\n  \"b\": true\n}");
    assert_eq!(textarea_text(&v), "{\n  \"a\": 1,\n  \"b\": true\n}");
    assert_eq!(textarea_text(&JsonValue::String("x: 1".to_string())), "x: 1");
    assert_eq!(compact_json(&JsonValue::String("line\n".to_string())), "\"line\\n\"");
}
