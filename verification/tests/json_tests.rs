use custom_resource_provider::json::{to_json_string, JsonValue};

#[test]
fn scalars_serialize_exactly() {
    assert_eq!(to_json_string(&JsonValue::Null), "null");
    assert_eq!(to_json_string(&JsonValue::Bool(true)), "true");
    assert_eq!(to_json_string(&JsonValue::Bool(false)), "false");
    assert_eq!(to_json_string(&JsonValue::Int(0)), "0");
    assert_eq!(to_json_string(&JsonValue::Int(-42)), "-42");
    assert_eq!(to_json_string(&JsonValue::Int(i64::MIN)), "-9223372036854775808");
    assert_eq!(to_json_string(&JsonValue::Int(i64::MAX)), "9223372036854775807");
    assert_eq!(to_json_string(&JsonValue::UInt(0)), "0");
    assert_eq!(to_json_string(&JsonValue::UInt(u64::MAX)), "18446744073709551615");
}

#[test]
fn strings_escape_as_the_wire_format_asks() {
    assert_eq!(to_json_string(&JsonValue::Str(String::new())), "\"\"");
    assert_eq!(to_json_string(&JsonValue::Str("plain".to_string())), "\"plain\"");
    assert_eq!(
        to_json_string(&JsonValue::Str("say \"hi\"".to_string())),
        "\"say \\\"hi\\\"\""
    );
    assert_eq!(to_json_string(&JsonValue::Str("a\\b".to_string())), "\"a\\\\b\"");
    assert_eq!(
        to_json_string(&JsonValue::Str("\u{08}\t\n\u{0c}\r".to_string())),
        "\"\\b\\t\\n\\f\\r\""
    );
    assert_eq!(
        to_json_string(&JsonValue::Str("\u{01}\u{1f}".to_string())),
        "\"\\u0001\\u001f\""
    );
    assert_eq!(to_json_string(&JsonValue::Str("héllo ☃".to_string())), "\"héllo ☃\"");
}

#[test]
fn arrays_and_objects_serialize_exactly() {
    assert_eq!(to_json_string(&JsonValue::Array(vec![])), "[]");
    assert_eq!(
        to_json_string(&JsonValue::Array(vec![
            JsonValue::Int(1),
            JsonValue::Str("two".to_string()),
            JsonValue::Null,
        ])),
        "[1,\"two\",null]"
    );
    assert_eq!(to_json_string(&JsonValue::Object(vec![])), "{}");
    assert_eq!(
        to_json_string(&JsonValue::Object(vec![
            ("x".to_string(), JsonValue::Int(1)),
            (
                "nested".to_string(),
                JsonValue::Object(vec![("y".to_string(), JsonValue::Array(vec![
                    JsonValue::Bool(false),
                ]))]),
            ),
        ])),
        "{\"x\":1,\"nested\":{\"y\":[false]}}"
    );
}

#[test]
fn control_character_escaping_agrees_with_the_reference_serializer() {
    for byte in 0u8..0x20u8 {
        let s = String::from_utf8(vec![byte]).unwrap();
        let mine = to_json_string(&JsonValue::Str(s.clone()));
        let reference = serde_json::to_string(&serde_json::Value::String(s)).unwrap();
        assert_eq!(mine, reference, "control character 0x{:02x}", byte);
    }
}

#[test]
fn serialization_agrees_with_the_reference_serializer() {
    let mine = to_json_string(&JsonValue::Object(vec![
        ("big".to_string(), JsonValue::UInt(u64::MAX)),
        ("list".to_string(), JsonValue::Array(vec![JsonValue::Null, JsonValue::Bool(true)])),
        ("n".to_string(), JsonValue::Int(-12345)),
        ("text".to_string(), JsonValue::Str("a \"quoted\" \\ line\nwith \u{07} bell".to_string())),
    ]));
    let mut reference = serde_json::Map::new();
    reference.insert("big".to_string(), serde_json::Value::from(u64::MAX));
    reference.insert(
        "list".to_string(),
        serde_json::Value::Array(vec![serde_json::Value::Null, serde_json::Value::Bool(true)]),
    );
    reference.insert("n".to_string(), serde_json::Value::from(-12345i64));
    reference.insert(
        "text".to_string(),
        serde_json::Value::String("a \"quoted\" \\ line\nwith \u{07} bell".to_string()),
    );
    let reference = serde_json::Value::Object(reference);
    assert_eq!(mine, serde_json::to_string(&reference).unwrap());
}
