use pyo3_pylogger::{flatten_fields, FieldValue};
use serde_json::Value;

fn ok(key: &str, v: Value) -> (String, FieldValue) {
    (
        key.to_string(),
        FieldValue {
            converted: Ok(v),
            repr: String::new(),
        },
    )
}

fn failed(key: &str, reason: &str, repr: &str) -> (String, FieldValue) {
    (
        key.to_string(),
        FieldValue {
            converted: Err(reason.to_string()),
            repr: repr.to_string(),
        },
    )
}

#[test]
fn flattened_single_string_field() {
    let flat = flatten_fields(vec![ok("k", Value::String("v".to_string()))]);
    assert_eq!(flat.text, "{\"k\":\"v\"}");
    assert!(flat.failures.is_empty());
}

#[test]
fn flattened_no_fields_is_empty_object() {
    let flat = flatten_fields(Vec::new());
    assert_eq!(flat.text, "{}");
    assert!(flat.failures.is_empty());
}

#[test]
fn flattened_keys_come_out_sorted() {
    let flat = flatten_fields(vec![
        ok("b", Value::from(1)),
        ok("a", Value::Bool(true)),
        ok("c", Value::Null),
    ]);
    assert_eq!(flat.text, "{\"a\":true,\"b\":1,\"c\":null}");
}

#[test]
fn flattened_later_field_replaces_earlier() {
    let flat = flatten_fields(vec![ok("k", Value::from(1)), ok("k", Value::from(2))]);
    assert_eq!(flat.text, "{\"k\":2}");
}

#[test]
fn failed_conversion_falls_back_to_quoted_repr() {
    let flat = flatten_fields(vec![
        ok("a", Value::from(5)),
        failed("obj", "unsupported type", "<object at 0x1>"),
    ]);
    assert_eq!(flat.text, "{\"a\":5,\"obj\":\"\\\"<object at 0x1>\\\"\"}");
    assert_eq!(flat.failures.len(), 1);
    assert_eq!(flat.failures[0].key, "obj");
    assert_eq!(flat.failures[0].reason, "unsupported type");
}

#[test]
fn failed_conversion_with_empty_repr_is_not_empty() {
    let flat = flatten_fields(vec![failed("e", "bad", "")]);
    assert_eq!(flat.text, "{\"e\":\"\\\"\\\"\"}");
    assert_eq!(flat.failures.len(), 1);
}
