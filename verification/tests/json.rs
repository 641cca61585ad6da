use indeed_mcp::json::{read_json, write_pretty, Json};
use serde_json::Value;

fn text(s: &str) -> Json {
    Json::Text(s.to_string())
}

#[test]
fn documents_survive_reading_and_conversion() {
    let source = br#"{"b":[null,true,-3,1.5,18446744073709551615,"x"],"a":{"k":"v"},"e":{},"l":[]}"#;
    let direct: Value = serde_json::from_slice(source).unwrap();
    let document = read_json(source).unwrap();
    assert_eq!(document.into_value(), direct);
}

#[test]
fn what_is_no_json_is_not_read() {
    assert!(read_json(b"").is_none());
    assert!(read_json(b"<html>").is_none());
    assert!(read_json(b"{\"a\":1} x").is_none());
    assert!(read_json(b"\"\xff\"").is_none());
}

#[test]
fn values_are_found_by_key() {
    let doc = read_json(br#"{"error":"no","n":3,"error":"yes"}"#).unwrap();
    assert_eq!(doc.get("error").and_then(|v| v.as_str()), Some("yes"));
    assert!(doc.get("missing").is_none());
    assert!(doc.get("n").unwrap().as_str().is_none());
    assert!(text("x").get("error").is_none());
}

#[test]
fn the_later_of_two_values_counts() {
    let fields = vec![
        ("k".to_string(), text("first")),
        ("k".to_string(), text("second")),
    ];
    let doc = Json::Object(fields);
    assert_eq!(doc.get("k").and_then(|v| v.as_str()), Some("second"));
    let mut expected = serde_json::Map::new();
    expected.insert("k".to_string(), Value::from("second"));
    assert_eq!(doc.into_value(), Value::Object(expected));
}

#[test]
fn pretty_text_is_that_of_serde_json() {
    let source = "{\"z\":[1,2.25],\"a\":{\"q\":\"\\\"\u{e9}\"}}".as_bytes();
    let direct: Value = serde_json::from_slice(source).unwrap();
    let pretty = write_pretty(read_json(source).unwrap()).unwrap();
    assert_eq!(pretty, serde_json::to_string_pretty(&direct).unwrap());
    assert_eq!(
        pretty,
        "{\n  \"a\": {\n    \"q\": \"\\\"\u{e9}\"\n  },\n  \"z\": [\n    1,\n    2.25\n  ]\n}"
    );
}

#[test]
fn plain_values_convert_both_ways() {
    assert_eq!(Json::Null.into_value(), Value::Null);
    assert_eq!(Json::Bool(true).into_value(), Value::Bool(true));
    assert_eq!(
        Json::from_value(Value::from("s")).as_str(),
        Some("s")
    );
    let list = Json::Array(vec![text("a"), Json::Null]).into_value();
    assert_eq!(list, Value::Array(vec![Value::from("a"), Value::Null]));
}
