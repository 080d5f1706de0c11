use slack_unfurl::json::{parse_json, render_json, JsonValue};

fn text(s: &str) -> JsonValue {
    JsonValue::Text(s.to_string())
}

#[test]
fn reads_a_document_into_plain_values() {
    let j = parse_json(r#"{"b":[1,-2,1.5,true,null,"x"],"a":{"k":"v"}}"#).unwrap();
    let expected = JsonValue::Object(vec![
        ("a".to_string(), JsonValue::Object(vec![("k".to_string(), text("v"))])),
        (
            "b".to_string(),
            JsonValue::Array(vec![
                JsonValue::Number("1".to_string()),
                JsonValue::Number("-2".to_string()),
                JsonValue::Number("1.5".to_string()),
                JsonValue::Bool(true),
                JsonValue::Null,
                text("x"),
            ]),
        ),
    ]);
    assert_eq!(j, expected);
}

#[test]
fn what_is_no_json_is_not_read() {
    assert!(parse_json("").is_none());
    assert!(parse_json("{").is_none());
    assert!(parse_json("{\"a\":1} x").is_none());
    assert!(parse_json("'a'").is_none());
}

#[test]
fn writes_compact_json_text() {
    assert_eq!(render_json(&JsonValue::Null), "null");
    assert_eq!(render_json(&JsonValue::Bool(false)), "false");
    assert_eq!(render_json(&JsonValue::Number("300".to_string())), "300");
    assert_eq!(render_json(&JsonValue::Number("1.5".to_string())), "1.5");
    assert_eq!(render_json(&text("a \"b\"\n")), r#""a \"b\"\n""#);
    let j = JsonValue::Object(vec![
        ("b".to_string(), JsonValue::Array(vec![JsonValue::Null, text("x")])),
        ("a".to_string(), JsonValue::Number("1".to_string())),
    ]);
    assert_eq!(render_json(&j), r#"{"a":1,"b":[null,"x"]}"#);
}

#[test]
fn the_last_member_of_a_name_counts() {
    let j = JsonValue::Object(vec![
        ("a".to_string(), text("first")),
        ("b".to_string(), text("other")),
        ("a".to_string(), text("last")),
    ]);
    assert_eq!(j.get("a"), Some(&text("last")));
    assert_eq!(j.get("b"), Some(&text("other")));
    assert_eq!(j.get("c"), None);
    assert_eq!(render_json(&j), r#"{"a":"last","b":"other"}"#);
    let read = parse_json(r#"{"a":"first","a":"last"}"#).unwrap();
    assert_eq!(read.get("a"), Some(&text("last")));
}

#[test]
fn members_are_found_only_in_objects() {
    assert_eq!(text("x").get("a"), None);
    assert_eq!(JsonValue::Array(vec![text("a")]).get("a"), None);
    assert_eq!(JsonValue::Null.get("a"), None);
}

#[test]
fn values_are_told_apart_by_kind() {
    assert_eq!(text("x").as_str(), Some("x"));
    assert_eq!(JsonValue::Null.as_str(), None);
    assert_eq!(JsonValue::Bool(true).as_bool(), Some(true));
    assert_eq!(text("true").as_bool(), None);
    assert_eq!(JsonValue::Number("12".to_string()).as_number(), Some("12"));
    assert_eq!(text("12").as_number(), None);
    assert_eq!(JsonValue::Array(vec![]).as_array(), Some(&vec![]));
    assert_eq!(JsonValue::Object(vec![]).as_array(), None);
    assert!(JsonValue::Null.is_null());
    assert!(!JsonValue::Bool(false).is_null());
}

#[test]
fn builders_make_the_values_they_name() {
    assert_eq!(JsonValue::text("x"), text("x"));
    assert_eq!(JsonValue::array(vec![JsonValue::Null]), JsonValue::Array(vec![JsonValue::Null]));
    assert_eq!(
        JsonValue::object(vec![("k".to_string(), JsonValue::Null)]),
        JsonValue::Object(vec![("k".to_string(), JsonValue::Null)])
    );
}

#[test]
fn a_number_that_is_none_is_written_as_null() {
    assert_eq!(render_json(&JsonValue::Number("true".to_string())), "null");
    assert_eq!(render_json(&JsonValue::Number("".to_string())), "null");
    assert_eq!(render_json(&JsonValue::Number("-12".to_string())), "-12");
    assert_eq!(render_json(&JsonValue::Number("18446744073709551615".to_string())), "18446744073709551615");
}
