//! The JSON subset parser: accepted documents, decoded values, and the
//! inputs the subset rejects.

use redox_commander::json::{obj_get, parse_json, JsonValue};

fn parse(text: &str) -> Option<JsonValue> {
    parse_json(&text.as_bytes().to_vec())
}

#[test]
fn parses_literals() {
    assert!(matches!(parse("null"), Some(JsonValue::Null)));
    assert!(matches!(parse("true"), Some(JsonValue::Bool(true))));
    assert!(matches!(parse("false"), Some(JsonValue::Bool(false))));
    assert!(matches!(parse("  null  "), Some(JsonValue::Null)));
}

#[test]
fn parses_integers() {
    assert!(matches!(parse("0"), Some(JsonValue::Int(0))));
    assert!(matches!(parse("42"), Some(JsonValue::Int(42))));
    assert!(matches!(parse("-17"), Some(JsonValue::Int(-17))));
    assert!(matches!(
        parse("9223372036854775807"),
        Some(JsonValue::Int(9223372036854775807))
    ));
}

#[test]
fn rejects_numbers_outside_the_subset() {
    // Past i64::MAX.
    assert!(parse("9223372036854775808").is_none());
    // Fractions and exponents are not integers.
    assert!(parse("1.5").is_none());
    assert!(parse("1e3").is_none());
    // A bare minus is not a number.
    assert!(parse("-").is_none());
}

#[test]
fn parses_strings_and_escapes() {
    match parse(r#""hello""#) {
        Some(JsonValue::Str(s)) => assert_eq!(s, "hello"),
        other => panic!("expected string, got {:?}", other),
    }
    match parse(r#""a\"b\\c\/d\n\t\r\b\f""#) {
        Some(JsonValue::Str(s)) => assert_eq!(s, "a\"b\\c/d\n\t\r\u{8}\u{c}"),
        other => panic!("expected string, got {:?}", other),
    }
    // Raw UTF-8 passes through.
    match parse("\"caf\u{e9}\"") {
        Some(JsonValue::Str(s)) => assert_eq!(s, "caf\u{e9}"),
        other => panic!("expected string, got {:?}", other),
    }
}

#[test]
fn rejects_strings_outside_the_subset() {
    // Unicode escapes are outside the subset.
    assert!(parse(r#""a\u0041b""#).is_none());
    // Unknown escape.
    assert!(parse(r#""a\qb""#).is_none());
    // Unterminated.
    assert!(parse(r#""abc"#).is_none());
    // Invalid UTF-8 in the content bytes.
    assert!(parse_json(&vec![34, 0xff, 34]).is_none());
}

#[test]
fn parses_arrays() {
    match parse("[1, 2, 3]") {
        Some(JsonValue::Arr(vs)) => {
            assert_eq!(vs.len(), 3);
            assert!(matches!(vs[0], JsonValue::Int(1)));
            assert!(matches!(vs[2], JsonValue::Int(3)));
        }
        other => panic!("expected array, got {:?}", other),
    }
    assert!(matches!(parse("[]"), Some(JsonValue::Arr(vs)) if vs.is_empty()));
    assert!(matches!(parse("[ ]"), Some(JsonValue::Arr(vs)) if vs.is_empty()));
    assert!(parse("[1,]").is_none());
    assert!(parse("[1 2]").is_none());
    assert!(parse("[").is_none());
}

#[test]
fn parses_objects_and_lookup() {
    let v = parse(r#"{"a": 1, "b": {"c": [true, null]}}"#).unwrap();
    let ms = match &v {
        JsonValue::Obj(ms) => ms,
        other => panic!("expected object, got {:?}", other),
    };
    assert!(matches!(
        obj_get(ms, &"a".to_string()),
        Some(JsonValue::Int(1))
    ));
    let inner = match obj_get(ms, &"b".to_string()) {
        Some(JsonValue::Obj(inner)) => inner,
        other => panic!("expected object, got {:?}", other),
    };
    match obj_get(inner, &"c".to_string()) {
        Some(JsonValue::Arr(vs)) => assert_eq!(vs.len(), 2),
        other => panic!("expected array, got {:?}", other),
    }
    assert!(obj_get(ms, &"missing".to_string()).is_none());
}

#[test]
fn first_duplicate_key_wins() {
    let v = parse(r#"{"k": 1, "k": 2}"#).unwrap();
    let ms = match &v {
        JsonValue::Obj(ms) => ms,
        other => panic!("expected object, got {:?}", other),
    };
    assert!(matches!(obj_get(ms, &"k".to_string()), Some(JsonValue::Int(1))));
}

#[test]
fn rejects_trailing_content() {
    assert!(parse("1 2").is_none());
    assert!(parse("{} x").is_none());
    assert!(parse("").is_none());
    assert!(parse("   ").is_none());
}

#[test]
fn whitespace_is_insignificant() {
    let v = parse(" \t\r\n{ \"a\" :\n[ 1 , 2 ]\t} ").unwrap();
    let ms = match &v {
        JsonValue::Obj(ms) => ms,
        other => panic!("expected object, got {:?}", other),
    };
    match obj_get(ms, &"a".to_string()) {
        Some(JsonValue::Arr(vs)) => assert_eq!(vs.len(), 2),
        other => panic!("expected array, got {:?}", other),
    }
}
