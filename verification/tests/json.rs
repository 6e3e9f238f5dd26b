//! JSON documents, and how they are read.

use mqo_agent::{parse_bytes, parse_text, Confidence, Json, JsonNumber};

#[test]
fn every_kind_of_value_is_read() {
    let text = r#"{"n": null, "t": true, "i": 7, "m": -7, "f": 0.5, "s": "x", "a": [1, "two", []], "o": {"k": false}}"#;
    let json = parse_text(text).unwrap();
    assert!(matches!(json.get("n"), Some(Json::Null)));
    assert!(matches!(json.get("t"), Some(Json::Bool(true))));
    assert!(matches!(json.get("i"), Some(Json::Number(JsonNumber::PosInt(7)))));
    assert!(matches!(json.get("m"), Some(Json::Number(JsonNumber::NegInt(-7)))));
    match json.get("f") {
        Some(Json::Number(JsonNumber::Float(bits))) => assert_eq!(*bits, 0.5f64.to_bits()),
        other => panic!("not a float: {:?}", other),
    }
    assert_eq!(json.get_str("s"), Some("x"));
    match json.get("a") {
        Some(Json::Array(items)) => {
            assert_eq!(items.len(), 3);
            assert!(matches!(items[0], Json::Number(JsonNumber::PosInt(1))));
            assert_eq!(items[1].as_str(), Some("two"));
            assert!(matches!(&items[2], Json::Array(inner) if inner.is_empty()));
        }
        other => panic!("not an array: {:?}", other),
    }
    assert_eq!(json.get("o").and_then(|o| o.get_bool("k")), Some(false));
    assert!(json.get("missing").is_none());
    assert!(json.get_bool("s").is_none());
    assert!(json.get_str("t").is_none());
}

#[test]
fn values_that_are_no_objects_have_no_members() {
    for text in ["null", "[1]", "\"tool\"", "3"] {
        let json = parse_text(text).unwrap();
        assert!(json.get("tool").is_none());
    }
}

#[test]
fn malformed_texts_are_refused() {
    for text in ["", "{", "{\"a\":}", "nope", "1 2"] {
        assert!(parse_text(text).is_err(), "{}", text);
        assert!(parse_bytes(text.as_bytes()).is_none(), "{}", text);
    }
    assert!(parse_bytes(&[0xff, 0xfe]).is_none());
}

#[test]
fn bytes_are_read_like_text() {
    let json = parse_bytes(b"{\"confidence\": 0.25}").unwrap();
    assert_eq!(json.get_double("confidence"), Some(Confidence::from_bits(0.25f64.to_bits())));
}

#[test]
fn large_numbers_keep_their_kind() {
    let json = parse_text("[18446744073709551615, -9223372036854775808, 1e3, 18446744073709551616]").unwrap();
    match json {
        Json::Array(items) => {
            assert!(matches!(items[0], Json::Number(JsonNumber::PosInt(u64::MAX))));
            assert!(matches!(items[1], Json::Number(JsonNumber::NegInt(i64::MIN))));
            assert_eq!(items[2].as_double(), Some(Confidence::from_bits(1000f64.to_bits())));
            assert!(matches!(items[2], Json::Number(JsonNumber::Float(_))));
            assert_eq!(items[3].as_double(), Some(Confidence::from_bits(18446744073709551616f64.to_bits())));
        }
        other => panic!("not an array: {:?}", other),
    }
}

#[test]
fn integers_are_read_as_doubles() {
    let json = parse_text("{\"a\": 1, \"b\": -3, \"c\": \"1\"}").unwrap();
    assert_eq!(json.get_double("a"), Some(Confidence::from_bits(1f64.to_bits())));
    assert_eq!(json.get_double("b"), Some(Confidence::from_bits((-3f64).to_bits())));
    assert_eq!(json.get_double("c"), None);
}

#[test]
fn repeated_names_keep_the_last_value() {
    let json = parse_text("{\"a\": 1, \"a\": 2}").unwrap();
    assert!(matches!(json.get("a"), Some(Json::Number(JsonNumber::PosInt(2)))));
    assert!(matches!(&json, Json::Object(members) if members.len() == 1));
}

#[test]
fn clones_are_equal() {
    let json = parse_text("{\"a\": [1, {\"b\": \"c\"}, null], \"d\": 0.125}").unwrap();
    assert_eq!(format!("{:?}", json.clone()), format!("{:?}", json));
}
