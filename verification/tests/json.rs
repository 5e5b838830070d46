//! JSON documents against serde_json.

use session_control::json::{Fields, Items, Json, parse_json};

#[test]
fn documents_are_read_and_written() {
    let text = r#"{"a":[1,-2,2.5,null,true,"x\n\"é\""],"b":{},"c":{"d":[]}}"#;
    let doc = parse_json(text).unwrap();
    assert_eq!(doc.to_text(), text);
    let value: serde_json::Value = serde_json::from_str(text).unwrap();
    assert_eq!(doc.to_text(), value.to_string());
}

#[test]
fn names_are_written_in_order() {
    let doc = Fields::new().with("b", Json::uint(1)).with("a", Json::Null).done();
    assert_eq!(doc.to_text(), r#"{"a":null,"b":1}"#);
}

#[test]
fn the_last_field_of_a_name_counts() {
    let doc = parse_json(r#"{"a":1,"a":2}"#).unwrap();
    assert_eq!(doc.u64_at("a"), Some(2));
    let built = Fields::new().with("a", Json::uint(1)).with("a", Json::uint(2)).done();
    assert_eq!(built.u64_at("a"), Some(2));
    assert_eq!(built.to_text(), r#"{"a":2}"#);
}

#[test]
fn numbers_are_told_apart() {
    for (text, unsigned) in [
        ("0", Some(0)),
        ("18446744073709551615", Some(u64::MAX)),
        ("-1", None),
        ("1.0", None),
        ("1e3", None),
        ("18446744073709551616", None),
    ] {
        let doc = parse_json(text).unwrap();
        assert_eq!(doc.as_u64(), unsigned, "{text}");
        let value: serde_json::Value = serde_json::from_str(text).unwrap();
        assert_eq!(doc.as_u64(), value.as_u64());
        assert_eq!(doc.to_text(), value.to_string());
    }
}

#[test]
fn what_is_no_document_is_refused_with_a_message() {
    for text in ["", "{", "[1,]", "nul", "{\"a\":}"] {
        let message = serde_json::from_str::<serde_json::Value>(text).unwrap_err().to_string();
        assert_eq!(parse_json(text).unwrap_err(), message);
    }
}

#[test]
fn fields_are_looked_up_by_name_and_type() {
    let doc = parse_json(r#"{"t":"x","b":false,"n":7,"l":[1],"z":null}"#).unwrap();
    assert_eq!(doc.text_at("t"), Some("x"));
    assert_eq!(doc.text_at("b"), None);
    assert_eq!(doc.bool_at("b"), Some(false));
    assert_eq!(doc.u64_at("n"), Some(7));
    assert_eq!(doc.array_at("l").unwrap().len(), 1);
    assert!(doc.get("z").is_some());
    assert!(doc.get("absent").is_none());
    assert!(Json::Null.get("t").is_none());
    assert!(Json::text("x").get("t").is_none());
}

#[test]
fn copies_hold_the_same() {
    let text = r#"{"a":[1.5,{"b":"c"}],"d":-3}"#;
    let doc = parse_json(text).unwrap();
    assert_eq!(doc.clone().to_text(), text);
}

#[test]
fn lists_keep_their_order() {
    let doc = Items::new().with(Json::text("b")).with(Json::text("a")).done();
    assert_eq!(doc.to_text(), r#"["b","a"]"#);
    assert_eq!(Json::texts(&vec!["b".into(), "a".into()]).to_text(), doc.to_text());
    assert_eq!(Json::opt_text(None).to_text(), "null");
}

#[test]
fn of_fields_with_one_name_the_last_counts() {
    let twice = Fields::new()
        .with("a", Json::uint(1))
        .with("b", Json::uint(2))
        .with("a", Json::uint(3))
        .done();
    assert_eq!(twice.to_text(), r#"{"a":3,"b":2}"#);
    match &twice {
        Json::Object(fields) => assert_eq!(fields.len(), 2),
        other => panic!("no object: {other:?}"),
    }
    let loose = Json::Object(vec![
        ("a".into(), Json::uint(1)),
        ("b".into(), Json::uint(2)),
        ("a".into(), Json::uint(3)),
    ]);
    assert_eq!(loose.to_text(), r#"{"a":3,"b":2}"#);
    assert_eq!(loose.u64_at("a"), Some(3));
}
