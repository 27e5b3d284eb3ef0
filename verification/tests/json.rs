use support_bot::json::{integer_of, owned_text, parse_json, Json};

#[test]
fn parse_json_reads_members_of_every_kind() {
    let doc = parse_json(r#"{"n": 7, "s": "x", "b": true, "z": null, "l": [1, "two"], "f": 1.5}"#)
        .expect("a document");
    assert_eq!(doc.get("n").and_then(|j| j.as_integer()), Some(7));
    assert_eq!(doc.get("s").and_then(|j| j.as_text()).map(|s| s.as_str()), Some("x"));
    assert_eq!(doc.get("b").and_then(|j| j.as_bool()), Some(true));
    assert!(doc.get("z").expect("null is a member").is_null());
    assert_eq!(doc.get("f").and_then(|j| j.as_integer()), None);
    assert!(doc.get("missing").is_none());
    let list = doc.get("l").expect("a list");
    assert_eq!(list.at(0).and_then(|j| j.as_integer()), Some(1));
    assert_eq!(list.at(1).and_then(|j| j.as_text()).map(|s| s.as_str()), Some("two"));
    assert!(list.at(2).is_none());
}

#[test]
fn parse_json_refuses_what_is_no_document() {
    assert!(parse_json("not json").is_none());
    assert!(parse_json("").is_none());
    assert!(parse_json("{\"a\": 1").is_none());
}

#[test]
fn parse_json_does_not_hand_its_text_back() {
    match parse_json("\"abc\"") {
        Some(Json::Text(s)) => assert_eq!(s, "abc"),
        other => panic!("expected a string, got {:?}", other),
    }
}

#[test]
fn nested_members_are_reached_step_by_step() {
    let doc = parse_json(r#"{"a": {"b": {"c": 3}}, "s": {"t": "deep"}}"#).expect("a document");
    assert_eq!(integer_of(doc.get3("a", "b", "c")), Some(3));
    assert_eq!(integer_of(doc.get3("a", "x", "c")), None);
    assert_eq!(owned_text(doc.get2("s", "t")), Some("deep".to_string()));
    assert_eq!(owned_text(doc.get2("a", "b")), None);
    assert!(doc.get2("s", "none").is_none());
}

#[test]
fn members_of_what_is_no_object_are_missing() {
    let doc = parse_json("[1, 2]").expect("a document");
    assert!(doc.get("a").is_none());
    let text = Json::Text("x".to_string());
    assert!(text.at(0).is_none());
    assert_eq!(Json::Number(None).as_integer(), None);
    assert_eq!(Json::Null.as_bool(), None);
}

#[test]
fn large_integers_are_not_integers_that_fit() {
    let doc = parse_json(r#"{"big": 18446744073709551615, "min": -9223372036854775808}"#)
        .expect("a document");
    assert_eq!(integer_of(doc.get("big")), None);
    assert_eq!(integer_of(doc.get("min")), Some(i64::MIN));
}
