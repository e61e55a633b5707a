use libratone_rs::json::{push_member, Json};

#[test]
fn documents_are_read_as_trees() {
    let text = br#"{"a": null, "b": [true, -7, 1.5, 18446744073709551615, "s"], "c": {"d": {}}}"#;
    let expected = Json::Object(vec![
        ("a".to_string(), Json::Null),
        (
            "b".to_string(),
            Json::Array(vec![
                Json::Bool(true),
                Json::Int(-7),
                Json::Other,
                Json::Other,
                Json::Str("s".to_string()),
            ]),
        ),
        (
            "c".to_string(),
            Json::Object(vec![("d".to_string(), Json::Object(vec![]))]),
        ),
    ]);
    assert_eq!(Json::parse(text), Some(expected));
}

#[test]
fn members_keep_the_order_of_the_document() {
    let tree = Json::parse(br#"{"z": 1, "a": 2, "m": 3}"#).unwrap();
    assert_eq!(
        tree,
        Json::Object(vec![
            ("z".to_string(), Json::Int(1)),
            ("a".to_string(), Json::Int(2)),
            ("m".to_string(), Json::Int(3)),
        ])
    );
    assert_eq!(tree.to_bytes(), br#"{"z":1,"a":2,"m":3}"#);
}

#[test]
fn what_is_no_document() {
    for text in ["", "{", "[1,]", "nul", "{\"a\" 1}", "1 2", "'a'"] {
        assert_eq!(Json::parse(text.as_bytes()), None, "{:?}", text);
    }
}

#[test]
fn scalars_are_documents() {
    assert_eq!(Json::parse(b"null"), Some(Json::Null));
    assert_eq!(Json::parse(b" false "), Some(Json::Bool(false)));
    assert_eq!(Json::parse(b"9223372036854775807"), Some(Json::Int(i64::MAX)));
    assert_eq!(Json::parse(b"-9223372036854775808"), Some(Json::Int(i64::MIN)));
    assert_eq!(Json::parse(b"9223372036854775808"), Some(Json::Other));
    assert_eq!(Json::parse(b"1e3"), Some(Json::Other));
    assert_eq!(
        Json::parse("\"a\u{e9}\\n\\u00e9\"".as_bytes()),
        Some(Json::Str("a\u{e9}\n\u{e9}".to_string()))
    );
}

#[test]
fn members_are_found_by_name() {
    let tree = Json::parse(br#"{"a": 1, "b": null, "": "empty"}"#).unwrap();
    assert_eq!(tree.get("a"), Some(&Json::Int(1)));
    assert_eq!(tree.get("b"), Some(&Json::Null));
    assert_eq!(tree.get(""), Some(&Json::Str("empty".to_string())));
    assert_eq!(tree.get("c"), None);
    assert_eq!(tree.get("A"), None);
    assert_eq!(Json::Array(vec![]).get("a"), None);
    assert_eq!(Json::Null.get("a"), None);
    let twice =
        Json::Object(vec![("a".to_string(), Json::Int(1)), ("a".to_string(), Json::Int(2))]);
    assert_eq!(twice.get("a"), Some(&Json::Int(1)));
}

#[test]
fn trees_are_written_as_documents() {
    let mut members = Vec::new();
    push_member(&mut members, "text", Json::Str("a\"b\\c\n".to_string()));
    push_member(&mut members, "none", Json::text_or_null(&None));
    push_member(&mut members, "some", Json::text_or_null(&Some("x".to_string())));
    push_member(&mut members, "list", Json::array(vec![Json::Int(-1), Json::Bool(true)]));
    let tree = Json::object(members);
    let text = tree.to_bytes();
    assert_eq!(
        String::from_utf8(text.clone()).unwrap(),
        r#"{"text":"a\"b\\c\n","none":null,"some":"x","list":[-1,true]}"#
    );
    assert_eq!(Json::parse(&text), Some(tree));
}
