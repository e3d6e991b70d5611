use moro_host::json::Json;

fn object(members: Vec<(&str, Json)>) -> Json {
    Json::Object(members.into_iter().map(|(k, v)| (k.to_string(), v)).collect())
}

#[test]
fn parse_reads_every_kind_of_value() {
    let doc = Json::parse("{\"b\": [1, true, null, \"s\"], \"a\": {\"n\": 25}}").unwrap();
    let expected = object(vec![
        ("a", object(vec![("n", Json::from_u64(25))])),
        (
            "b",
            Json::Array(vec![
                Json::from_u64(1),
                Json::Bool(true),
                Json::Null,
                Json::Text("s".to_string()),
            ]),
        ),
    ]);
    assert_eq!(doc, expected);
}

#[test]
fn parse_then_print_gives_compact_text_with_sorted_keys() {
    let doc = Json::parse("{\"b\": [1, true, null], \"a\": \"x\"}").unwrap();
    assert_eq!(doc.to_text(), "{\"a\":\"x\",\"b\":[1,true,null]}");
}

#[test]
fn parse_rejects_what_is_no_json() {
    assert!(Json::parse("not json").is_err());
    assert!(Json::parse("").is_err());
    assert!(Json::parse("{\"a\":1} trailing").is_err());
}

#[test]
fn parse_error_carries_the_readers_words() {
    let words = Json::parse("{").unwrap_err();
    assert_eq!(words, "EOF while parsing an object at line 1 column 1");
}

#[test]
fn parse_keeps_numbers_that_are_no_integers() {
    let doc = Json::parse("[-3, 2.5, 1e3]").unwrap();
    assert_eq!(doc.to_text(), "[-3,2.5,1000.0]");
}

#[test]
fn print_escapes_strings() {
    let doc = Json::text("a\"b\\c\n");
    assert_eq!(doc.to_text(), "\"a\\\"b\\\\c\\n\"");
}

#[test]
fn from_u64_prints_as_decimal_digits() {
    assert_eq!(Json::from_u64(0).to_text(), "0");
    assert_eq!(Json::from_u64(42).to_text(), "42");
    assert_eq!(Json::from_u64(u64::MAX).to_text(), "18446744073709551615");
}

#[test]
fn from_u64_is_the_number_that_the_reader_gives() {
    assert_eq!(Json::parse("1024").unwrap(), Json::from_u64(1024));
}

#[test]
fn later_member_wins() {
    let doc = Json::pair("k", Json::from_u64(1), "k", Json::from_u64(2));
    assert_eq!(doc.get("k"), Some(&Json::from_u64(2)));
    assert_eq!(doc.to_text(), "{\"k\":2}");
}

#[test]
fn get_finds_members_of_objects_only() {
    let doc = object(vec![("a", Json::Bool(true)), ("b", Json::Null)]);
    assert_eq!(doc.get("a"), Some(&Json::Bool(true)));
    assert_eq!(doc.get("b"), Some(&Json::Null));
    assert_eq!(doc.get("c"), None);
    assert_eq!(Json::Array(vec![Json::Null]).get("a"), None);
    assert_eq!(Json::text("a").get("a"), None);
}

#[test]
fn accessors_tell_the_kinds_apart() {
    assert_eq!(Json::text("x").as_str(), Some("x"));
    assert_eq!(Json::Bool(true).as_str(), None);
    assert_eq!(Json::Bool(false).as_bool(), Some(false));
    assert_eq!(Json::Null.as_bool(), None);
    assert_eq!(Json::Array(vec![Json::Null]).as_array(), Some(&vec![Json::Null]));
    assert_eq!(Json::Null.as_array(), None);
}

#[test]
fn member_accessors_need_the_right_kind() {
    let doc = object(vec![("t", Json::text("x")), ("b", Json::Bool(true))]);
    assert_eq!(doc.text_member("t"), Some("x"));
    assert_eq!(doc.text_member("b"), None);
    assert_eq!(doc.text_member("missing"), None);
    assert_eq!(doc.bool_member("b"), Some(true));
    assert_eq!(doc.bool_member("t"), None);
}

#[test]
fn as_texts_needs_an_array_of_strings() {
    let all = Json::Array(vec![Json::text("a"), Json::text("b")]);
    assert_eq!(all.as_texts(), Some(vec!["a".to_string(), "b".to_string()]));
    let mixed = Json::Array(vec![Json::text("a"), Json::Null]);
    assert_eq!(mixed.as_texts(), None);
    assert_eq!(Json::Array(vec![]).as_texts(), Some(vec![]));
    assert_eq!(Json::text("a").as_texts(), None);
}

#[test]
fn clone_keeps_the_document() {
    let doc = Json::parse("{\"a\":[1,{\"b\":null}],\"c\":\"d\"}").unwrap();
    assert_eq!(doc.clone(), doc);
}

#[test]
fn object_and_array_keep_the_given_order() {
    let doc = Json::object(vec![
        ("z".to_string(), Json::Null),
        ("a".to_string(), Json::Bool(true)),
    ]);
    assert_eq!(doc, object(vec![("z", Json::Null), ("a", Json::Bool(true))]));
    assert_eq!(Json::array(vec![Json::Null]), Json::Array(vec![Json::Null]));
}
