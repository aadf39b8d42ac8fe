use minecraft_auth::json::{find_member, Json};

#[test]
fn parse_reads_members_of_an_object() {
    let doc = Json::parse("{\"Token\": \"abc\", \"XErr\": 2148916238}").unwrap();
    assert_eq!(doc.get("Token").and_then(|t| t.as_text()), Some(&"abc".to_string()));
    assert_eq!(doc.get("XErr").and_then(|t| t.as_unsigned()), Some(2148916238u64));
    assert!(doc.get("Other").is_none());
}

#[test]
fn parse_gives_each_kind_of_value() {
    assert_eq!(Json::parse("null"), Some(Json::Null));
    assert_eq!(Json::parse("true"), Some(Json::Bool(true)));
    assert_eq!(Json::parse("false"), Some(Json::Bool(false)));
    assert_eq!(Json::parse("7"), Some(Json::Number(Some(7))));
    assert_eq!(Json::parse("\"7\""), Some(Json::Text("7".to_string())));
    assert_eq!(Json::parse("[]"), Some(Json::Array(vec![])));
    assert_eq!(Json::parse("{}"), Some(Json::Object(vec![])));
    assert_eq!(
        Json::parse("[1, \"a\", [null]]"),
        Some(Json::Array(vec![
            Json::Number(Some(1)),
            Json::Text("a".to_string()),
            Json::Array(vec![Json::Null]),
        ]))
    );
    assert_eq!(
        Json::parse("{\"a\": {\"b\": [true]}}"),
        Some(Json::Object(vec![(
            "a".to_string(),
            Json::Object(vec![("b".to_string(), Json::Array(vec![Json::Bool(true)]))])
        )]))
    );
}

#[test]
fn parse_keeps_unsigned_numbers_only() {
    assert_eq!(Json::parse("0"), Some(Json::Number(Some(0))));
    assert_eq!(Json::parse("18446744073709551615"), Some(Json::Number(Some(u64::MAX))));
    assert_eq!(Json::parse("-1"), Some(Json::Number(None)));
    assert_eq!(Json::parse("1.5"), Some(Json::Number(None)));
    assert_eq!(Json::parse("2148916238.0"), Some(Json::Number(None)));
    assert_eq!(Json::parse("18446744073709551616"), Some(Json::Number(None)));
}

#[test]
fn parse_refuses_what_is_no_json() {
    assert_eq!(Json::parse(""), None);
    assert_eq!(Json::parse("<html>Service Unavailable</html>"), None);
    assert_eq!(Json::parse("{\"Token\": "), None);
    assert_eq!(Json::parse("{\"a\": 1} trailing"), None);
    assert_eq!(Json::parse("{'a': 1}"), None);
}

#[test]
fn parse_unescapes_text() {
    assert_eq!(Json::parse("\"a\\\"b\\u00e9\\n\""), Some(Json::Text("a\"b\u{e9}\n".to_string())));
}

#[test]
fn parse_does_not_hand_back_the_text() {
    assert_ne!(Json::parse("\"abc\""), Some(Json::Text("\"abc\"".to_string())));
}

#[test]
fn get_takes_the_first_member_of_a_name() {
    let doc = Json::Object(vec![
        ("a".to_string(), Json::Number(Some(1))),
        ("b".to_string(), Json::Number(Some(2))),
        ("a".to_string(), Json::Number(Some(3))),
    ]);
    assert_eq!(doc.get("a"), Some(&Json::Number(Some(1))));
    assert_eq!(doc.get("b"), Some(&Json::Number(Some(2))));
    assert_eq!(doc.get("c"), None);
    assert_eq!(doc.get(""), None);
}

#[test]
fn get_is_none_for_what_is_no_object() {
    assert_eq!(Json::Null.get("a"), None);
    assert_eq!(Json::Text("a".to_string()).get("a"), None);
    assert_eq!(Json::Array(vec![Json::Text("a".to_string())]).get("a"), None);
}

#[test]
fn find_member_gives_the_index_or_the_length() {
    let members = vec![
        ("x".to_string(), Json::Null),
        ("y".to_string(), Json::Null),
        ("y".to_string(), Json::Bool(true)),
    ];
    assert_eq!(find_member(&members, "x"), 0);
    assert_eq!(find_member(&members, "y"), 1);
    assert_eq!(find_member(&members, "z"), 3);
    assert_eq!(find_member(&vec![], "x"), 0);
}

#[test]
fn at_takes_an_item_of_an_array() {
    let doc = Json::Array(vec![Json::Bool(true), Json::Null]);
    assert_eq!(doc.at(0), Some(&Json::Bool(true)));
    assert_eq!(doc.at(1), Some(&Json::Null));
    assert_eq!(doc.at(2), None);
    assert_eq!(Json::Array(vec![]).at(0), None);
    assert_eq!(Json::Object(vec![("0".to_string(), Json::Null)]).at(0), None);
}

#[test]
fn as_text_and_as_unsigned_tell_the_kinds_apart() {
    assert_eq!(Json::Text("5".to_string()).as_text(), Some(&"5".to_string()));
    assert_eq!(Json::Text("5".to_string()).as_unsigned(), None);
    assert_eq!(Json::Number(Some(5)).as_unsigned(), Some(5));
    assert_eq!(Json::Number(Some(5)).as_text(), None);
    assert_eq!(Json::Number(None).as_unsigned(), None);
    assert_eq!(Json::Null.as_text(), None);
    assert_eq!(Json::Bool(true).as_unsigned(), None);
}

#[test]
fn parse_lets_the_last_of_equal_names_stand() {
    let doc = Json::parse("{\"a\": 1, \"a\": 2}").unwrap();
    assert_eq!(doc.get("a"), Some(&Json::Number(Some(2))));
}
