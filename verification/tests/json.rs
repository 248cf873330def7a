use chat_backend::json::{Json, Member};

fn object(members: Vec<(&str, Json)>) -> Json {
    Json::Object(
        members
            .into_iter()
            .map(|(key, value)| Member { key: key.to_string(), value })
            .collect(),
    )
}

fn text(s: &str) -> Json {
    Json::Text(s.to_string())
}

#[test]
fn member_is_found_by_its_key() {
    let doc = object(vec![("a", text("1")), ("b", text("2")), ("", text("3"))]);
    assert_eq!(doc.get("a"), Some(&text("1")));
    assert_eq!(doc.get("b"), Some(&text("2")));
    assert_eq!(doc.get(""), Some(&text("3")));
    assert_eq!(doc.get("c"), None);
    assert_eq!(doc.get("A"), None);
}

#[test]
fn first_member_with_the_key_counts() {
    let doc = object(vec![("a", text("1")), ("a", text("2"))]);
    assert_eq!(doc.get("a"), Some(&text("1")));
}

#[test]
fn only_an_object_has_members() {
    for doc in [Json::Null, Json::Bool(true), Json::Number("1".to_string()), text("a"), Json::Array(vec![text("a")]), object(vec![])] {
        assert_eq!(doc.get("a"), None);
    }
}

#[test]
fn only_a_string_has_text() {
    assert_eq!(text("abc").as_str(), Some("abc"));
    assert_eq!(text("").as_str(), Some(""));
    for doc in [Json::Null, Json::Bool(false), Json::Number("1".to_string()), Json::Array(vec![]), object(vec![])] {
        assert_eq!(doc.as_str(), None);
    }
}

#[test]
fn only_an_array_has_items() {
    let items = vec![text("a"), Json::Null];
    assert_eq!(Json::Array(vec![text("a"), Json::Null]).as_array(), Some(&items));
    assert_eq!(Json::Array(vec![]).as_array(), Some(&vec![]));
    for doc in [Json::Null, Json::Bool(false), Json::Number("1".to_string()), text("[]"), object(vec![])] {
        assert_eq!(doc.as_array(), None);
    }
}
