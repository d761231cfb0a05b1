use aw_watcher_lastfm::document::{Json, Number};

fn text(s: &str) -> Json {
    Json::Text(s.to_string())
}

fn object(members: Vec<(&str, Json)>) -> Json {
    Json::Object(members.into_iter().map(|(k, v)| (k.to_string(), v)).collect())
}

#[test]
fn get_reads_members_of_objects_only() {
    let doc = object(vec![("a", text("x")), ("b", Json::Null)]);
    assert_eq!(doc.get("a"), Some(&text("x")));
    assert_eq!(doc.get("b"), Some(&Json::Null));
    assert_eq!(doc.get("c"), None);
    assert_eq!(doc.get(""), None);
    assert_eq!(Json::Null.get("a"), None);
    assert_eq!(text("a").get("a"), None);
    assert_eq!(Json::Array(vec![text("a")]).get("a"), None);
    assert_eq!(object(vec![]).get("a"), None);
}

#[test]
fn get_reads_the_first_of_members_with_one_key() {
    let doc = object(vec![("a", text("first")), ("a", text("second"))]);
    assert_eq!(doc.get("a"), Some(&text("first")));
}

#[test]
fn get_tells_keys_apart_by_every_character() {
    let doc = object(vec![("#text", text("x")), ("@attr", text("y")), ("caf\u{e9}", text("z"))]);
    assert_eq!(doc.get("#text"), Some(&text("x")));
    assert_eq!(doc.get("@attr"), Some(&text("y")));
    assert_eq!(doc.get("caf\u{e9}"), Some(&text("z")));
    assert_eq!(doc.get("#Text"), None);
    assert_eq!(doc.get("#text "), None);
    assert_eq!(doc.get("cafe"), None);
}

#[test]
fn at_reads_elements_of_arrays_only() {
    let list = Json::Array(vec![text("a"), text("b")]);
    assert_eq!(list.at(0), Some(&text("a")));
    assert_eq!(list.at(1), Some(&text("b")));
    assert_eq!(list.at(2), None);
    assert_eq!(list.at(usize::MAX), None);
    assert_eq!(Json::Array(vec![]).at(0), None);
    assert_eq!(object(vec![("0", text("a"))]).at(0), None);
    assert_eq!(Json::Null.at(0), None);
}

#[test]
fn values_are_read_by_their_kind() {
    assert_eq!(text("true").as_str(), Some("true"));
    assert_eq!(text("").as_str(), Some(""));
    assert_eq!(Json::Bool(true).as_str(), None);
    assert_eq!(Json::Null.as_str(), None);
    assert_eq!(Json::Number(Number::Unsigned(1)).as_str(), None);
    assert_eq!(Json::Number(Number::Unsigned(10)).as_u64(), Some(10));
    assert_eq!(Json::Number(Number::Unsigned(0)).as_u64(), Some(0));
    assert_eq!(Json::Number(Number::Negative(-1)).as_u64(), None);
    assert_eq!(Json::Number(Number::Real("1.5".to_string())).as_u64(), None);
    assert_eq!(text("10").as_u64(), None);
    assert_eq!(Json::Array(vec![Json::Null]).as_array(), Some(&vec![Json::Null]));
    assert_eq!(object(vec![]).as_array(), None);
}

#[test]
fn nested_text_needs_every_step() {
    let doc = object(vec![
        ("artist", object(vec![("#text", text("Boards of Canada")), ("mbid", text(""))])),
        ("album", object(vec![("mbid", text(""))])),
        ("name", text("Roygbiv")),
        ("date", object(vec![("uts", Json::Number(Number::Unsigned(5)))])),
    ]);
    assert_eq!(doc.nested_str("artist", "#text"), Some("Boards of Canada"));
    assert_eq!(doc.nested_str("album", "#text"), None);
    assert_eq!(doc.nested_str("name", "#text"), None);
    assert_eq!(doc.nested_str("date", "uts"), None);
    assert_eq!(doc.nested_str("missing", "#text"), None);
}
