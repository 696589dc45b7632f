use httpse_client::corpus::{
    check_corpus, check_entry, get_member, has_pair_list, has_pattern_list, has_text,
    has_text_list, lacks,
};
use httpse_client::json::Json;

fn text(s: &str) -> Json {
    Json::Text(s.to_string())
}

fn object(members: Vec<(&str, Json)>) -> Json {
    Json::Object(members.into_iter().map(|(k, v)| (k.to_string(), v)).collect())
}

fn rule(from: &str, to: &str) -> Json {
    object(vec![("from", text(from)), ("to", text(to))])
}

fn entry() -> Vec<(&'static str, Json)> {
    vec![
        ("name", text("01.org")),
        ("rule", Json::List(vec![rule("^http:", "https:")])),
        ("target", Json::List(vec![text("01.org"), text("www.01.org")])),
    ]
}

#[test]
fn member_lookup() {
    let value = object(vec![("a", Json::Null), ("b", Json::Bool(true)), ("a", text("later"))]);
    assert_eq!(get_member(&value, "a"), Some(&Json::Null));
    assert_eq!(get_member(&value, "b"), Some(&Json::Bool(true)));
    assert_eq!(get_member(&value, "c"), None);
    assert_eq!(get_member(&value, ""), None);
    assert_eq!(get_member(&Json::List(vec![]), "a"), None);
    assert_eq!(get_member(&text("a"), "a"), None);
    assert!(lacks(&value, "c"));
    assert!(!lacks(&value, "b"));
}

#[test]
fn member_kinds() {
    let value = object(vec![
        ("name", text("n")),
        ("count", Json::Number("3".to_string())),
        ("list", Json::List(vec![text("a"), text("b")])),
        ("mixed", Json::List(vec![text("a"), Json::Null])),
        ("none", Json::List(vec![])),
        ("pairs", Json::List(vec![rule("a", "b"), rule("c", "d")])),
        ("halves", Json::List(vec![rule("a", "b"), object(vec![("from", text("c"))])])),
    ]);
    assert!(has_text(&value, "name"));
    assert!(!has_text(&value, "count"));
    assert!(!has_text(&value, "list"));
    assert!(!has_text(&value, "absent"));
    assert!(has_text_list(&value, "list"));
    assert!(has_text_list(&value, "none"));
    assert!(!has_text_list(&value, "mixed"));
    assert!(!has_text_list(&value, "name"));
    assert!(!has_text_list(&value, "absent"));
    assert!(has_pair_list(&value, "pairs", "from", "to"));
    assert!(has_pair_list(&value, "none", "from", "to"));
    assert!(!has_pair_list(&value, "pairs", "host", "name"));
    assert!(!has_pair_list(&value, "halves", "from", "to"));
    assert!(!has_pair_list(&value, "list", "from", "to"));
    assert!(!has_pair_list(&value, "absent", "from", "to"));
}

#[test]
fn entry_shape() {
    assert!(check_entry(&object(entry())));
    for missing in 0..3 {
        let mut members = entry();
        members.remove(missing);
        assert!(!check_entry(&object(members)));
    }
    let mut members = entry();
    members.push(("exclusion", Json::List(vec![text("^http://01\\.org/x")])));
    members.push(("securecookie", Json::List(vec![object(vec![("host", text(".+")), ("name", text(".+"))])])));
    members.push(("platform", text("mixedcontent")));
    members.push(("default_off", text("broken")));
    members.push(("other", Json::Null));
    assert!(check_entry(&object(members)));
    for (key, value) in [
        ("exclusion", text("x")),
        ("exclusion", Json::List(vec![text("")])),
        ("exclusion", Json::List(vec![text("/a/"), text("")])),
        ("securecookie", Json::List(vec![text("x")])),
        ("platform", Json::Null),
        ("default_off", Json::Bool(true)),
    ] {
        let mut members = entry();
        members.push((key, value));
        assert!(!check_entry(&object(members)));
    }
    assert!(!check_entry(&Json::Null));
    assert!(!check_entry(&Json::List(vec![])));
}

#[test]
fn corpus_shape() {
    assert!(check_corpus(&Json::List(vec![])));
    assert!(check_corpus(&Json::List(vec![object(entry()), object(entry())])));
    assert!(!check_corpus(&Json::List(vec![object(entry()), Json::Null])));
    assert!(!check_corpus(&Json::List(vec![object(vec![]), object(entry())])));
    assert!(!check_corpus(&object(entry())));
    assert!(!check_corpus(&Json::Null));
}

#[test]
fn pattern_lists() {
    let value = object(vec![
        ("full", Json::List(vec![text("a"), text("b")])),
        ("none", Json::List(vec![])),
        ("hollow", Json::List(vec![text("a"), text("")])),
        ("mixed", Json::List(vec![text("a"), Json::Null])),
        ("name", text("n")),
    ]);
    assert!(has_pattern_list(&value, "full"));
    assert!(has_pattern_list(&value, "none"));
    assert!(!has_pattern_list(&value, "hollow"));
    assert!(has_text_list(&value, "hollow"));
    assert!(!has_pattern_list(&value, "mixed"));
    assert!(!has_pattern_list(&value, "name"));
    assert!(!has_pattern_list(&value, "absent"));
}
