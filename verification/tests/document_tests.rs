use cloud_collector::document::{copy_documents, str_eq, Document, Field};
use cloud_collector::parallel::{apply_detail_results, extract_array, extract_string};

fn obj(fields: Vec<(&str, Document)>) -> Document {
    Document::Object(
        fields
            .into_iter()
            .map(|(n, v)| Field { name: n.to_string(), value: v })
            .collect(),
    )
}

fn text(s: &str) -> Document {
    Document::Text(s.to_string())
}

#[test]
fn test_str_eq() {
    assert!(str_eq("abc", "abc"));
    assert!(!str_eq("abc", "abd"));
    assert!(!str_eq("abc", "ab"));
    assert!(str_eq("", ""));
    assert!(str_eq("naïve", "naïve"));
}

#[test]
fn test_get_returns_last_entry() {
    let d = obj(vec![("a", text("one")), ("b", text("two")), ("a", text("three"))]);
    assert_eq!(d.get("a"), Some(&text("three")));
    assert_eq!(d.get("b"), Some(&text("two")));
    assert_eq!(d.get("c"), None);
    assert_eq!(text("x").get("a"), None);
}

#[test]
fn test_deep_copy_equals_original() {
    let d = obj(vec![
        ("arr", Document::Array(vec![Document::Int(1), Document::Null])),
        ("obj", obj(vec![("inner", Document::Bool(true))])),
    ]);
    assert_eq!(d.deep_copy(), d);
}

#[test]
fn test_insert_field_sets_and_overrides() {
    let d = obj(vec![("a", text("one"))]);
    let d = d.insert_field("b".to_string(), text("two"));
    assert_eq!(d.get("b"), Some(&text("two")));
    let d = d.insert_field("a".to_string(), text("new"));
    assert_eq!(d.get("a"), Some(&text("new")));
    // a non-object passes through untouched
    let n = Document::Int(7).insert_field("a".to_string(), text("x"));
    assert_eq!(n, Document::Int(7));
}

#[test]
fn test_singleton_object() {
    let d = Document::singleton_object("k".to_string(), Document::Int(3));
    assert_eq!(d.get("k"), Some(&Document::Int(3)));
    assert_eq!(d.get("other"), None);
}

#[test]
fn test_extract_array() {
    let d = obj(vec![("items", Document::Array(vec![text("x"), text("y")]))]);
    let arr = extract_array(&d, "items").unwrap();
    assert_eq!(arr, vec![text("x"), text("y")]);
    assert_eq!(extract_array(&d, "missing"), None);
    let not_array = obj(vec![("items", text("nope"))]);
    assert_eq!(extract_array(&not_array, "items"), None);
}

#[test]
fn test_extract_string() {
    let d = obj(vec![("id", text("abc")), ("n", Document::Int(1))]);
    assert_eq!(extract_string(&d, "id"), Some("abc".to_string()));
    assert_eq!(extract_string(&d, "n"), None);
    assert_eq!(extract_string(&d, "missing"), None);
}

#[test]
fn test_as_text_array() {
    let d = Document::Array(vec![text("a"), text("b")]);
    assert_eq!(d.as_text_array(), Some(vec!["a".to_string(), "b".to_string()]));
    let mixed = Document::Array(vec![text("a"), Document::Int(1)]);
    assert_eq!(mixed.as_text_array(), None);
    assert_eq!(text("a").as_text_array(), None);
}

#[test]
fn test_copy_documents() {
    let v = vec![text("a"), Document::Int(2)];
    assert_eq!(copy_documents(&v), v);
}

#[test]
fn test_apply_detail_results_merges_successes_only() {
    let base = obj(vec![("id", text("a"))]);
    let results = vec![
        ("ok".to_string(), Some(text("value"))),
        ("failed".to_string(), None),
    ];
    let merged = apply_detail_results(base, &results);
    assert_eq!(merged.get("id"), Some(&text("a")));
    assert_eq!(merged.get("ok"), Some(&text("value")));
    assert_eq!(merged.get("failed"), None);
}

#[test]
fn test_apply_detail_results_non_object_unchanged() {
    let results = vec![("f".to_string(), Some(text("v")))];
    assert_eq!(apply_detail_results(Document::Null, &results), Document::Null);
}
