use jgetset::failure::Failure;
use jgetset::store::{load_json_object, object_from_root, save_json_object, text_or_failure};
use serde_json::{Number, Value};

type Object = serde_json::Map<String, Value>;

fn invalid(path: &str) -> Failure<String> {
    Failure::InvalidJson { path: path.to_string() }
}

fn not_an_object(path: &str) -> Failure<String> {
    Failure::NotAnObject { path: path.to_string() }
}

fn parse_error() -> serde_json::Error {
    serde_json::from_str::<Value>("{").unwrap_err()
}

#[test]
fn missing_file_loads_as_empty_object() {
    let object = load_json_object("absent.json", None).unwrap();
    assert!(object.is_empty());
}

#[test]
fn empty_object_loads_without_entries() {
    let object = load_json_object("data.json", Some("{}")).unwrap();
    assert_eq!(object.len(), 0);
}

#[test]
fn object_loads_with_its_entries() {
    let text = r#"{"name": "Alice", "age": 30, "tags": ["a", "b"], "nested": {"x": null}}"#;
    let object = load_json_object("data.json", Some(text)).unwrap();
    assert_eq!(object.len(), 4);
    assert_eq!(object.get("name"), Some(&Value::String("Alice".to_string())));
    assert_eq!(object.get("age"), Some(&Value::Number(Number::from(30))));
    assert_eq!(
        object.get("tags"),
        Some(&Value::Array(vec![Value::String("a".to_string()), Value::String("b".to_string())]))
    );
    let mut nested = Object::new();
    nested.insert("x".to_string(), Value::Null);
    assert_eq!(object.get("nested"), Some(&Value::Object(nested)));
}

#[test]
fn whitespace_around_the_object_is_accepted() {
    let object = load_json_object("data.json", Some(" \n\t{ \"a\" : true }\n")).unwrap();
    assert_eq!(object.get("a"), Some(&Value::Bool(true)));
}

#[test]
fn later_entry_of_a_repeated_key_stays() {
    let object = load_json_object("data.json", Some(r#"{"a": 1, "a": 2}"#)).unwrap();
    assert_eq!(object.len(), 1);
    assert_eq!(object.get("a"), Some(&Value::Number(Number::from(2))));
}

#[test]
fn array_root_is_rejected() {
    assert_eq!(load_json_object("data.json", Some("[1,2,3]")), Err(not_an_object("data.json")));
}

#[test]
fn scalar_roots_are_rejected() {
    for text in ["null", "true", "false", "42", "-1.5", "\"text\"", "[]", "[{}]"] {
        assert_eq!(load_json_object("data.json", Some(text)), Err(not_an_object("data.json")));
    }
}

#[test]
fn text_that_is_not_json_is_rejected() {
    for text in ["not json", "{", "}", "{\"a\": }", "{\"a\": 1,}", "{'a': 1}", "{a: 1}", "{} {}", "{}x"] {
        assert_eq!(load_json_object("data.json", Some(text)), Err(invalid("data.json")));
    }
}

#[test]
fn file_without_text_is_rejected() {
    assert_eq!(load_json_object("empty.json", Some("")), Err(invalid("empty.json")));
    assert_eq!(load_json_object("blank.json", Some("  \n")), Err(invalid("blank.json")));
}

#[test]
fn failure_to_load_names_the_file() {
    let failure = load_json_object("some dir/data.json", Some("[1,2,3]")).unwrap_err();
    assert_eq!(
        failure.message(),
        "File does not contain a JSON object (dictionary): some dir/data.json"
    );
    let failure = load_json_object("some dir/data.json", Some("oops")).unwrap_err();
    assert_eq!(failure.message(), "File contains invalid JSON: some dir/data.json");
}

#[test]
fn object_root_is_handed_out() {
    let mut entries = Object::new();
    entries.insert("k".to_string(), Value::Bool(false));
    let object = object_from_root("data.json", Ok(Value::Object(entries.clone()))).unwrap();
    assert_eq!(object, entries);
}

#[test]
fn other_roots_fail_as_wrong_root() {
    let roots = vec![
        Value::Null,
        Value::Bool(true),
        Value::Number(Number::from(7)),
        Value::String("{}".to_string()),
        Value::Array(vec![Value::Object(Object::new())]),
    ];
    for root in roots {
        assert_eq!(object_from_root("data.json", Ok(root)), Err(not_an_object("data.json")));
    }
}

#[test]
fn parser_error_fails_as_invalid_json() {
    assert_eq!(object_from_root("data.json", Err(parse_error())), Err(invalid("data.json")));
}

#[test]
fn serializer_text_is_passed_on() {
    assert_eq!(text_or_failure(Ok("{}".to_string())), Ok("{}".to_string()));
    assert_eq!(text_or_failure(Ok(String::new())), Ok(String::new()));
}

#[test]
fn serializer_error_fails_as_serialization() {
    assert_eq!(text_or_failure(Err(parse_error())), Err(Failure::Serialize));
}

#[test]
fn empty_object_is_saved_as_braces() {
    assert_eq!(save_json_object(&Object::new()), Ok("{}".to_string()));
}

#[test]
fn object_is_saved_indented_by_two_spaces() {
    let mut object = Object::new();
    object.insert("name".to_string(), Value::String("Alice".to_string()));
    assert_eq!(save_json_object(&object), Ok("{\n  \"name\": \"Alice\"\n}".to_string()));
}

#[test]
fn entries_are_saved_in_order_of_key() {
    let mut object = Object::new();
    object.insert("b".to_string(), Value::Number(Number::from(2)));
    object.insert("c".to_string(), Value::Null);
    object.insert("a".to_string(), Value::Bool(true));
    assert_eq!(
        save_json_object(&object),
        Ok("{\n  \"a\": true,\n  \"b\": 2,\n  \"c\": null\n}".to_string())
    );
}

#[test]
fn nested_documents_are_saved_indented_by_depth() {
    let mut inner = Object::new();
    inner.insert("x".to_string(), Value::Array(vec![]));
    let mut object = Object::new();
    object.insert(
        "list".to_string(),
        Value::Array(vec![Value::Number(Number::from(1)), Value::Object(inner)]),
    );
    object.insert("none".to_string(), Value::Object(Object::new()));
    let expected = "{\n  \"list\": [\n    1,\n    {\n      \"x\": []\n    }\n  ],\n  \"none\": {}\n}";
    assert_eq!(save_json_object(&object), Ok(expected.to_string()));
}

#[test]
fn saved_text_loads_as_the_same_object() {
    let text = r#"{"z": [1, {"y": "v"}], "a": {"b": {"c": null}}, "s": "q\"uote\n"}"#;
    let object = load_json_object("data.json", Some(text)).unwrap();
    let saved = save_json_object(&object).unwrap();
    assert_eq!(load_json_object("data.json", Some(&saved)).unwrap(), object);
}
