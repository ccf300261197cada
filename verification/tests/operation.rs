use jgetset::operation::{parse_operation, Operation};

fn lookup(key: &str) -> Operation<String> {
    Operation::Lookup { key: key.to_string() }
}

fn assign(key: &str, value: &str) -> Operation<String> {
    Operation::Assign { key: key.to_string(), value: value.to_string() }
}

#[test]
fn text_without_equals_is_a_lookup() {
    assert_eq!(parse_operation("name"), lookup("name"));
}

#[test]
fn text_with_equals_is_an_assignment() {
    assert_eq!(parse_operation("name=Alice"), assign("name", "Alice"));
}

#[test]
fn first_equals_separates_key_and_value() {
    assert_eq!(parse_operation("a=b=c"), assign("a", "b=c"));
    assert_eq!(parse_operation("a==b"), assign("a", "=b"));
    assert_eq!(parse_operation("url=http://host/?q=1&r=2"), assign("url", "http://host/?q=1&r=2"));
}

#[test]
fn empty_text_is_a_lookup_of_the_empty_key() {
    assert_eq!(parse_operation(""), lookup(""));
}

#[test]
fn leading_equals_gives_the_empty_key() {
    assert_eq!(parse_operation("=value"), assign("", "value"));
    assert_eq!(parse_operation("="), assign("", ""));
}

#[test]
fn trailing_equals_gives_the_empty_value() {
    assert_eq!(parse_operation("key="), assign("key", ""));
}

#[test]
fn spaces_belong_to_key_and_value() {
    assert_eq!(parse_operation(" key = value "), assign(" key ", " value "));
    assert_eq!(parse_operation("two words"), lookup("two words"));
}

#[test]
fn characters_of_several_bytes_are_split_whole() {
    assert_eq!(parse_operation("ключ=значение"), assign("ключ", "значение"));
    assert_eq!(parse_operation("日本=語=🙂"), assign("日本", "語=🙂"));
    assert_eq!(parse_operation("naïve"), lookup("naïve"));
    assert_eq!(parse_operation("é="), assign("é", ""));
    assert_eq!(parse_operation("=é"), assign("", "é"));
}

#[test]
fn look_alikes_of_equals_do_not_separate() {
    // U+FF1D FULLWIDTH EQUALS SIGN and U+2260 NOT EQUAL TO are no `=`.
    assert_eq!(parse_operation("a＝b"), lookup("a＝b"));
    assert_eq!(parse_operation("a≠b"), lookup("a≠b"));
}

#[test]
fn key_and_value_rejoin_to_the_text() {
    for text in ["a=b", "=", "k=v=w", "x=", "=y", "long key=long value"] {
        match parse_operation(text) {
            Operation::Assign { key, value } => {
                assert!(!key.contains('='));
                assert_eq!(format!("{}={}", key, value), text);
            }
            Operation::Lookup { .. } => panic!("{} holds a `=`", text),
        }
    }
}
