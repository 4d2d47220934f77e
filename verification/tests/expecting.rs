use serde_untagged::expecting::Expecting;

#[test]
fn no_phrase_is_unspecified() {
    let message = Expecting::new();
    assert_eq!(message.flush(), "unspecified");
}

#[test]
fn one_phrase_keeps_its_article() {
    let mut message = Expecting::new();
    message.push("an", "array");
    assert_eq!(message.flush(), "an array");
}

#[test]
fn one_phrase_without_article() {
    let mut message = Expecting::new();
    message.push("", "null");
    assert_eq!(message.flush(), "null");
}

#[test]
fn two_phrases_are_joined_by_or() {
    let mut message = Expecting::new();
    message.push("a", "boolean");
    message.push("an", "array");
    assert_eq!(message.flush(), "a boolean or array");
}

#[test]
fn three_phrases_list_with_commas() {
    let mut message = Expecting::new();
    message.push("a", "boolean");
    message.push("an", "integer");
    message.push("an", "array");
    assert_eq!(message.flush(), "a boolean, integer or array");
}

#[test]
fn five_phrases_list_with_commas() {
    let mut message = Expecting::new();
    message.push("a", "boolean");
    message.push("an", "integer");
    message.push("a", "string");
    message.push("", "null");
    message.push("a", "map");
    assert_eq!(message.flush(), "a boolean, integer, string, null or map");
}
