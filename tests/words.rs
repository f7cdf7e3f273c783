use serde_json::Value;
use wordlist::load::{entry_from_value, words_from_values};
use wordlist::{
    get_words, load_words, parse_words, words_json, Field, FormatError, LoadError, WordEntry,
};

fn entry(term: &str, definition: &str) -> WordEntry {
    WordEntry::new(term.to_string(), definition.to_string())
}

#[test]
fn test_word_serialization() {
    let word = entry("test", "测试");

    let json = words_json(&vec![entry("test", "测试")]);
    let decoded = parse_words(&json).unwrap();

    assert_eq!(word.term, decoded[0].term);
    assert_eq!(word.definition, decoded[0].definition);
}

#[test]
fn test_get_words_endpoint() {
    let test_data = vec![entry("hello", "你好")];

    let resp = get_words(&test_data);

    assert_eq!(resp.status, 200);

    let body = parse_words(&resp.body).unwrap();
    assert_eq!(body.len(), 1);
    assert_eq!(body[0].term, "hello");
}

#[test]
fn entry_text_has_term_first() {
    let word = entry("hello", "greeting");
    assert_eq!(word.to_json(), r#"{"term":"hello","definition":"greeting"}"#);
}

#[test]
fn entry_text_escapes_quotes_and_backslashes() {
    let word = entry("say \"hi\"", "a\\b\nc");
    assert_eq!(word.to_json(), r#"{"term":"say \"hi\"","definition":"a\\b\nc"}"#);
}

#[test]
fn round_trip_keeps_awkward_text() {
    let word = entry("tab\tquote\"slash\\", "line\nbreak 你好 \u{1}");
    let decoded = parse_words(&words_json(&vec![entry(&word.term, &word.definition)])).unwrap();
    assert_eq!(decoded.len(), 1);
    assert_eq!(decoded[0].term, word.term);
    assert_eq!(decoded[0].definition, word.definition);
}

#[test]
fn single_entry_file_is_served_verbatim() {
    let text = r#"[{"term":"hello","definition":"greeting"}]"#;
    let words = load_words(Ok(text.to_string())).unwrap();
    let reply = get_words(&words);
    assert_eq!(reply.status, 200);
    assert_eq!(reply.content_type, "application/json");
    assert_eq!(reply.body, text);
}

#[test]
fn entries_keep_file_order() {
    let text = r#"[
        {"term": "a", "definition": "first"},
        {"term": "b", "definition": "second"},
        {"definition": "third", "term": "a"}
    ]"#;
    let words = parse_words(text).unwrap();
    assert_eq!(words.len(), 3);
    assert_eq!((words[0].term.as_str(), words[0].definition.as_str()), ("a", "first"));
    assert_eq!((words[1].term.as_str(), words[1].definition.as_str()), ("b", "second"));
    assert_eq!((words[2].term.as_str(), words[2].definition.as_str()), ("a", "third"));
    assert_eq!(
        get_words(&words).body,
        r#"[{"term":"a","definition":"first"},{"term":"b","definition":"second"},{"term":"a","definition":"third"}]"#
    );
}

#[test]
fn empty_list_is_served_as_empty_array() {
    let words = parse_words("[]").unwrap();
    assert!(words.is_empty());
    let reply = get_words(&words);
    assert_eq!(reply.status, 200);
    assert_eq!(reply.body, "[]");
}

#[test]
fn other_members_are_ignored() {
    let words = parse_words(r#"[{"term":"x","definition":"y","note":[1,2]}]"#).unwrap();
    assert_eq!(words.len(), 1);
    assert_eq!(words[0].term, "x");
    assert_eq!(words[0].definition, "y");
}

#[test]
fn missing_file_is_a_load_error() {
    let r = load_words(Err("No such file or directory (os error 2)".to_string()));
    match r {
        Err(LoadError::ConfigLoad(m)) => assert_eq!(m, "No such file or directory (os error 2)"),
        _ => panic!("expected a load error"),
    }
}

#[test]
fn invalid_json_is_a_format_error() {
    let r = load_words(Ok(r#"[{"term":"hello","#.to_string()));
    assert!(matches!(r, Err(LoadError::DataFormat(FormatError::Syntax(_)))));
}

#[test]
fn missing_definition_is_a_format_error() {
    let r = load_words(Ok(r#"[{"term":"hello"}]"#.to_string()));
    assert!(matches!(
        r,
        Err(LoadError::DataFormat(FormatError::MissingField(0, Field::Definition)))
    ));
}

#[test]
fn missing_term_is_reported_with_its_index() {
    let r = parse_words(r#"[{"term":"a","definition":"b"},{"definition":"c"}]"#);
    assert!(matches!(r, Err(FormatError::MissingField(1, Field::Term))));
}

#[test]
fn non_string_field_is_a_format_error() {
    let r = parse_words(r#"[{"term":"a","definition":7}]"#);
    assert!(matches!(r, Err(FormatError::NotText(0, Field::Definition))));
    let r = parse_words(r#"[{"term":null,"definition":"b"}]"#);
    assert!(matches!(r, Err(FormatError::NotText(0, Field::Term))));
}

#[test]
fn non_object_element_is_a_format_error() {
    let r = parse_words(r#"[{"term":"a","definition":"b"}, "c"]"#);
    assert!(matches!(r, Err(FormatError::NotAnObject(1))));
}

#[test]
fn non_array_document_is_a_format_error() {
    let r = parse_words(r#"{"term":"a","definition":"b"}"#);
    assert!(matches!(r, Err(FormatError::NotAList)));
}

#[test]
fn syntax_error_carries_the_parser_message() {
    match parse_words("nope") {
        Err(FormatError::Syntax(m)) => assert!(!m.is_empty()),
        _ => panic!("expected a syntax error"),
    }
}

fn object(members: Vec<(&str, Value)>) -> Value {
    let mut m = serde_json::Map::new();
    for (k, v) in members {
        m.insert(k.to_string(), v);
    }
    Value::Object(m)
}

fn text(s: &str) -> Value {
    Value::String(s.to_string())
}

#[test]
fn first_fault_wins() {
    let items = vec![
        object(vec![("term", text("a")), ("definition", text("b"))]),
        object(vec![("term", Value::Bool(true))]),
        Value::Null,
    ];
    assert!(matches!(words_from_values(&items), Err(FormatError::NotText(1, Field::Term))));
}

#[test]
fn values_give_records_in_order() {
    let items = vec![
        object(vec![("term", text("one")), ("definition", text("1"))]),
        object(vec![("definition", text("2")), ("term", text("two"))]),
    ];
    let words = words_from_values(&items).unwrap();
    assert_eq!(words.len(), 2);
    assert_eq!(words[0].term, "one");
    assert_eq!(words[0].definition, "1");
    assert_eq!(words[1].term, "two");
    assert_eq!(words[1].definition, "2");
}

#[test]
fn entry_from_non_object_is_reported_at_its_index() {
    assert!(matches!(entry_from_value(4, &text("x")), Err(FormatError::NotAnObject(4))));
    let e = entry_from_value(2, &object(vec![("term", text("t")), ("definition", text("d"))]));
    let e = e.unwrap();
    assert_eq!((e.term.as_str(), e.definition.as_str()), ("t", "d"));
}
