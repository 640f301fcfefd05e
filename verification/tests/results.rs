use github_stats::decode::lookup_array;
use github_stats::decode::lookup_text;
use github_stats::decode::lookup_u64;
use github_stats::decode::require;
use github_stats::decode::Field;
use github_stats::ErrorKind;
use github_stats::SearchError;
use github_stats::SearchResults;
use serde_json::Value;

fn parsed(text: &str) -> Value {
    serde_json::from_str(text).unwrap()
}

#[test]
fn response_with_two_items_decodes() {
    let body = r#"{"total_count": 42, "items": [{"id":1},{"id":2}]}"#;
    let results = SearchResults::from_json(body).unwrap();
    assert_eq!(results.total_count(), 42);
    assert_eq!(results.items().len(), 2);
    assert_eq!(results.items()[0], parsed(r#"{"id":1}"#));
    assert_eq!(results.items()[1], parsed(r#"{"id":2}"#));
}

#[test]
fn body_that_is_not_json_is_a_decode_error() {
    let error = SearchResults::from_json("<html>rate limited</html>").unwrap_err();
    assert_eq!(error.kind(), ErrorKind::Decode);
    assert_eq!(error.message(), "expected value at line 1 column 1");
    let expected = serde_json::from_str::<Value>("<html>rate limited</html>").unwrap_err();
    assert_eq!(error.to_string(), expected.to_string());
}

#[test]
fn truncated_body_is_a_decode_error() {
    let error = SearchResults::from_json(r#"{"total_count": 42, "items": ["#).unwrap_err();
    assert_eq!(error.kind(), ErrorKind::Decode);
    assert_eq!(error.message(), "EOF while parsing a list at line 1 column 30");
    let error = SearchResults::from_json("").unwrap_err();
    assert_eq!(error.kind(), ErrorKind::Decode);
    assert_eq!(error.message(), "EOF while parsing a value at line 1 column 0");
}

#[test]
fn text_after_the_document_is_a_decode_error() {
    let error = SearchResults::from_json(r#"{"total_count": 1, "items": []} x"#).unwrap_err();
    assert_eq!(error.kind(), ErrorKind::Decode);
    assert_eq!(error.message(), "trailing characters at line 1 column 33");
}

#[test]
fn other_members_are_passed_over() {
    let body = r#"{"incomplete_results": false, "items": [], "total_count": 0, "extra": {"a": [1]}}"#;
    let results = SearchResults::from_json(body).unwrap();
    assert_eq!(results.total_count(), 0);
    assert!(results.items().is_empty());
}

#[test]
fn items_are_kept_as_they_are_and_in_order() {
    let body = r#"{"total_count": 18446744073709551615, "items": [1, "two", null, [3], {"four": 4.5}]}"#;
    let results = SearchResults::from_json(body).unwrap();
    assert_eq!(results.total_count(), u64::MAX);
    let expected = vec![
        parsed("1"),
        parsed("\"two\""),
        Value::Null,
        parsed("[3]"),
        parsed(r#"{"four": 4.5}"#),
    ];
    assert_eq!(results.items(), &expected);
}

#[test]
fn missing_total_count_is_a_decode_error() {
    let error = SearchResults::from_json(r#"{"items": []}"#).unwrap_err();
    assert_eq!(error.kind(), ErrorKind::Decode);
    assert_eq!(error.message(), "missing field `total_count`");
}

#[test]
fn missing_items_is_a_decode_error() {
    let error = SearchResults::from_json(r#"{"total_count": 3}"#).unwrap_err();
    assert_eq!(error.kind(), ErrorKind::Decode);
    assert_eq!(error.message(), "missing field `items`");
}

#[test]
fn total_count_of_another_type_is_a_decode_error() {
    let bodies = vec![
        r#"{"total_count": "42", "items": []}"#,
        r#"{"total_count": -1, "items": []}"#,
        r#"{"total_count": 4.5, "items": []}"#,
        r#"{"total_count": null, "items": []}"#,
    ];
    for body in bodies {
        let error = SearchResults::from_json(body).unwrap_err();
        assert_eq!(error.kind(), ErrorKind::Decode);
        assert_eq!(error.message(), "invalid type for field `total_count`, expected an unsigned integer");
    }
}

#[test]
fn items_of_another_type_is_a_decode_error() {
    let error = SearchResults::from_json(r#"{"total_count": 1, "items": {"id": 1}}"#).unwrap_err();
    assert_eq!(error.kind(), ErrorKind::Decode);
    assert_eq!(error.message(), "invalid type for field `items`, expected an array");
}

#[test]
fn total_count_is_asked_for_first() {
    let error = SearchResults::from_json(r#"{"total_count": "x", "items": 5}"#).unwrap_err();
    assert_eq!(error.message(), "invalid type for field `total_count`, expected an unsigned integer");
    let error = SearchResults::from_json("{}").unwrap_err();
    assert_eq!(error.message(), "missing field `total_count`");
}

#[test]
fn platform_error_payload_is_a_decode_error() {
    let body = r#"{"message": "API rate limit exceeded", "documentation_url": "https://docs.github.com"}"#;
    let error = SearchResults::from_json(body).unwrap_err();
    assert_eq!(error.kind(), ErrorKind::Decode);
    assert_eq!(error.message(), "missing field `total_count`");
}

#[test]
fn document_that_is_no_object_is_a_decode_error() {
    for body in vec!["[42, []]", "42", "\"total_count\"", "null", "true"] {
        let error = SearchResults::from_json(body).unwrap_err();
        assert_eq!(error.kind(), ErrorKind::Decode);
        assert_eq!(error.message(), "missing field `total_count`");
    }
}

#[test]
fn from_value_decodes_a_parsed_document() {
    let doc = parsed(r#"{"total_count": 7, "items": [{"id": 9}]}"#);
    let results = SearchResults::from_value(&doc).unwrap();
    assert_eq!(results.total_count(), 7);
    assert_eq!(results.items(), &vec![parsed(r#"{"id": 9}"#)]);
    let error = SearchResults::from_value(&parsed("[]")).unwrap_err();
    assert_eq!(error.kind(), ErrorKind::Decode);
}

#[test]
fn assemble_takes_found_members() {
    let items = vec![parsed("1"), parsed("2"), parsed("3")];
    let results = SearchResults::assemble(Field::Found(5), Field::Found(items.clone())).unwrap();
    assert_eq!(results.total_count(), 5);
    assert_eq!(results.items(), &items);
}

#[test]
fn assemble_reports_the_first_member_that_failed() {
    let error = SearchResults::assemble(Field::Missing, Field::Mismatched).unwrap_err();
    assert_eq!(error.kind(), ErrorKind::Decode);
    assert_eq!(error.message(), "missing field `total_count`");
    let error = SearchResults::assemble(Field::Mismatched, Field::Missing).unwrap_err();
    assert_eq!(error.message(), "invalid type for field `total_count`, expected an unsigned integer");
    let error = SearchResults::assemble(Field::Found(1), Field::Missing).unwrap_err();
    assert_eq!(error.message(), "missing field `items`");
    let error = SearchResults::assemble(Field::Found(1), Field::Mismatched).unwrap_err();
    assert_eq!(error.message(), "invalid type for field `items`, expected an array");
}

#[test]
fn lookup_u64_reads_a_member() {
    let doc = parsed(r#"{"a": 5, "b": "5", "c": -5, "d": 0}"#);
    assert!(matches!(lookup_u64(&doc, "a"), Field::Found(5)));
    assert!(matches!(lookup_u64(&doc, "d"), Field::Found(0)));
    assert!(matches!(lookup_u64(&doc, "b"), Field::Mismatched));
    assert!(matches!(lookup_u64(&doc, "c"), Field::Mismatched));
    assert!(matches!(lookup_u64(&doc, "e"), Field::Missing));
    assert!(matches!(lookup_u64(&parsed("5"), "a"), Field::Missing));
}

#[test]
fn lookup_text_reads_a_member() {
    let doc = parsed(r#"{"a": "text", "b": 5, "c": ""}"#);
    match lookup_text(&doc, "a") {
        Field::Found(text) => assert_eq!(text, "text"),
        other => panic!("unexpected {:?}", other),
    }
    match lookup_text(&doc, "c") {
        Field::Found(text) => assert_eq!(text, ""),
        other => panic!("unexpected {:?}", other),
    }
    assert!(matches!(lookup_text(&doc, "b"), Field::Mismatched));
    assert!(matches!(lookup_text(&doc, "A"), Field::Missing));
}

#[test]
fn lookup_array_reads_a_member() {
    let doc = parsed(r#"{"a": [1, [2]], "b": {"0": 1}, "c": []}"#);
    match lookup_array(&doc, "a") {
        Field::Found(elements) => assert_eq!(elements, vec![parsed("1"), parsed("[2]")]),
        other => panic!("unexpected {:?}", other),
    }
    match lookup_array(&doc, "c") {
        Field::Found(elements) => assert!(elements.is_empty()),
        other => panic!("unexpected {:?}", other),
    }
    assert!(matches!(lookup_array(&doc, "b"), Field::Mismatched));
    assert!(matches!(lookup_array(&doc, "d"), Field::Missing));
}

#[test]
fn lookup_takes_the_last_of_repeated_members() {
    let doc = parsed(r#"{"a": 1, "a": 2}"#);
    assert!(matches!(lookup_u64(&doc, "a"), Field::Found(2)));
}

#[test]
fn require_passes_a_found_value_on() {
    assert_eq!(require(Field::Found(3u64), "id", "an unsigned integer").unwrap(), 3);
    let error = require(Field::<u64>::Missing, "id", "an unsigned integer").unwrap_err();
    assert_eq!(error.kind(), ErrorKind::Decode);
    assert_eq!(error.message(), "missing field `id`");
    let error = require(Field::<String>::Mismatched, "login", "a string").unwrap_err();
    assert_eq!(error.kind(), ErrorKind::Decode);
    assert_eq!(error.message(), "invalid type for field `login`, expected a string");
}

#[test]
fn errors_carry_their_kind_and_message() {
    let error = SearchError::transport(String::from("connection refused"));
    assert_eq!(error.kind(), ErrorKind::Transport);
    assert_eq!(error.message(), "connection refused");
    assert_eq!(error.to_string(), "connection refused");
    let error = SearchError::decode(String::from("expected value"));
    assert_eq!(error.kind(), ErrorKind::Decode);
    assert_eq!(error.message(), "expected value");
    assert_eq!(error.to_string(), "expected value");
    assert_ne!(ErrorKind::Transport, ErrorKind::Decode);
}
