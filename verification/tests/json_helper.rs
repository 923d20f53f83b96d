use semantic::json::{
    find_json_span, remove_trailing_commas, sanitize_json, strip_trailing_commas, JsonMember,
    JsonValue,
};
use semantic::models::ErrorKind;

fn text(s: &str) -> JsonValue {
    JsonValue::Str(s.to_string())
}

fn number(n: u64) -> JsonValue {
    JsonValue::Number(serde_json::Number::from(n))
}

fn member(key: &str, value: JsonValue) -> JsonMember {
    JsonMember { key: key.to_string(), value }
}

fn chars(s: &str) -> Vec<char> {
    s.chars().collect()
}

#[test]
fn test_remove_trailing_commas() {
    let input = r#"{
            "customer_id": "Josiane",
        }"#;
    let expected = r#"{
            "customer_id": "Josiane"
        }"#;
    assert_eq!(remove_trailing_commas(input), expected);
}

#[test]
fn test_sanitize_json_with_trailing_comma() {
    let input = r#"Some text {
            "customer_id": "Josiane",
        } more text"#;
    let result = sanitize_json(input);
    assert!(result.is_ok());
    let json = result.unwrap();
    assert_eq!(json.get("customer_id"), Some(&text("Josiane")));
}

#[test]
fn test_sanitize_valid_json() {
    let input = r#"Some text before {"key": "value"} some text after"#;
    let result = sanitize_json(input);
    assert!(result.is_ok());
    assert_eq!(result.unwrap().get("key"), Some(&text("value")));
}

#[test]
fn test_sanitize_invalid_input() {
    let input = "No JSON here";
    let result = sanitize_json(input);
    assert!(result.is_err());
}

#[test]
fn test_sanitize_complex_json() {
    let input = r#"Here's the output: {
            "nested": {
                "array": [1, 2, 3],
                "object": {"key": "value"}
            }
        } and some text after"#;
    let result = sanitize_json(input);
    assert!(result.is_ok());
    let json = result.unwrap();
    let array = json.get("nested").unwrap().get("array").unwrap().as_array().unwrap();
    assert_eq!(array[0], number(1));
}

#[test]
fn a_trailing_comma_in_an_object_is_removed() {
    assert_eq!(remove_trailing_commas("{\"a\":1,}"), "{\"a\":1}");
    let json = sanitize_json("{\"a\":1,}").unwrap();
    assert_eq!(json, JsonValue::Object(vec![member("a", number(1))]));
    assert_eq!(json.to_string(), "{\"a\":1}");
}

#[test]
fn nested_trailing_commas_are_removed() {
    let input = "{\"a\": [1, 2, ], \"b\": {\"c\": [ {\"d\": 1, } , ], },\n}";
    let expected = "{\"a\": [1, 2 ], \"b\": {\"c\": [ {\"d\": 1 }  ] }\n}";
    assert_eq!(remove_trailing_commas(input), expected);
    let json = sanitize_json(input).unwrap();
    assert_eq!(json.to_string(), "{\"a\":[1,2],\"b\":{\"c\":[{\"d\":1}]}}");
}

#[test]
fn valid_json_is_left_as_it_is() {
    for input in [
        "{}",
        "{\"a\":1}",
        "{\"a\": [1, 2, 3], \"b\": {\"c\": null}}",
        "[1, 2]",
        "plain text, with commas, and no closers",
    ] {
        assert_eq!(remove_trailing_commas(input), input);
    }
}

#[test]
fn removing_twice_is_removing_once() {
    for input in [
        "{\"a\":1,}",
        "[1,,]",
        "[1, , ,\n]",
        ",,,}",
        "{\"a\": \",}\"}",
        "a,b,]c,}",
        ",",
        "",
    ] {
        let once = remove_trailing_commas(input);
        assert_eq!(remove_trailing_commas(&once), once);
    }
    assert_eq!(remove_trailing_commas("[1,,]"), "[1]");
    assert_eq!(remove_trailing_commas("[1, , ,\n]"), "[1  \n]");
    assert_eq!(remove_trailing_commas(",,,}"), "}");
    assert_eq!(remove_trailing_commas("a,b,]c,}"), "a,b]c}");
    assert_eq!(strip_trailing_commas(&chars(", x ,\u{a0}]")), chars(", x \u{a0}]"));
}

#[test]
fn sanitizing_the_text_of_a_document_gives_the_document() {
    let first = sanitize_json("noise {\"a\": [1, {\"b\": \"c\",},], } noise").unwrap();
    let second = sanitize_json(&first.to_string()).unwrap();
    assert_eq!(first, second);
    assert_eq!(second.to_string(), first.to_string());
}

#[test]
fn the_candidate_runs_from_the_first_brace_to_the_last() {
    assert_eq!(find_json_span(&chars("ab{c}d}e")), Some((2, 7)));
    assert_eq!(find_json_span(&chars("{}")), Some((0, 2)));
    assert_eq!(find_json_span(&chars("}{")), None);
    assert_eq!(find_json_span(&chars("{")), None);
    assert_eq!(find_json_span(&chars("}")), None);
    assert_eq!(find_json_span(&chars("")), None);
    assert_eq!(find_json_span(&chars("é{é}é")), Some((1, 4)));
}

#[test]
fn an_answer_without_json_is_reported_with_the_answer() {
    let error = sanitize_json("No JSON here").unwrap_err();
    assert_eq!(error.kind, ErrorKind::Extraction);
    assert_eq!(error.message, "No JSON structure found in response: No JSON here");
}

#[test]
fn a_candidate_that_is_not_json_is_reported_with_the_candidate() {
    let error = sanitize_json("see {\"a\": } here").unwrap_err();
    assert_eq!(error.kind, ErrorKind::Extraction);
    assert!(error.message.starts_with("Failed to parse JSON: "));
    assert!(error.message.ends_with(". Raw JSON: {\"a\": }"));
    assert!(error.message.len() > "Failed to parse JSON: . Raw JSON: {\"a\": }".len());

    let error = sanitize_json("{\"a\":1} and {\"b\":2}").unwrap_err();
    assert!(error.message.ends_with(". Raw JSON: {\"a\":1} and {\"b\":2}"));
}

#[test]
fn values_are_read_as_the_parser_reads_them() {
    let json = sanitize_json(
        "{\"s\": \"x\", \"n\": 7, \"t\": true, \"z\": null, \"l\": [], \"o\": {}, \"a\": 1}",
    )
    .unwrap();
    assert_eq!(json.get("s"), Some(&text("x")));
    assert_eq!(json.get("n"), Some(&number(7)));
    assert_eq!(json.get("t"), Some(&JsonValue::Bool(true)));
    assert_eq!(json.get("z"), Some(&JsonValue::Null));
    assert_eq!(json.get("l"), Some(&JsonValue::Array(vec![])));
    assert_eq!(json.get("o"), Some(&JsonValue::Object(vec![])));
    assert_eq!(json.get("missing"), None);
    assert_eq!(json.as_object().unwrap().len(), 7);
    assert!(json.as_array().is_none());
    assert!(text("x").get("s").is_none());
    assert!(text("x").as_object().is_none());
}

#[test]
fn values_are_written_as_compact_json() {
    assert_eq!(text("2pm").to_string(), "\"2pm\"");
    assert_eq!(text("a\"b").to_string(), "\"a\\\"b\"");
    assert_eq!(number(12).to_string(), "12");
    assert_eq!(JsonValue::Null.to_string(), "null");
    assert_eq!(JsonValue::Bool(false).to_string(), "false");
    let value = JsonValue::Object(vec![
        member("b", JsonValue::Array(vec![number(1), text("x")])),
        member("a", JsonValue::Null),
    ]);
    assert_eq!(value.to_string(), "{\"a\":null,\"b\":[1,\"x\"]}");
    assert_eq!(
        value.to_string_pretty().unwrap(),
        "{\n  \"a\": null,\n  \"b\": [\n    1,\n    \"x\"\n  ]\n}"
    );
}
