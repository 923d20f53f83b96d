use semantic::find_closest_endpoint::{actions_list, find_closest_endpoint};
use semantic::matching::{
    extract_matched_action, find_endpoint_by_substring, find_endpoint_index, is_blank_text,
    normalized_chars, phrase_recognised, tokens_contained,
};
use semantic::models::{ConfigFile, Endpoint, ErrorKind};

fn endpoint(id: &str, text: &str) -> Endpoint {
    Endpoint {
        id: id.to_string(),
        text: text.to_string(),
        description: format!("{} description", id),
        parameters: vec![],
    }
}

fn create_test_config() -> ConfigFile {
    ConfigFile {
        endpoints: vec![Endpoint {
            id: "schedule_meeting".to_string(),
            text: "schedule meeting".to_string(),
            description: "Schedule a meeting".to_string(),
            parameters: vec![],
        }],
    }
}

fn chars(s: &str) -> Vec<char> {
    s.chars().collect()
}

#[test]
fn test_substring_matching() {
    let config = create_test_config();

    let test_cases = vec![
        "**Answer:** schedule meeting",
        "The answer is: schedule meeting",
        "schedule meeting is the best match",
        "We should schedule meeting",
        "'schedule meeting'",
        "schedule  meeting",
    ];

    for case in test_cases {
        let result = find_endpoint_by_substring(&config, case);
        assert!(result.is_ok(), "Failed to match: {}", case);
        let found = result.unwrap();
        assert_eq!(found.text, "schedule meeting");
        assert_eq!(found.id, "schedule_meeting");
    }

    let negative_cases = vec!["something completely different", ""];

    for case in negative_cases {
        let result = find_endpoint_by_substring(&config, case);
        assert!(result.is_err(), "Should not match: {}", case);
    }

    // Both tokens of the phrase stand in this answer.
    let result = find_endpoint_by_substring(&config, "scheduled meetings");
    assert!(result.is_ok(), "Failed to match: {}", "scheduled meetings");
}

#[test]
fn no_match_is_reported_with_the_answer() {
    let config = create_test_config();
    let error = find_endpoint_by_substring(&config, "send email").unwrap_err();
    assert_eq!(error.kind, ErrorKind::NoMatch);
    assert_eq!(error.message, "No endpoint matched the response: 'send email'");
    assert_eq!(error.to_string(), "No endpoint matched the response: 'send email'");
}

#[test]
fn first_endpoint_in_catalog_order_wins() {
    let config = ConfigFile {
        endpoints: vec![
            endpoint("send", "send email"),
            endpoint("first", "schedule meeting"),
            endpoint("second", "meeting"),
            endpoint("third", "schedule"),
        ],
    };
    assert_eq!(find_endpoint_index(&config, "schedule meeting"), Some(1));
    assert_eq!(find_endpoint_index(&config, "a meeting"), Some(2));
    assert_eq!(find_endpoint_index(&config, "schedule it"), Some(3));
    assert_eq!(find_endpoint_index(&config, "nothing"), None);
    assert_eq!(find_endpoint_by_substring(&config, "a meeting").unwrap().id, "second");
}

#[test]
fn matching_ignores_case_and_outer_white_space() {
    let config = ConfigFile { endpoints: vec![endpoint("m", "  Schedule MEETING \n")] };
    assert_eq!(find_endpoint_index(&config, "SCHEDULE meeting"), Some(0));
    assert_eq!(find_endpoint_index(&config, "\t please Schedule Meeting now  "), Some(0));
    assert_eq!(normalized_chars("  Schedule MEETING \n"), chars("schedule meeting"));
    assert_eq!(normalized_chars("ÀB"), chars("àb"));
}

#[test]
fn tokens_may_stand_apart_and_in_any_order() {
    assert!(tokens_contained(&chars("schedule meeting"), &chars("meeting to schedule")));
    assert!(!tokens_contained(&chars("schedule meeting"), &chars("meeting to plan")));
    assert!(tokens_contained(&chars(""), &chars("anything")));
    assert!(tokens_contained(&chars("  \t "), &chars("")));
    assert!(phrase_recognised(&chars("a  b"), &chars("x a  b y")));
    assert!(phrase_recognised(&chars("a  b"), &chars("b a")));
    assert!(!phrase_recognised(&chars("a  b"), &chars("a")));
}

#[test]
fn an_endpoint_without_phrase_matches_every_answer() {
    let config = ConfigFile { endpoints: vec![endpoint("empty", "   "), endpoint("m", "meeting")] };
    assert_eq!(find_endpoint_index(&config, "meeting"), Some(0));
    assert_eq!(find_endpoint_index(&config, ""), Some(0));
}

#[test]
fn the_phrase_is_the_last_line_that_is_not_blank() {
    assert_eq!(extract_matched_action("thinking...\n\nschedule meeting\n  \n").unwrap(), "schedule meeting");
    assert_eq!(extract_matched_action("  \"schedule meeting\"  ").unwrap(), "schedule meeting");
    assert_eq!(extract_matched_action("'schedule meeting'").unwrap(), "schedule meeting");
    assert_eq!(extract_matched_action("\"'a'\"").unwrap(), "a");
    assert_eq!(extract_matched_action("'\"a\"'").unwrap(), "\"a\"");
    assert_eq!(extract_matched_action("first\r\nsecond\r\n").unwrap(), "second");
    assert_eq!(extract_matched_action("\" a \"").unwrap(), " a ");
}

#[test]
fn an_answer_without_phrase_is_an_error() {
    let error = extract_matched_action("").unwrap_err();
    assert_eq!(error.kind, ErrorKind::Generation);
    assert_eq!(error.message, "Empty response");
    let error = extract_matched_action(" \n\t\n").unwrap_err();
    assert_eq!(error.message, "Empty response");
    let error = extract_matched_action("text\n\"\"\n").unwrap_err();
    assert_eq!(error.kind, ErrorKind::Generation);
    assert_eq!(error.message, "Empty extracted response");
    let error = extract_matched_action("'''").unwrap_err();
    assert_eq!(error.message, "Empty extracted response");
}

#[test]
fn blank_texts() {
    assert!(is_blank_text(""));
    assert!(is_blank_text(" \t\r\n\u{a0}\u{3000}"));
    assert!(!is_blank_text(" x "));
}

#[test]
fn the_actions_list_has_one_line_for_each_endpoint() {
    let config = ConfigFile {
        endpoints: vec![endpoint("a", "send email"), endpoint("b", "schedule meeting")],
    };
    assert_eq!(actions_list(&config), "- send email\n- schedule meeting");
    assert_eq!(actions_list(&ConfigFile { endpoints: vec![] }), "");
    assert_eq!(actions_list(&ConfigFile { endpoints: vec![endpoint("a", "x")] }), "- x");
}

#[test]
fn the_answer_is_resolved_to_a_copy_of_the_endpoint() {
    let config = ConfigFile {
        endpoints: vec![endpoint("send", "send email"), endpoint("meet", "schedule meeting")],
    };
    let found = find_closest_endpoint(&config, "Let me think.\n\"Schedule Meeting\"\n").unwrap();
    assert_eq!(found.id, "meet");
    assert_eq!(found.text, "schedule meeting");
    assert_eq!(found.description, "meet description");

    let error = find_closest_endpoint(&config, "book a flight").unwrap_err();
    assert_eq!(error.kind, ErrorKind::NoMatch);
    assert_eq!(error.message, "No matching endpoint found");

    let error = find_closest_endpoint(&config, "  \n ").unwrap_err();
    assert_eq!(error.kind, ErrorKind::Generation);
    assert_eq!(error.message, "Empty response");
}
