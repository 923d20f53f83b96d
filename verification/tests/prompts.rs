use semantic::models::ErrorKind;
use semantic::prompts::{PromptManager, PromptVersion, PromptVersions};

fn version(name: &str, template: &str) -> PromptVersion {
    PromptVersion { version: name.to_string(), template: template.to_string() }
}

fn manager() -> PromptManager {
    PromptManager::new(vec![
        PromptVersions {
            name: "find_endpoint".to_string(),
            versions: vec![
                version("v1", "Sentence: {input_sentence}\nActions:\n{actions_list}\nAnswer:"),
                version("v2", "{actions_list} / {input_sentence} / {actions_list}"),
            ],
            default_version: "v1".to_string(),
        },
        PromptVersions {
            name: "sentence_to_json".to_string(),
            versions: vec![version("v1", "Extract fields from: {sentence}")],
            default_version: "v1".to_string(),
        },
        PromptVersions {
            name: "match_fields".to_string(),
            versions: vec![version("v1", "Fields: {input_fields}\nParameters:\n{parameters}")],
            default_version: "v1".to_string(),
        },
        PromptVersions {
            name: "broken".to_string(),
            versions: vec![version("v1", "x")],
            default_version: "v9".to_string(),
        },
    ])
    .unwrap()
}

#[test]
fn test_prompt_versioning() {
    let manager = manager();

    let prompt = manager.get_prompt("find_endpoint", None);
    assert!(prompt.is_some());

    let v1_prompt = manager.get_prompt("find_endpoint", Some("v1"));
    assert!(v1_prompt.is_some());

    let invalid_prompt = manager.get_prompt("find_endpoint", Some("non_existent"));
    assert_eq!(invalid_prompt, manager.get_prompt("find_endpoint", None));

    let versions = manager.list_versions("find_endpoint").unwrap();
    assert!(versions.contains(&"v1".to_string()));
}

#[test]
fn a_version_is_found_by_its_name() {
    let manager = manager();
    assert_eq!(
        manager.get_prompt("find_endpoint", Some("v2")),
        Some("{actions_list} / {input_sentence} / {actions_list}")
    );
    assert_eq!(manager.get_prompt("sentence_to_json", None), Some("Extract fields from: {sentence}"));
    assert_eq!(manager.get_prompt("unknown", None), None);
    assert_eq!(manager.get_prompt("unknown", Some("v1")), None);
    assert_eq!(manager.get_prompt("broken", Some("v1")), Some("x"));
    assert_eq!(manager.get_prompt("broken", None), None);
    assert_eq!(manager.get_prompt("broken", Some("v2")), None);
}

#[test]
fn versions_are_listed_in_order() {
    let manager = manager();
    assert_eq!(
        manager.list_versions("find_endpoint"),
        Some(vec!["v1".to_string(), "v2".to_string()])
    );
    assert_eq!(manager.list_versions("unknown"), None);
    assert_eq!(manager.get_default_version("find_endpoint"), Some("v1".to_string()));
    assert_eq!(manager.get_default_version("broken"), Some("v9".to_string()));
    assert_eq!(manager.get_default_version("unknown"), None);
}

#[test]
fn placeholders_are_filled_in() {
    let manager = manager();
    assert_eq!(
        manager.format_find_endpoint("book it", "- a\n- b", Some("v1")),
        "Sentence: book it\nActions:\n- a\n- b\nAnswer:"
    );
    assert_eq!(manager.format_find_endpoint("s", "L", Some("v2")), "L / s / L");
    assert_eq!(manager.format_find_endpoint("s", "L", Some("v7")), "Sentence: s\nActions:\nL\nAnswer:");
    assert_eq!(
        manager.format_find_endpoint("see {actions_list}", "L", None),
        "Sentence: see L\nActions:\nL\nAnswer:"
    );
    assert_eq!(manager.format_sentence_to_json("hello", None), "Extract fields from: hello");
    assert_eq!(
        manager.format_match_fields("a: 1", "x: the x", Some("v1")),
        "Fields: a: 1\nParameters:\nx: the x"
    );
}

#[test]
fn a_prompt_that_is_not_there_gives_an_empty_text() {
    let manager = PromptManager::new(vec![]).unwrap();
    assert_eq!(manager.format_find_endpoint("s", "L", None), "");
    assert_eq!(manager.format_sentence_to_json("s", Some("v1")), "");
    assert_eq!(manager.format_match_fields("f", "p", None), "");
}

#[test]
fn names_may_not_occur_twice() {
    let twice = PromptManager::new(vec![
        PromptVersions { name: "a".to_string(), versions: vec![], default_version: "v1".to_string() },
        PromptVersions { name: "b".to_string(), versions: vec![], default_version: "v1".to_string() },
        PromptVersions { name: "a".to_string(), versions: vec![], default_version: "v1".to_string() },
    ]);
    assert_eq!(twice.unwrap_err().kind, ErrorKind::Configuration);

    let twice = PromptManager::new(vec![PromptVersions {
        name: "a".to_string(),
        versions: vec![version("v1", "x"), version("v2", "y"), version("v1", "z")],
        default_version: "v1".to_string(),
    }]);
    assert_eq!(twice.unwrap_err().kind, ErrorKind::Configuration);
}
