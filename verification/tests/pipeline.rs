use semantic::analyze_sentence::{analysis_result, analyze_sentence, build_engine, Analysis};
use semantic::endpoint_client::{RemoteEndpoint, RemoteParameter};
use semantic::models::{ErrorKind, PipelineError};
use semantic::prompts::{PromptManager, PromptVersion, PromptVersions};
use semantic::providers::ModelsConfig;
use semantic::sentence_service::{SentenceAnalyzeService, StatusCode};
use semantic::workflow::config::{StepConfig, WorkflowConfig};
use semantic::workflow::context::WorkflowContext;
use semantic::workflow::engine::EngineAction;
use semantic::workflow::steps::{ModelRole, Step, StepProgress, StepReply, StepRequest};

fn prompts() -> PromptManager {
    let prompt = |name: &str, template: &str| PromptVersions {
        name: name.to_string(),
        versions: vec![PromptVersion { version: "v1".to_string(), template: template.to_string() }],
        default_version: "v1".to_string(),
    };
    PromptManager::new(vec![
        prompt("sentence_to_json", "JSON for: {sentence}"),
        prompt("find_endpoint", "Sentence: {input_sentence}\nActions:\n{actions_list}"),
        prompt("match_fields", "Fields: {input_fields}\nParameters:\n{parameters}"),
    ])
    .unwrap()
}

fn remote_parameter(name: &str, alternatives: Vec<&str>) -> RemoteParameter {
    RemoteParameter {
        name: name.to_string(),
        description: format!("the {}", name),
        required: true,
        alternatives: alternatives.into_iter().map(|a| a.to_string()).collect(),
    }
}

fn catalog() -> Vec<RemoteEndpoint> {
    vec![
        RemoteEndpoint {
            id: "send_email".to_string(),
            text: "send email".to_string(),
            description: "Send an email".to_string(),
            parameters: vec![remote_parameter("to", vec![])],
        },
        RemoteEndpoint {
            id: "schedule_meeting".to_string(),
            text: "schedule meeting".to_string(),
            description: "Schedule a meeting".to_string(),
            parameters: vec![
                remote_parameter("time", vec!["when"]),
                remote_parameter("participants", vec!["attendees", "with"]),
            ],
        },
    ]
}

struct Log {
    requests: Vec<String>,
    runs: Vec<usize>,
    sleeps: Vec<u64>,
}

/// Runs an analysis to its end. `answer` is asked for the reply to each request.
fn run(
    analysis: Analysis,
    answer: &mut dyn FnMut(&StepRequest) -> StepReply,
) -> (Result<WorkflowContext, PipelineError>, Log) {
    let prompts = prompts();
    let Analysis { engine, mut context, mut state, mut action } = analysis;
    let mut log = Log { requests: vec![], runs: vec![], sleeps: vec![] };
    loop {
        match action {
            EngineAction::Run { index } => {
                log.runs.push(index);
                let step = &engine.steps[index].step;
                let mut progress = step.begin(&mut context, &prompts);
                let outcome = loop {
                    match progress {
                        Ok(StepProgress::Done) => break Ok(()),
                        Err(e) => break Err(e),
                        Ok(StepProgress::Need(request)) => {
                            log.requests.push(match &request {
                                StepRequest::CheckService { api_url } => format!("check {}", api_url),
                                StepRequest::FetchEndpoints { api_url, email } => {
                                    format!("fetch {} {}", api_url, email)
                                }
                                StepRequest::LoadModels => "models".to_string(),
                                StepRequest::Generate { prompt, model } => {
                                    format!("{:?}: {}", model, prompt)
                                }
                            });
                            let reply = answer(&request);
                            progress = step.resume(&mut context, reply);
                        }
                    }
                };
                action = engine.step_finished(&mut state, outcome);
            }
            EngineAction::Sleep { delay_ms } => {
                log.sleeps.push(delay_ms);
                action = engine.sleep_finished(&mut state);
            }
            EngineAction::Finished => return (Ok(context), log),
            EngineAction::Aborted(e) => return (Err(e), log),
        }
    }
}

fn outside(request: &StepRequest, fields: &str, phrase: &str, matches: &str) -> StepReply {
    match request {
        StepRequest::CheckService { .. } => StepReply::ServiceChecked(Ok(true)),
        StepRequest::FetchEndpoints { .. } => StepReply::EndpointsFetched(Ok(catalog())),
        StepRequest::LoadModels => StepReply::ModelsLoaded(Ok(ModelsConfig::default())),
        StepRequest::Generate { prompt, model } => match model {
            ModelRole::FindEndpoint => StepReply::Generated(Ok(phrase.to_string())),
            ModelRole::SentenceToJson => {
                if prompt.starts_with("JSON for: ") {
                    StepReply::Generated(Ok(fields.to_string()))
                } else {
                    StepReply::Generated(Ok(matches.to_string()))
                }
            }
        },
    }
}

const SENTENCE: &str = "schedule a meeting tomorrow at 2pm with John";

#[test]
fn a_sentence_is_analysed_from_end_to_end() {
    let analysis =
        analyze_sentence(SENTENCE, Some("http://catalog:50053".to_string()), "user@example.com")
            .unwrap();
    let fields = "Sure!\n{\"endpoints\": [{\"fields\": {\"time\": \"tomorrow at 2pm\", \"with\": \"John\",},},]}";
    let (outcome, log) = run(analysis, &mut |r| outside(r, fields, "The best match:\n\"schedule meeting\"", ""));
    let context = outcome.unwrap();

    assert_eq!(context.matched_endpoint.as_ref().unwrap().id, "schedule_meeting");
    assert_eq!(context.endpoint_id.as_deref(), Some("schedule_meeting"));
    assert_eq!(context.endpoint_description.as_deref(), Some("Schedule a meeting"));
    assert_eq!(context.email.as_deref(), Some("user@example.com"));
    assert!(context.models_config.is_some());
    assert_eq!(context.endpoints_config.as_ref().unwrap().endpoints.len(), 2);
    assert_eq!(context.parameters.len(), 2);
    assert_eq!(context.parameters[0].name, "time");
    assert_eq!(context.parameters[0].semantic_value.as_deref(), Some("\"tomorrow at 2pm\""));
    assert_eq!(context.parameters[1].name, "participants");
    assert_eq!(context.parameters[1].semantic_value.as_deref(), Some("\"John\""));

    assert_eq!(log.runs, vec![0, 1, 2, 3]);
    assert!(log.sleeps.is_empty());
    assert_eq!(
        log.requests,
        vec![
            "check http://catalog:50053".to_string(),
            "fetch http://catalog:50053 user@example.com".to_string(),
            "models".to_string(),
            format!("SentenceToJson: JSON for: {}", SENTENCE),
            format!("FindEndpoint: Sentence: {}\nActions:\n- send email\n- schedule meeting", SENTENCE),
        ]
    );

    let result = analysis_result(context).unwrap();
    assert_eq!(result.endpoint_id, "schedule_meeting");
    assert_eq!(result.endpoint_description, "Schedule a meeting");
    assert_eq!(result.parameters.len(), 2);
    let response = SentenceAnalyzeService::response(&result);
    assert_eq!(response.endpoint_id, "schedule_meeting");
    assert_eq!(
        response.json_output,
        "{\"endpoints\":[{\"fields\":{\"time\":\"tomorrow at 2pm\",\"with\":\"John\"}}]}"
    );
    assert_eq!(response.parameters[1].semantic_value.as_deref(), Some("\"John\""));
}

#[test]
fn the_model_is_asked_once_more_for_what_the_fields_do_not_give() {
    let analysis =
        analyze_sentence(SENTENCE, Some("http://catalog".to_string()), "user@example.com").unwrap();
    let fields = "{\"endpoints\": [{\"fields\": {\"when\": \"2pm\", \"person\": \"John\"}}]}";
    let matches = "{\"participants\": \"John\", \"time\": \"noon\"}";
    let (outcome, log) = run(analysis, &mut |r| outside(r, fields, "schedule meeting", matches));
    let context = outcome.unwrap();
    assert_eq!(context.parameters[0].semantic_value.as_deref(), Some("\"2pm\""));
    assert_eq!(context.parameters[1].semantic_value.as_deref(), Some("John"));
    assert_eq!(log.requests.len(), 6);
    assert_eq!(
        log.requests[5],
        "SentenceToJson: Fields: person: \"John\", when: \"2pm\"\nParameters:\ntime: the time (alternatives: when)\nparticipants: the participants (alternatives: attendees, with)"
    );
}

#[test]
fn a_stage_is_tried_again_after_a_failure() {
    let analysis =
        analyze_sentence(SENTENCE, Some("http://catalog".to_string()), "user@example.com").unwrap();
    let fields = "{\"endpoints\": [{\"fields\": {\"time\": \"2pm\", \"with\": \"John\"}}]}";
    let mut calls = 0;
    let (outcome, log) = run(analysis, &mut |r| match r {
        StepRequest::Generate { model: ModelRole::SentenceToJson, .. } => {
            calls += 1;
            if calls < 3 {
                StepReply::Generated(Ok("I cannot do that".to_string()))
            } else {
                StepReply::Generated(Ok(fields.to_string()))
            }
        }
        other => outside(other, fields, "schedule meeting", ""),
    });
    assert!(outcome.is_ok());
    assert_eq!(log.runs, vec![0, 1, 1, 1, 2, 3]);
    assert_eq!(log.sleeps, vec![1000, 1000]);
}

#[test]
fn a_run_fails_with_the_last_error_of_the_stage_that_fails() {
    let analysis =
        analyze_sentence(SENTENCE, Some("http://catalog".to_string()), "user@example.com").unwrap();
    let fields = "{\"endpoints\": [{\"fields\": {}}]}";
    let mut calls = 0;
    let (outcome, log) = run(analysis, &mut |r| match r {
        StepRequest::Generate { model: ModelRole::FindEndpoint, .. } => {
            calls += 1;
            if calls == 1 {
                StepReply::Generated(Err("connection refused".to_string()))
            } else {
                StepReply::Generated(Ok("book a flight".to_string()))
            }
        }
        other => outside(other, fields, "", ""),
    });
    let error = outcome.unwrap_err();
    assert_eq!(error.kind, ErrorKind::NoMatch);
    assert_eq!(error.message, "No matching endpoint found");
    assert_eq!(log.runs, vec![0, 1, 2, 2]);
    assert_eq!(log.sleeps, vec![500]);

    let service = SentenceAnalyzeService::new(None);
    let status = service.conclude(Err(error)).unwrap_err();
    assert_eq!(status.code, StatusCode::NotFound);
    assert_eq!(
        status.message,
        "No endpoint matching your input was found: No matching endpoint found"
    );
}

#[test]
fn a_catalog_without_endpoints_is_a_failure() {
    let analysis =
        analyze_sentence(SENTENCE, Some("http://catalog".to_string()), "user@example.com").unwrap();
    let (outcome, log) = run(analysis, &mut |r| match r {
        StepRequest::FetchEndpoints { .. } => StepReply::EndpointsFetched(Ok(vec![])),
        other => outside(other, "", "", ""),
    });
    let error = outcome.unwrap_err();
    assert_eq!(error.kind, ErrorKind::Configuration);
    assert_eq!(
        error.message,
        "No endpoint configuration available: the endpoint service holds no endpoints"
    );
    assert_eq!(log.runs, vec![0, 0, 0]);
    assert_eq!(log.sleeps, vec![1000, 1000]);
    assert!(log.requests.iter().all(|r| !r.contains("JSON for")));
}

#[test]
fn a_service_that_is_not_there_is_a_failure() {
    for reply in [Ok(false), Err("bad address".to_string())] {
        let analysis =
            analyze_sentence(SENTENCE, Some("http://catalog".to_string()), "user@example.com")
                .unwrap();
        let (outcome, _) = run(analysis, &mut |r| match r {
            StepRequest::CheckService { .. } => StepReply::ServiceChecked(reply.clone()),
            other => outside(other, "", "", ""),
        });
        let error = outcome.unwrap_err();
        assert_eq!(error.kind, ErrorKind::Configuration);
        assert_eq!(error.message, "Remote endpoint service is unavailable");
    }

    let analysis = analyze_sentence(SENTENCE, None, "user@example.com").unwrap();
    let (outcome, log) = run(analysis, &mut |r| outside(r, "", "", ""));
    let error = outcome.unwrap_err();
    assert_eq!(error.kind, ErrorKind::Configuration);
    assert_eq!(error.message, "No API URL provided");
    assert!(log.requests.is_empty());
}

#[test]
fn a_malformed_identity_is_turned_away_before_any_stage() {
    for email in ["", "user@", "user@domain", "@domain.com", "user name@domain.com"] {
        let error = analyze_sentence(SENTENCE, Some("http://catalog".to_string()), email).unwrap_err();
        assert_eq!(error.kind, ErrorKind::Validation);
    }
    let service = SentenceAnalyzeService::new(Some("http://catalog".to_string()));
    let status = service.analyze_sentence(None, SENTENCE).unwrap_err();
    assert_eq!(status.code, StatusCode::InvalidArgument);
    assert_eq!(
        status.message,
        "Email is required in request metadata. Add 'email' header to your request."
    );
    let status = service.analyze_sentence(Some("user@domain"), SENTENCE).unwrap_err();
    assert_eq!(status.code, StatusCode::InvalidArgument);
    assert_eq!(status.message, "Email validation failed: Invalid email format: user@domain");
    let status = service.analyze_sentence(Some(""), SENTENCE).unwrap_err();
    assert_eq!(status.message, "Email validation failed: Email is required and cannot be empty");

    let analysis = service.analyze_sentence(Some("user@example.com"), SENTENCE).unwrap();
    assert!(matches!(analysis.action, EngineAction::Run { index: 0 }));
    assert_eq!(analysis.context.sentence, SENTENCE);
    assert_eq!(analysis.engine.steps.len(), 4);
}

#[test]
fn a_disabled_stage_of_the_pipeline_is_left_out() {
    let mut config = WorkflowConfig::standard();
    config.steps[0].enabled = false;
    config.steps[3].enabled = false;
    let engine = build_engine(&config, &None, "user@example.com").unwrap();
    let (context, state, action) = engine.execute(SENTENCE.to_string());
    assert!(matches!(action, EngineAction::Run { index: 1 }));
    let analysis = Analysis { engine, context, state, action };
    let fields = "{\"endpoints\": [{\"fields\": {\"time\": \"2pm\"}}]}";
    let (outcome, log) = run(analysis, &mut |r| outside(r, fields, "schedule meeting", ""));
    let error = outcome.unwrap_err();
    assert_eq!(error.kind, ErrorKind::Configuration);
    assert_eq!(error.message, "Endpoints configuration not loaded");
    assert_eq!(log.runs, vec![1, 2, 2]);
    assert!(log.requests.iter().all(|r| r.starts_with("SentenceToJson")));
}

#[test]
fn an_unknown_stage_is_refused() {
    let mut config = WorkflowConfig::standard();
    config.steps.push(StepConfig {
        name: "tea_making".to_string(),
        enabled: true,
        retry: None,
        timeout_secs: None,
    });
    let error = build_engine(&config, &None, "user@example.com").unwrap_err();
    assert_eq!(error.kind, ErrorKind::Configuration);
    assert_eq!(error.message, "Unknown step: tea_making");
    assert!(Step::named("tea_making", &None, "a@b.cd").is_none());
    assert_eq!(Step::named("field_matching", &None, "a@b.cd").unwrap().name(), "field_matching");
    assert_eq!(Step::named("json_generation", &None, "a@b.cd").unwrap().name(), "json_generation");
    assert_eq!(Step::named("endpoint_matching", &None, "").unwrap().name(), "endpoint_matching");
    match Step::named("configuration_loading", &Some("u".to_string()), "a@b.cd").unwrap() {
        Step::ConfigurationLoading(step) => {
            assert_eq!(step.name(), "configuration_loading");
            assert_eq!(step.email, "a@b.cd");
            assert_eq!(step.api_url.as_deref(), Some("u"));
        }
        other => panic!("another stage: {:?}", other),
    }
}

#[test]
fn a_context_that_is_not_complete_gives_no_result() {
    let context = WorkflowContext::new("s".to_string());
    let error = analysis_result(context).unwrap_err();
    assert_eq!(error.message, "JSON output not available");

    let mut context = WorkflowContext::new("s".to_string());
    context.json_output = Some(semantic::json::JsonValue::Null);
    let error = analysis_result(context).unwrap_err();
    assert_eq!(error.message, "Endpoint ID not available");

    let mut context = WorkflowContext::new("s".to_string());
    context.json_output = Some(semantic::json::JsonValue::Null);
    context.endpoint_id = Some("x".to_string());
    let error = analysis_result(context).unwrap_err();
    assert_eq!(error.message, "Endpoint description not available");
}
