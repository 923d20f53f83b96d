use semantic::endpoint_client::RemoteEndpoint;
use semantic::json::sanitize_json;
use semantic::models::{ConfigFile, Endpoint, EndpointParameter, ErrorKind};
use semantic::prompts::{PromptManager, PromptVersion, PromptVersions};
use semantic::providers::ModelsConfig;
use semantic::workflow::context::WorkflowContext;
use semantic::workflow::steps::{
    generated_text, ConfigurationLoadingStep, EndpointMatchingStep, FieldMatchingStep,
    JsonGenerationStep, ModelRole, StepProgress, StepReply, StepRequest,
};

fn prompts() -> PromptManager {
    let prompt = |name: &str, template: &str| PromptVersions {
        name: name.to_string(),
        versions: vec![PromptVersion { version: "v1".to_string(), template: template.to_string() }],
        default_version: "v1".to_string(),
    };
    PromptManager::new(vec![
        prompt("sentence_to_json", "JSON for: {sentence}"),
        prompt("find_endpoint", "{input_sentence} | {actions_list}"),
        prompt("match_fields", "{input_fields} | {parameters}"),
    ])
    .unwrap()
}

fn endpoint() -> Endpoint {
    Endpoint {
        id: "schedule_meeting".to_string(),
        text: "schedule meeting".to_string(),
        description: "Schedule a meeting".to_string(),
        parameters: vec![
            EndpointParameter {
                name: "time".to_string(),
                description: "when".to_string(),
                required: Some(true),
                alternatives: Some(vec!["hour".to_string()]),
                semantic_value: None,
            },
            EndpointParameter {
                name: "room".to_string(),
                description: "where".to_string(),
                required: None,
                alternatives: None,
                semantic_value: None,
            },
        ],
    }
}

fn context() -> WorkflowContext {
    WorkflowContext::new("schedule a meeting at 2pm".to_string())
}

fn generated(text: &str) -> StepReply {
    StepReply::Generated(Ok(text.to_string()))
}

fn prompt_of(progress: StepProgress) -> (String, ModelRole) {
    match progress {
        StepProgress::Need(StepRequest::Generate { prompt, model }) => (prompt, model),
        other => panic!("no prompt: {:?}", other),
    }
}

#[test]
fn an_answer_must_be_there_and_not_blank() {
    assert_eq!(generated_text(generated("  yes ")).unwrap(), "  yes ");
    let error = generated_text(generated(" \n")).unwrap_err();
    assert_eq!(error.kind, ErrorKind::Generation);
    assert_eq!(error.message, "Empty response from model");
    let error = generated_text(generated("")).unwrap_err();
    assert_eq!(error.message, "Empty response from model");
    let error = generated_text(StepReply::Generated(Err("timeout".to_string()))).unwrap_err();
    assert_eq!(error.kind, ErrorKind::Generation);
    assert_eq!(error.message, "timeout");
    let error = generated_text(StepReply::ServiceChecked(Ok(true))).unwrap_err();
    assert_eq!(error.kind, ErrorKind::Validation);
    assert_eq!(error.message, "Unexpected reply");
}

#[test]
fn the_json_stage_sets_the_document() {
    let step = JsonGenerationStep;
    assert_eq!(step.name(), "json_generation");
    let mut context = context();
    let (prompt, model) = prompt_of(step.begin(&context, &prompts()));
    assert_eq!(prompt, "JSON for: schedule a meeting at 2pm");
    assert_eq!(model, ModelRole::SentenceToJson);

    let error = step.resume(&mut context, generated("{\"endpoints\": []}")).unwrap_err();
    assert_eq!(error.message, "Invalid JSON structure: 'endpoints' array is empty");
    assert!(context.json_output.is_none());
    let error = step.resume(&mut context, generated("   ")).unwrap_err();
    assert_eq!(error.kind, ErrorKind::Generation);
    assert!(context.json_output.is_none());

    let done = step.resume(&mut context, generated("{\"endpoints\": [{\"fields\": {\"a\": 1}}]}"));
    assert!(matches!(done, Ok(StepProgress::Done)));
    assert_eq!(
        context.json_output.as_ref().unwrap().to_string(),
        "{\"endpoints\":[{\"fields\":{\"a\":1}}]}"
    );
    assert_eq!(context.sentence, "schedule a meeting at 2pm");
    assert!(context.matched_endpoint.is_none());
}

#[test]
fn the_endpoint_stage_needs_a_catalog() {
    let step = EndpointMatchingStep;
    assert_eq!(step.name(), "endpoint_matching");
    let mut context = context();
    let error = step.begin(&context, &prompts()).unwrap_err();
    assert_eq!(error.kind, ErrorKind::Configuration);
    assert_eq!(error.message, "Endpoints configuration not loaded");
    let error = step.resume(&mut context, generated("schedule meeting")).unwrap_err();
    assert_eq!(error.message, "Endpoints configuration not loaded");

    context.endpoints_config = Some(ConfigFile { endpoints: vec![endpoint()] });
    let (prompt, model) = prompt_of(step.begin(&context, &prompts()).unwrap());
    assert_eq!(prompt, "schedule a meeting at 2pm | - schedule meeting");
    assert_eq!(model, ModelRole::FindEndpoint);

    let error = step.resume(&mut context, generated("order pizza")).unwrap_err();
    assert_eq!(error.kind, ErrorKind::NoMatch);
    assert!(context.matched_endpoint.is_none());
    assert!(context.endpoint_id.is_none());
    let error = step.resume(&mut context, generated("\"\"")).unwrap_err();
    assert_eq!(error.message, "Empty extracted response");

    let done = step.resume(&mut context, generated("Answer:\nSchedule Meeting\n"));
    assert!(matches!(done, Ok(StepProgress::Done)));
    assert_eq!(context.matched_endpoint.as_ref().unwrap().id, "schedule_meeting");
    assert_eq!(context.matched_endpoint.as_ref().unwrap().parameters.len(), 2);
    assert_eq!(context.endpoint_id.as_deref(), Some("schedule_meeting"));
    assert_eq!(context.endpoint_description.as_deref(), Some("Schedule a meeting"));
    assert!(context.parameters.is_empty());
}

#[test]
fn the_field_stage_needs_a_document_and_an_endpoint() {
    let step = FieldMatchingStep;
    assert_eq!(step.name(), "field_matching");
    let mut context = context();
    let error = step.begin(&mut context, &prompts()).unwrap_err();
    assert_eq!(error.kind, ErrorKind::Extraction);
    assert_eq!(error.message, "JSON output not available");

    context.json_output =
        Some(sanitize_json("{\"endpoints\": [{\"fields\": {\"hour\": \"2pm\"}}]}").unwrap());
    let error = step.begin(&mut context, &prompts()).unwrap_err();
    assert_eq!(error.kind, ErrorKind::NoMatch);
    assert_eq!(error.message, "Matched endpoint not available");
    let error = step.resume(&mut context, generated("{}")).unwrap_err();
    assert_eq!(error.message, "Matched endpoint not available");

    context.matched_endpoint = Some(endpoint());
    let (prompt, model) = prompt_of(step.begin(&mut context, &prompts()).unwrap());
    assert_eq!(
        prompt,
        "hour: \"2pm\" | time: when (alternatives: hour)\nroom: where (alternatives: )"
    );
    assert_eq!(model, ModelRole::SentenceToJson);
    assert!(context.parameters.is_empty());

    let error = step.resume(&mut context, generated("nothing here")).unwrap_err();
    assert_eq!(error.kind, ErrorKind::Extraction);
    assert!(context.parameters.is_empty());

    let done = step.resume(&mut context, generated("{\"room\": \"blue\", \"time\": \"3pm\"}"));
    assert!(matches!(done, Ok(StepProgress::Done)));
    assert_eq!(context.parameters.len(), 2);
    assert_eq!(context.parameters[0].semantic_value.as_deref(), Some("\"2pm\""));
    assert_eq!(context.parameters[1].semantic_value.as_deref(), Some("blue"));
    assert_eq!(context.parameters[0].alternatives, Some(vec!["hour".to_string()]));
    assert_eq!(context.parameters[1].required, None);
}

#[test]
fn the_field_stage_does_not_ask_where_nothing_is_left() {
    let step = FieldMatchingStep;
    let mut context = context();
    context.json_output = Some(
        sanitize_json("{\"endpoints\": [{\"fields\": {\"hour\": \"2pm\", \"room\": 4}}]}").unwrap(),
    );
    context.matched_endpoint = Some(endpoint());
    let none = PromptManager::new(vec![]).unwrap();
    let done = step.begin(&mut context, &none);
    assert!(matches!(done, Ok(StepProgress::Done)));
    assert_eq!(context.parameters[0].semantic_value.as_deref(), Some("\"2pm\""));
    assert_eq!(context.parameters[1].semantic_value.as_deref(), Some("4"));

    let mut context = WorkflowContext::new("s".to_string());
    context.json_output =
        Some(sanitize_json("{\"endpoints\": [{\"fields\": {\"hour\": \"2pm\"}}]}").unwrap());
    context.matched_endpoint = Some(endpoint());
    let error = step.begin(&mut context, &none).unwrap_err();
    assert_eq!(error.kind, ErrorKind::Configuration);
    assert_eq!(error.message, "Match fields prompt template not found");
}

#[test]
fn the_configuration_stage_goes_step_by_step() {
    let step = ConfigurationLoadingStep {
        api_url: Some("http://catalog".to_string()),
        email: "user@example.com".to_string(),
    };
    assert_eq!(step.name(), "configuration_loading");
    let mut context = context();
    match step.begin(&mut context).unwrap() {
        StepProgress::Need(StepRequest::CheckService { api_url }) => {
            assert_eq!(api_url, "http://catalog")
        }
        other => panic!("{:?}", other),
    }
    assert_eq!(context.email.as_deref(), Some("user@example.com"));

    match step.resume(&mut context, StepReply::ServiceChecked(Ok(true))).unwrap() {
        StepProgress::Need(StepRequest::FetchEndpoints { api_url, email }) => {
            assert_eq!(api_url, "http://catalog");
            assert_eq!(email, "user@example.com");
        }
        other => panic!("{:?}", other),
    }
    let remote = RemoteEndpoint {
        id: "a".to_string(),
        text: "b".to_string(),
        description: "c".to_string(),
        parameters: vec![],
    };
    let next = step.resume(&mut context, StepReply::EndpointsFetched(Ok(vec![remote]))).unwrap();
    assert!(matches!(next, StepProgress::Need(StepRequest::LoadModels)));
    assert_eq!(context.endpoints_config.as_ref().unwrap().endpoints[0].id, "a");
    assert!(context.models_config.is_none());

    let mut models = ModelsConfig::default();
    models.find_endpoint.name = "small".to_string();
    let done = step.resume(&mut context, StepReply::ModelsLoaded(Ok(models))).unwrap();
    assert!(matches!(done, StepProgress::Done));
    assert_eq!(context.models_config.as_ref().unwrap().find_endpoint.name, "small");
}

#[test]
fn the_configuration_stage_reports_what_fails_outside() {
    let step = ConfigurationLoadingStep {
        api_url: Some("http://catalog".to_string()),
        email: "user@example.com".to_string(),
    };
    let mut context = context();
    let cases = vec![
        (StepReply::ServiceChecked(Ok(false)), ErrorKind::Configuration, "Remote endpoint service is unavailable"),
        (StepReply::ServiceChecked(Err("x".to_string())), ErrorKind::Configuration, "Remote endpoint service is unavailable"),
        (StepReply::EndpointsFetched(Err("stream closed".to_string())), ErrorKind::Configuration, "stream closed"),
        (StepReply::ModelsLoaded(Err("config.yaml missing".to_string())), ErrorKind::Configuration, "config.yaml missing"),
        (StepReply::Generated(Ok("hello".to_string())), ErrorKind::Validation, "Unexpected reply"),
    ];
    for (reply, kind, message) in cases {
        let error = step.resume(&mut context, reply).unwrap_err();
        assert_eq!(error.kind, kind);
        assert_eq!(error.message, message);
    }
    assert!(context.endpoints_config.is_none());
    assert!(context.models_config.is_none());

    let no_identity = ConfigurationLoadingStep { api_url: Some("u".to_string()), email: "".to_string() };
    let error = no_identity.begin(&mut context).unwrap_err();
    assert_eq!(error.kind, ErrorKind::Validation);
    assert_eq!(error.message, "Email is required and cannot be empty");
    let bad_identity = ConfigurationLoadingStep { api_url: None, email: "nobody".to_string() };
    let error = bad_identity.begin(&mut context).unwrap_err();
    assert_eq!(error.message, "Invalid email format: nobody");
    assert!(context.email.is_none());
    let no_address = ConfigurationLoadingStep { api_url: None, email: "a@b.cd".to_string() };
    let error = no_address.begin(&mut context).unwrap_err();
    assert_eq!(error.kind, ErrorKind::Configuration);
    assert_eq!(error.message, "No API URL provided");
    assert!(context.email.is_none());
    let error = no_address.resume(&mut context, StepReply::ServiceChecked(Ok(true))).unwrap_err();
    assert_eq!(error.message, "No API URL provided");
}
