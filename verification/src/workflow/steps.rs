//! The stages of the pipeline.
//!
//! A stage does no outside work itself. It says what it needs, a model's
//! answer or a part of the configuration, and goes on when it is handed the
//! reply. Where a stage fails, it leaves the context as it found it.

use crate::endpoint_client::{
    convert_remote_endpoints, converted_endpoints, converted_groups, ApiGroup, RemoteEndpoint,
};
use crate::find_closest_endpoint::{
    actions_list_text, answer_names, find_closest_endpoint, find_endpoint_prompt,
    is_selection_failure,
};
use crate::json::{extraction_fails_with, extracts, sanitize_json, JsonModel};
use crate::match_fields::{
    are_resolved, detected_fields, fields_of, is_fields_error, match_fields_prompt,
    match_fields_prompt_text, needs_semantic_fallback, resolve_parameters, some_unresolved,
};
use crate::matching::{is_blank, is_blank_text};
use crate::models::{clone_text, text_of, ConfigFile, EndpointView, ErrorKind, PipelineError};
use crate::text::same_text;
use crate::utils::email::{invalid_email_message, is_valid_email, validate_email};
use vstd::string::StringExecFns;
use crate::prompts::PromptManager;
use crate::providers::ModelsConfig;
use crate::sentence_to_json::{
    sentence_to_json, sentence_to_json_prompt, shape_fails_with, shape_fault,
};
use crate::text::replaced;
use crate::workflow::context::WorkflowContext;
use vstd::prelude::*;

verus! {

/// The task for which a model is asked.
#[derive(Debug, Clone, Copy, PartialEq, Eq, Structural)]
pub enum ModelRole {
    /// Extracting fields, and matching fields to parameters.
    SentenceToJson,
    /// Choosing an endpoint.
    FindEndpoint,
}

/// What a stage needs from outside.
#[derive(Debug)]
pub enum StepRequest {
    /// Whether the endpoint service at `api_url` can be reached.
    CheckService { api_url: String },
    /// The endpoints that the service at `api_url` holds for `email`.
    FetchEndpoints { api_url: String, email: String },
    /// The settings of the models.
    LoadModels,
    /// The answer of the model for the task `model` to `prompt`.
    Generate { prompt: String, model: ModelRole },
}

/// What came back for a [`StepRequest`]: the thing asked for, or the words
/// of the failure.
#[derive(Debug)]
pub enum StepReply {
    ServiceChecked(Result<bool, String>),
    EndpointsFetched(Result<Vec<RemoteEndpoint>, String>),
    ModelsLoaded(Result<ModelsConfig, String>),
    Generated(Result<String, String>),
}

/// How far a stage has come.
#[derive(Debug)]
pub enum StepProgress {
    /// The stage goes on once this request is answered.
    Need(StepRequest),
    /// The stage is complete.
    Done,
}

/// `p` asks the model for the task `model` with the prompt `prompt`.
pub open spec fn asks_model(p: StepProgress, prompt: Seq<char>, model: ModelRole) -> bool {
    p matches StepProgress::Need(StepRequest::Generate { prompt: q, model: m }) && q@ == prompt && m
        == model
}

/// `e` is the error for the reply `reply` where a model's answer was needed
/// and none that can be used came: the model's failure, in its own words; an
/// answer of white space; or a reply to another request.
pub open spec fn is_answer_failure(reply: StepReply, e: PipelineError) -> bool {
    match reply {
        StepReply::Generated(Ok(text)) => {
            &&& is_blank(text@)
            &&& e.kind == ErrorKind::Generation
            &&& e.message@ == "Empty response from model"@
        },
        StepReply::Generated(Err(words)) => e.kind == ErrorKind::Generation && e.message@ == words@,
        _ => e.kind == ErrorKind::Validation && e.message@ == "Unexpected reply"@,
    }
}

/// `reply` holds an answer of the model that is not blank, and `text` is it.
pub open spec fn is_answer(reply: StepReply, text: Seq<char>) -> bool {
    reply matches StepReply::Generated(Ok(t)) && t@ == text && !is_blank(text)
}

/// The model's answer out of `reply`.
pub fn generated_text(reply: StepReply) -> (r: Result<String, PipelineError>)
    ensures
        match r {
            Ok(text) => is_answer(reply, text@) && reply == StepReply::Generated(
                Ok::<String, String>(text),
            ),
            Err(e) => is_answer_failure(reply, e),
        },
{
    match reply {
        StepReply::Generated(Ok(text)) => {
            if is_blank_text(text.as_str()) {
                Err(PipelineError::new(ErrorKind::Generation, "Empty response from model"))
            } else {
                Ok(text)
            }
        },
        StepReply::Generated(Err(words)) => Err(
            PipelineError { kind: ErrorKind::Generation, message: words },
        ),
        _ => Err(PipelineError::new(ErrorKind::Validation, "Unexpected reply")),
    }
}

/// The stage that asks the model for the fields of the sentence.
#[derive(Debug, Clone, Copy)]
pub struct JsonGenerationStep;

impl JsonGenerationStep {
    /// The stage's name.
    pub fn name(&self) -> (r: &'static str)
        ensures
            r@ == "json_generation"@,
    {
        "json_generation"
    }

    /// Whether `after` and `r` are what [`Self::resume`] makes of `before`
    /// and `reply`.
    pub open spec fn resumed(
        before: WorkflowContext,
        reply: StepReply,
        after: WorkflowContext,
        r: Result<StepProgress, PipelineError>,
    ) -> bool {
        match r {
            Ok(p) => {
                &&& p is Done
                &&& exists|text: Seq<char>, json: JsonModel|
                    {
                        &&& is_answer(reply, text)
                        &&& #[trigger] extracts(text, json)
                        &&& shape_fault(json) is None
                        &&& after.json_output matches Some(v)
                        &&& v@ == json
                    }
                &&& after == (WorkflowContext { json_output: after.json_output, ..before })
            },
            Err(e) => {
                &&& after == before
                &&& is_answer_failure(reply, e) || (e.kind == ErrorKind::Extraction && exists|
                    text: Seq<char>,
                | #[trigger]
                    is_answer(reply, text) && (extraction_fails_with(text, e.message@) || exists|
                        m: JsonModel,
                    | #[trigger] extracts(text, m) && shape_fails_with(m, e.message@)))
            },
        }
    }

    /// Asks the model for the fields of the context's sentence.
    pub fn begin(&self, context: &WorkflowContext, prompts: &PromptManager) -> (r: StepProgress)
        ensures
            asks_model(
                r,
                replaced(
                    prompts.template_or_empty("sentence_to_json"@, Some("v1"@)),
                    "{sentence}"@,
                    context.sentence@,
                ),
                ModelRole::SentenceToJson,
            ),
    {
        let prompt = sentence_to_json_prompt(prompts, context.sentence.as_str());
        StepProgress::Need(StepRequest::Generate { prompt, model: ModelRole::SentenceToJson })
    }

    /// Reads the detected actions out of the model's answer and sets them as
    /// the context's extracted document.
    pub fn resume(&self, context: &mut WorkflowContext, reply: StepReply) -> (r: Result<
        StepProgress,
        PipelineError,
    >)
        ensures
            Self::resumed(*old(context), reply, *final(context), r),
            old(context).wf() ==> final(context).wf(),
    {
        let text = match generated_text(reply) {
            Err(e) => { return Err(e); },
            Ok(text) => text,
        };
        let json = match sentence_to_json(text.as_str()) {
            Err(e) => { return Err(e); },
            Ok(json) => json,
        };
        context.json_output = Some(json);
        Ok(StepProgress::Done)
    }
}

/// The stage that asks the model which endpoint the sentence means.
#[derive(Debug, Clone, Copy)]
pub struct EndpointMatchingStep;

impl EndpointMatchingStep {
    /// The stage's name.
    pub fn name(&self) -> (r: &'static str)
        ensures
            r@ == "endpoint_matching"@,
    {
        "endpoint_matching"
    }

    /// Whether `r` is what [`Self::begin`] returns for `context`.
    pub open spec fn began(
        context: WorkflowContext,
        prompts: PromptManager,
        r: Result<StepProgress, PipelineError>,
    ) -> bool {
        match context.endpoints_config {
            None => {
                &&& r matches Err(e)
                &&& e.kind == ErrorKind::Configuration
                &&& e.message@ == "Endpoints configuration not loaded"@
            },
            Some(config) => r matches Ok(p) && asks_model(
                p,
                replaced(
                    replaced(
                        prompts.template_or_empty("find_endpoint"@, Some("v1"@)),
                        "{input_sentence}"@,
                        context.sentence@,
                    ),
                    "{actions_list}"@,
                    actions_list_text(config.endpoints@, config.endpoints@.len() as int),
                ),
                ModelRole::FindEndpoint,
            ),
        }
    }

    /// `after` is `before` with the endpoint at index `i` of its catalog as
    /// the matched endpoint, and with that endpoint's identifier and
    /// description.
    pub open spec fn has_matched(before: WorkflowContext, i: int, after: WorkflowContext) -> bool {
        &&& before.endpoints_config matches Some(config)
        &&& 0 <= i < config.endpoints@.len()
        &&& after.matched_endpoint matches Some(endpoint)
        &&& endpoint@ == config.endpoints@[i]@
        &&& text_of(after.endpoint_id) == Some(endpoint.id@)
        &&& text_of(after.endpoint_description) == Some(endpoint.description@)
        &&& after == (WorkflowContext {
            matched_endpoint: after.matched_endpoint,
            endpoint_id: after.endpoint_id,
            endpoint_description: after.endpoint_description,
            ..before
        })
    }

    /// Whether `after` and `r` are what [`Self::resume`] makes of `before`
    /// and `reply`.
    pub open spec fn resumed(
        before: WorkflowContext,
        reply: StepReply,
        after: WorkflowContext,
        r: Result<StepProgress, PipelineError>,
    ) -> bool {
        match r {
            Ok(p) => {
                &&& p is Done
                &&& before.endpoints_config matches Some(config)
                &&& exists|text: Seq<char>, i: int|
                    {
                        &&& is_answer(reply, text)
                        &&& #[trigger] answer_names(config.endpoints@, text, i)
                        &&& Self::has_matched(before, i, after)
                    }
            },
            Err(e) => {
                &&& after == before
                &&& match before.endpoints_config {
                    None => e.kind == ErrorKind::Configuration && e.message@
                        == "Endpoints configuration not loaded"@,
                    Some(config) => is_answer_failure(reply, e) || exists|text: Seq<char>| #[trigger]
                        is_answer(reply, text) && is_selection_failure(config.endpoints@, text, e),
                }
            },
        }
    }

    /// Asks the model which trigger phrase of the catalog the sentence
    /// means. A context without a catalog is an error of class
    /// [`ErrorKind::Configuration`].
    pub fn begin(&self, context: &WorkflowContext, prompts: &PromptManager) -> (r: Result<
        StepProgress,
        PipelineError,
    >)
        ensures
            Self::began(*context, *prompts, r),
    {
        match &context.endpoints_config {
            None => Err(
                PipelineError::new(ErrorKind::Configuration, "Endpoints configuration not loaded"),
            ),
            Some(config) => {
                let prompt = find_endpoint_prompt(prompts, config, context.sentence.as_str());
                Ok(
                    StepProgress::Need(
                        StepRequest::Generate { prompt, model: ModelRole::FindEndpoint },
                    ),
                )
            },
        }
    }

    /// Resolves the model's answer to an endpoint of the catalog and sets it
    /// as the context's matched endpoint.
    pub fn resume(&self, context: &mut WorkflowContext, reply: StepReply) -> (r: Result<
        StepProgress,
        PipelineError,
    >)
        ensures
            Self::resumed(*old(context), reply, *final(context), r),
            old(context).wf() ==> final(context).wf(),
    {
        let endpoint = match &context.endpoints_config {
            None => {
                return Err(
                    PipelineError::new(
                        ErrorKind::Configuration,
                        "Endpoints configuration not loaded",
                    ),
                );
            },
            Some(config) => {
                let text = match generated_text(reply) {
                    Err(e) => { return Err(e); },
                    Ok(text) => text,
                };
                match find_closest_endpoint(config, text.as_str()) {
                    Err(e) => { return Err(e); },
                    Ok(endpoint) => endpoint,
                }
            },
        };
        context.endpoint_id = Some(endpoint.id.clone());
        context.endpoint_description = Some(endpoint.description.clone());
        context.matched_endpoint = Some(endpoint);
        Ok(StepProgress::Done)
    }
}

/// The stage that gives each parameter of the matched endpoint its value.
#[derive(Debug, Clone, Copy)]
pub struct FieldMatchingStep;

impl FieldMatchingStep {
    /// The stage's name.
    pub fn name(&self) -> (r: &'static str)
        ensures
            r@ == "field_matching"@,
    {
        "field_matching"
    }

    /// `e` is the error for a context that lacks what the stage reads: the
    /// extracted document, the matched endpoint, or the fields of the first
    /// detected action.
    pub open spec fn is_prerequisite_failure(context: WorkflowContext, e: PipelineError) -> bool {
        match context.json_output {
            None => e.kind == ErrorKind::Extraction && e.message@ == "JSON output not available"@,
            Some(json) => match context.matched_endpoint {
                None => e.kind == ErrorKind::NoMatch && e.message@
                    == "Matched endpoint not available"@,
                Some(endpoint) => fields_of(json@) matches Err(fault) && is_fields_error(fault, e),
            },
        }
    }

    /// `after` is `before` with, as its parameters, those of the matched
    /// endpoint, each with the value that the fields and `answer` give it.
    pub open spec fn has_resolved(
        before: WorkflowContext,
        answer: Option<JsonModel>,
        after: WorkflowContext,
    ) -> bool {
        &&& before.json_output matches Some(json)
        &&& before.matched_endpoint matches Some(endpoint)
        &&& fields_of(json@) matches Ok(fields)
        &&& are_resolved(after.parameters@, fields, answer, endpoint.parameters@)
        &&& after == (WorkflowContext { parameters: after.parameters, ..before })
    }

    /// Whether `after` and `r` are what [`Self::begin`] makes of `before`.
    ///
    /// The model is asked exactly where some parameter has no direct value;
    /// where every parameter has one, the stage is complete at once.
    pub open spec fn began(
        before: WorkflowContext,
        prompts: PromptManager,
        after: WorkflowContext,
        r: Result<StepProgress, PipelineError>,
    ) -> bool {
        match r {
            Ok(StepProgress::Done) => {
                &&& Self::has_resolved(before, None, after)
                &&& !some_unresolved(
                    fields_of(before.json_output->0@)->Ok_0,
                    before.matched_endpoint->0.parameters@,
                )
            },
            Ok(p) => {
                &&& after == before
                &&& before.json_output matches Some(json)
                &&& before.matched_endpoint matches Some(endpoint)
                &&& fields_of(json@) matches Ok(fields)
                &&& some_unresolved(fields, endpoint.parameters@)
                &&& prompts.template("match_fields"@, Some("v1"@)) matches Some(template)
                &&& asks_model(
                    p,
                    match_fields_prompt_text(template, fields, endpoint.parameters@),
                    ModelRole::SentenceToJson,
                )
            },
            Err(e) => {
                &&& after == before
                &&& Self::is_prerequisite_failure(before, e) || {
                    &&& before.json_output matches Some(json)
                    &&& before.matched_endpoint matches Some(endpoint)
                    &&& fields_of(json@) matches Ok(fields)
                    &&& some_unresolved(fields, endpoint.parameters@)
                    &&& prompts.template("match_fields"@, Some("v1"@)) is None
                    &&& e.kind == ErrorKind::Configuration
                    &&& e.message@ == "Match fields prompt template not found"@
                }
            },
        }
    }

    /// Whether `after` and `r` are what [`Self::resume`] makes of `before`
    /// and `reply`.
    pub open spec fn resumed(
        before: WorkflowContext,
        reply: StepReply,
        after: WorkflowContext,
        r: Result<StepProgress, PipelineError>,
    ) -> bool {
        match r {
            Ok(p) => {
                &&& p is Done
                &&& exists|text: Seq<char>, answer: JsonModel|
                    {
                        &&& is_answer(reply, text)
                        &&& #[trigger] extracts(text, answer)
                        &&& Self::has_resolved(before, Some(answer), after)
                    }
            },
            Err(e) => {
                &&& after == before
                &&& Self::is_prerequisite_failure(before, e) || is_answer_failure(reply, e) || (
                e.kind == ErrorKind::Extraction && exists|text: Seq<char>| #[trigger]
                    is_answer(reply, text) && extraction_fails_with(text, e.message@))
            },
        }
    }

    /// The model is asked by [`Self::begin`] only where some parameter has no
    /// direct value; and where none is left, the stage completes without
    /// asking.
    pub proof fn lemma_asks_only_for_what_is_left(
        before: WorkflowContext,
        prompts: PromptManager,
        after: WorkflowContext,
        r: Result<StepProgress, PipelineError>,
    )
        requires
            Self::began(before, prompts, after, r),
            before.json_output is Some,
            before.matched_endpoint is Some,
            fields_of(before.json_output->0@) is Ok,
        ensures
            r matches Ok(StepProgress::Need(_)) ==> some_unresolved(
                fields_of(before.json_output->0@)->Ok_0,
                before.matched_endpoint->0.parameters@,
            ),
            !some_unresolved(
                fields_of(before.json_output->0@)->Ok_0,
                before.matched_endpoint->0.parameters@,
            ) ==> r matches Ok(StepProgress::Done),
    {
    }

    /// Gives each parameter its direct value. Where every parameter has one,
    /// the context's parameters are set and the stage is complete; else the
    /// model is asked, once, which field belongs to which parameter.
    pub fn begin(&self, context: &mut WorkflowContext, prompts: &PromptManager) -> (r: Result<
        StepProgress,
        PipelineError,
    >)
        ensures
            Self::began(*old(context), *prompts, *final(context), r),
            old(context).wf() ==> final(context).wf(),
    {
        let json = match &context.json_output {
            None => {
                return Err(PipelineError::new(ErrorKind::Extraction, "JSON output not available"));
            },
            Some(json) => json,
        };
        let endpoint = match &context.matched_endpoint {
            None => {
                return Err(
                    PipelineError::new(ErrorKind::NoMatch, "Matched endpoint not available"),
                );
            },
            Some(endpoint) => endpoint,
        };
        let asking = match needs_semantic_fallback(json, endpoint) {
            Err(e) => { return Err(e); },
            Ok(asking) => asking,
        };
        if asking {
            let prompt = match match_fields_prompt(prompts, json, endpoint) {
                Err(e) => { return Err(e); },
                Ok(prompt) => prompt,
            };
            return Ok(
                StepProgress::Need(
                    StepRequest::Generate { prompt, model: ModelRole::SentenceToJson },
                ),
            );
        }
        let resolved = match resolve_parameters(json, endpoint, None) {
            Err(e) => { return Err(e); },
            Ok(resolved) => resolved,
        };
        context.parameters = resolved;
        Ok(StepProgress::Done)
    }

    /// Reads the model's answer and sets the context's parameters: each
    /// keeps its direct value, and one without takes the value that the
    /// answer gives it, if any.
    pub fn resume(&self, context: &mut WorkflowContext, reply: StepReply) -> (r: Result<
        StepProgress,
        PipelineError,
    >)
        ensures
            Self::resumed(*old(context), reply, *final(context), r),
            old(context).wf() ==> final(context).wf(),
    {
        let json = match &context.json_output {
            None => {
                return Err(PipelineError::new(ErrorKind::Extraction, "JSON output not available"));
            },
            Some(json) => json,
        };
        let endpoint = match &context.matched_endpoint {
            None => {
                return Err(
                    PipelineError::new(ErrorKind::NoMatch, "Matched endpoint not available"),
                );
            },
            Some(endpoint) => endpoint,
        };
        match detected_fields(json) {
            Err(fault) => { return Err(fault.to_error()); },
            Ok(_) => {},
        }
        let text = match generated_text(reply) {
            Err(e) => { return Err(e); },
            Ok(text) => text,
        };
        let answer = match sanitize_json(text.as_str()) {
            Err(e) => { return Err(e); },
            Ok(answer) => answer,
        };
        let resolved = match resolve_parameters(json, endpoint, Some(&answer)) {
            Err(e) => { return Err(e); },
            Ok(resolved) => resolved,
        };
        context.parameters = resolved;
        Ok(StepProgress::Done)
    }
}

/// The stage that checks the caller's identity and loads the catalog and
/// the settings of the models.
#[derive(Debug, Clone)]
pub struct ConfigurationLoadingStep {
    /// The address of the endpoint service.
    pub api_url: Option<String>,
    /// The caller's identity.
    pub email: String,
}

impl ConfigurationLoadingStep {
    /// The stage's name.
    pub fn name(&self) -> (r: &'static str)
        ensures
            r@ == "configuration_loading"@,
    {
        "configuration_loading"
    }

    /// `e` is the error for a stage whose identity is malformed or that has
    /// no address of the endpoint service.
    pub open spec fn is_setting_failure(self, e: PipelineError) -> bool {
        if !is_valid_email(self.email@) {
            &&& e.kind == ErrorKind::Validation
            &&& e.message@ == if self.email@.len() == 0 {
                "Email is required and cannot be empty"@
            } else {
                invalid_email_message(self.email@)
            }
        } else {
            &&& self.api_url is None
            &&& e.kind == ErrorKind::Configuration
            &&& e.message@ == "No API URL provided"@
        }
    }

    /// Whether `after` and `r` are what [`Self::begin`] makes of `before`.
    pub open spec fn began(
        self,
        before: WorkflowContext,
        after: WorkflowContext,
        r: Result<StepProgress, PipelineError>,
    ) -> bool {
        match r {
            Ok(p) => {
                &&& is_valid_email(self.email@)
                &&& self.api_url matches Some(url)
                &&& p matches StepProgress::Need(StepRequest::CheckService { api_url })
                &&& api_url@ == url@
                &&& text_of(after.email) == Some(self.email@)
                &&& after == (WorkflowContext { email: after.email, ..before })
            },
            Err(e) => after == before && self.is_setting_failure(e),
        }
    }

    /// Whether `after` and `r` are what [`Self::resume`] makes of `before`
    /// and `reply`.
    pub open spec fn resumed(
        self,
        before: WorkflowContext,
        reply: StepReply,
        after: WorkflowContext,
        r: Result<StepProgress, PipelineError>,
    ) -> bool {
        match reply {
            StepReply::ServiceChecked(Ok(true)) => {
                &&& after == before
                &&& match self.api_url {
                    Some(url) => {
                        &&& r matches Ok(
                            StepProgress::Need(StepRequest::FetchEndpoints { api_url, email }),
                        )
                        &&& api_url@ == url@
                        &&& email@ == self.email@
                    },
                    None => {
                        &&& r matches Err(e)
                        &&& e.kind == ErrorKind::Configuration
                        &&& e.message@ == "No API URL provided"@
                    },
                }
            },
            StepReply::ServiceChecked(_) => {
                &&& after == before
                &&& r matches Err(e)
                &&& e.kind == ErrorKind::Configuration
                &&& e.message@ == "Remote endpoint service is unavailable"@
            },
            StepReply::EndpointsFetched(Ok(remote)) => if remote@.len() == 0 {
                &&& after == before
                &&& r matches Err(e)
                &&& e.kind == ErrorKind::Configuration
                &&& e.message@
                    == "No endpoint configuration available: the endpoint service holds no endpoints"@
            } else {
                &&& r matches Ok(StepProgress::Need(StepRequest::LoadModels))
                &&& after.endpoints_config matches Some(config)
                &&& config@ == converted_endpoints(remote@)
                &&& after == (WorkflowContext { endpoints_config: after.endpoints_config, ..before })
            },
            StepReply::ModelsLoaded(Ok(models)) => {
                &&& r matches Ok(StepProgress::Done)
                &&& after == (WorkflowContext { models_config: Some(models), ..before })
            },
            StepReply::EndpointsFetched(Err(words)) | StepReply::ModelsLoaded(Err(words)) => {
                &&& after == before
                &&& r matches Err(e)
                &&& e.kind == ErrorKind::Configuration
                &&& e.message@ == words@
            },
            StepReply::Generated(_) => {
                &&& after == before
                &&& r matches Err(e)
                &&& e.kind == ErrorKind::Validation
                &&& e.message@ == "Unexpected reply"@
            },
        }
    }

    /// Checks the identity, notes it in the context, and asks whether the
    /// endpoint service can be reached. A malformed identity is an error of
    /// class [`ErrorKind::Validation`], a missing address one of class
    /// [`ErrorKind::Configuration`].
    pub fn begin(&self, context: &mut WorkflowContext) -> (r: Result<StepProgress, PipelineError>)
        ensures
            self.began(*old(context), *final(context), r),
            old(context).wf() ==> final(context).wf(),
    {
        match validate_email(self.email.as_str()) {
            Err(e) => { return Err(e); },
            Ok(()) => {},
        }
        let api_url = match &self.api_url {
            None => {
                return Err(PipelineError::new(ErrorKind::Configuration, "No API URL provided"));
            },
            Some(url) => url.clone(),
        };
        context.email = Some(self.email.clone());
        Ok(StepProgress::Need(StepRequest::CheckService { api_url }))
    }

    /// Goes on with what came back: once the service is known to be there,
    /// its endpoints are asked for; once they are here, they are set as the
    /// context's catalog and the settings of the models are asked for; once
    /// those are here, they are set and the stage is complete. A service that
    /// cannot be reached, a catalog without endpoints and every failure
    /// reported from outside are errors of class
    /// [`ErrorKind::Configuration`].
    pub fn resume(&self, context: &mut WorkflowContext, reply: StepReply) -> (r: Result<
        StepProgress,
        PipelineError,
    >)
        ensures
            self.resumed(*old(context), reply, *final(context), r),
            old(context).wf() ==> final(context).wf(),
    {
        match reply {
            StepReply::ServiceChecked(Ok(true)) => match &self.api_url {
                Some(url) => Ok(
                    StepProgress::Need(
                        StepRequest::FetchEndpoints {
                            api_url: url.clone(),
                            email: self.email.clone(),
                        },
                    ),
                ),
                None => Err(PipelineError::new(ErrorKind::Configuration, "No API URL provided")),
            },
            StepReply::ServiceChecked(_) => Err(
                PipelineError::new(
                    ErrorKind::Configuration,
                    "Remote endpoint service is unavailable",
                ),
            ),
            StepReply::EndpointsFetched(Ok(remote)) => {
                if remote.len() == 0 {
                    return Err(
                        PipelineError::new(
                            ErrorKind::Configuration,
                            "No endpoint configuration available: the endpoint service holds no endpoints",
                        ),
                    );
                }
                let ghost fetched = remote@;
                let mut groups: Vec<ApiGroup> = Vec::new();
                groups.push(
                    ApiGroup {
                        id: String::from_str("default"),
                        name: String::from_str("Default Group"),
                        description: String::from_str("Default API Group"),
                        base: String::new(),
                        endpoints: remote,
                    },
                );
                let endpoints = convert_remote_endpoints(groups);
                proof {
                    assert(converted_groups(groups@, 1) =~= converted_endpoints(fetched)) by {
                        assert(converted_groups(groups@, 0) =~= Seq::<EndpointView>::empty());
                    }
                }
                context.endpoints_config = Some(ConfigFile { endpoints });
                Ok(StepProgress::Need(StepRequest::LoadModels))
            },
            StepReply::EndpointsFetched(Err(words)) => Err(
                PipelineError { kind: ErrorKind::Configuration, message: words },
            ),
            StepReply::ModelsLoaded(Ok(models)) => {
                context.models_config = Some(models);
                Ok(StepProgress::Done)
            },
            StepReply::ModelsLoaded(Err(words)) => Err(
                PipelineError { kind: ErrorKind::Configuration, message: words },
            ),
            StepReply::Generated(_) => Err(
                PipelineError::new(ErrorKind::Validation, "Unexpected reply"),
            ),
        }
    }
}

/// A stage of the pipeline.
#[derive(Debug)]
pub enum Step {
    ConfigurationLoading(ConfigurationLoadingStep),
    JsonGeneration(JsonGenerationStep),
    EndpointMatching(EndpointMatchingStep),
    FieldMatching(FieldMatchingStep),
}

impl Step {
    /// Whether `after` and `r` are what [`Self::begin`] makes of `before`.
    pub open spec fn began(
        self,
        before: WorkflowContext,
        prompts: PromptManager,
        after: WorkflowContext,
        r: Result<StepProgress, PipelineError>,
    ) -> bool {
        match self {
            Step::ConfigurationLoading(step) => step.began(before, after, r),
            Step::JsonGeneration(_) => {
                &&& after == before
                &&& r matches Ok(p)
                &&& asks_model(
                    p,
                    replaced(
                        prompts.template_or_empty("sentence_to_json"@, Some("v1"@)),
                        "{sentence}"@,
                        before.sentence@,
                    ),
                    ModelRole::SentenceToJson,
                )
            },
            Step::EndpointMatching(_) => after == before && EndpointMatchingStep::began(
                before,
                prompts,
                r,
            ),
            Step::FieldMatching(_) => FieldMatchingStep::began(before, prompts, after, r),
        }
    }

    /// Whether `after` and `r` are what [`Self::resume`] makes of `before`
    /// and `reply`.
    pub open spec fn resumed(
        self,
        before: WorkflowContext,
        reply: StepReply,
        after: WorkflowContext,
        r: Result<StepProgress, PipelineError>,
    ) -> bool {
        match self {
            Step::ConfigurationLoading(step) => step.resumed(before, reply, after, r),
            Step::JsonGeneration(_) => JsonGenerationStep::resumed(before, reply, after, r),
            Step::EndpointMatching(_) => EndpointMatchingStep::resumed(before, reply, after, r),
            Step::FieldMatching(_) => FieldMatchingStep::resumed(before, reply, after, r),
        }
    }

    /// The stage's name.
    pub fn name(&self) -> (r: &'static str)
        ensures
            r@ == match self {
                Step::ConfigurationLoading(_) => "configuration_loading"@,
                Step::JsonGeneration(_) => "json_generation"@,
                Step::EndpointMatching(_) => "endpoint_matching"@,
                Step::FieldMatching(_) => "field_matching"@,
            },
    {
        match self {
            Step::ConfigurationLoading(step) => step.name(),
            Step::JsonGeneration(step) => step.name(),
            Step::EndpointMatching(step) => step.name(),
            Step::FieldMatching(step) => step.name(),
        }
    }

    /// The stage called `name`, with `api_url` and `email` where the stage
    /// reads them, or `None` where no stage has that name.
    pub fn named(name: &str, api_url: &Option<String>, email: &str) -> (r: Option<Step>)
        ensures
            match r {
                Some(Step::ConfigurationLoading(step)) => {
                    &&& name@ == "configuration_loading"@
                    &&& step.email@ == email@
                    &&& text_of(step.api_url) == text_of(*api_url)
                },
                Some(Step::JsonGeneration(_)) => name@ == "json_generation"@,
                Some(Step::EndpointMatching(_)) => name@ == "endpoint_matching"@,
                Some(Step::FieldMatching(_)) => name@ == "field_matching"@,
                None => {
                    &&& name@ != "configuration_loading"@
                    &&& name@ != "json_generation"@
                    &&& name@ != "endpoint_matching"@
                    &&& name@ != "field_matching"@
                },
            },
    {
        proof {
            reveal_strlit("configuration_loading");
            reveal_strlit("json_generation");
            reveal_strlit("endpoint_matching");
            reveal_strlit("field_matching");
        }
        if same_text(name, "configuration_loading") {
            Some(
                Step::ConfigurationLoading(
                    ConfigurationLoadingStep {
                        api_url: clone_text(api_url),
                        email: String::from_str(email),
                    },
                ),
            )
        } else if same_text(name, "json_generation") {
            Some(Step::JsonGeneration(JsonGenerationStep))
        } else if same_text(name, "endpoint_matching") {
            Some(Step::EndpointMatching(EndpointMatchingStep))
        } else if same_text(name, "field_matching") {
            Some(Step::FieldMatching(FieldMatchingStep))
        } else {
            None
        }
    }

    /// Starts the stage on `context`: it says what it needs from outside,
    /// or that it is complete, or fails.
    pub fn begin(&self, context: &mut WorkflowContext, prompts: &PromptManager) -> (r: Result<
        StepProgress,
        PipelineError,
    >)
        ensures
            self.began(*old(context), *prompts, *final(context), r),
            old(context).wf() ==> final(context).wf(),
    {
        match self {
            Step::ConfigurationLoading(step) => step.begin(context),
            Step::JsonGeneration(step) => Ok(step.begin(context, prompts)),
            Step::EndpointMatching(step) => step.begin(context, prompts),
            Step::FieldMatching(step) => step.begin(context, prompts),
        }
    }

    /// Goes on with the stage once `reply` has come back for what it needed.
    pub fn resume(&self, context: &mut WorkflowContext, reply: StepReply) -> (r: Result<
        StepProgress,
        PipelineError,
    >)
        ensures
            self.resumed(*old(context), reply, *final(context), r),
            old(context).wf() ==> final(context).wf(),
    {
        match self {
            Step::ConfigurationLoading(step) => step.resume(context, reply),
            Step::JsonGeneration(step) => step.resume(context, reply),
            Step::EndpointMatching(step) => step.resume(context, reply),
            Step::FieldMatching(step) => step.resume(context, reply),
        }
    }
}

} // verus!
