//! One request from its sentence to its result.

use crate::json::JsonValue;
use crate::models::{text_of, EndpointParameter, ErrorKind, PipelineError};
use crate::utils::email::{invalid_email_message, is_valid_email, validate_email};
use crate::workflow::config::{is_standard_step, same_config, StepConfig, WorkflowConfig};
use crate::workflow::context::WorkflowContext;
use crate::workflow::engine::{EngineAction, EngineState, Phase, RegisteredStep, WorkflowEngine};
use crate::workflow::steps::Step;
use vstd::prelude::*;
use vstd::string::StringExecFns;

verus! {

/// The result of a request.
#[derive(Debug)]
pub struct AnalysisResult {
    /// The fields that the model found in the sentence.
    pub json_output: JsonValue,
    pub endpoint_id: String,
    pub endpoint_description: String,
    /// The parameters of the endpoint with the values found for them.
    pub parameters: Vec<EndpointParameter>,
}

/// A request that has begun: the engine, the context, the state of the run
/// and what the engine asks for first.
#[derive(Debug)]
pub struct Analysis {
    pub engine: WorkflowEngine,
    pub context: WorkflowContext,
    pub state: EngineState,
    pub action: EngineAction,
}

/// The stage at index `i` of `steps` is the one that `config` names there,
/// with that configuration, and with `api_url` and `email` where it reads them.
pub open spec fn is_registered(
    entry: RegisteredStep,
    config: StepConfig,
    api_url: Option<Seq<char>>,
    email: Seq<char>,
) -> bool {
    &&& same_config(entry.config, config)
    &&& match entry.step {
        Step::ConfigurationLoading(step) => {
            &&& config.name@ == "configuration_loading"@
            &&& step.email@ == email
            &&& text_of(step.api_url) == api_url
        },
        Step::JsonGeneration(_) => config.name@ == "json_generation"@,
        Step::EndpointMatching(_) => config.name@ == "endpoint_matching"@,
        Step::FieldMatching(_) => config.name@ == "field_matching"@,
    }
}

/// `name` is the name of a stage.
pub open spec fn is_step_name(name: Seq<char>) -> bool {
    ||| name == "configuration_loading"@
    ||| name == "json_generation"@
    ||| name == "endpoint_matching"@
    ||| name == "field_matching"@
}

/// The text of the error for a configuration that names an unknown stage.
pub open spec fn unknown_step_message(name: Seq<char>) -> Seq<char> {
    "Unknown step: "@ + name
}

/// The engine that `config` describes: its stages in order, each with its
/// configuration. A name that is not the name of a stage is an error of class
/// [`ErrorKind::Configuration`] that carries the first such name.
pub fn build_engine(config: &WorkflowConfig, api_url: &Option<String>, email: &str) -> (r: Result<
    WorkflowEngine,
    PipelineError,
>)
    ensures
        match r {
            Ok(engine) => {
                &&& engine.steps@.len() == config.steps@.len()
                &&& forall|i: int|
                    0 <= i < config.steps@.len() ==> is_registered(
                        #[trigger] engine.steps@[i],
                        config.steps@[i],
                        text_of(*api_url),
                        email@,
                    )
            },
            Err(e) => {
                &&& e.kind == ErrorKind::Configuration
                &&& exists|i: int|
                    {
                        &&& 0 <= i < config.steps@.len()
                        &&& !is_step_name(#[trigger] config.steps@[i].name@)
                        &&& e.message@ == unknown_step_message(config.steps@[i].name@)
                        &&& forall|j: int| 0 <= j < i ==> is_step_name(#[trigger] config.steps@[j].name@)
                    }
            },
        },
{
    let mut engine = WorkflowEngine::new();
    let mut i: usize = 0;
    while i < config.steps.len()
        invariant
            i <= config.steps.len(),
            engine.steps@.len() == i,
            forall|k: int|
                0 <= k < i ==> is_registered(
                    #[trigger] engine.steps@[k],
                    config.steps@[k],
                    text_of(*api_url),
                    email@,
                ),
            forall|j: int| 0 <= j < i ==> is_step_name(#[trigger] config.steps@[j].name@),
        decreases config.steps.len() - i,
    {
        let step_config = config.steps[i].duplicate();
        match Step::named(step_config.name.as_str(), api_url, email) {
            Some(step) => {
                engine.register_step(step_config, step);
            },
            None => {
                let mut message = String::from_str("Unknown step: ");
                message.append(step_config.name.as_str());
                return Err(PipelineError { kind: ErrorKind::Configuration, message });
            },
        }
        i += 1;
    }
    Ok(engine)
}

/// The stage at index `i` of `steps` is the stage at that index of the
/// standard pipeline, with its standard configuration.
pub open spec fn is_standard_stage(
    entry: RegisteredStep,
    i: int,
    api_url: Option<Seq<char>>,
    email: Seq<char>,
) -> bool {
    &&& is_standard_step(entry.config, i)
    &&& match entry.step {
        Step::ConfigurationLoading(step) => {
            &&& i == 0
            &&& step.email@ == email
            &&& text_of(step.api_url) == api_url
        },
        Step::JsonGeneration(_) => i == 1,
        Step::EndpointMatching(_) => i == 2,
        Step::FieldMatching(_) => i == 3,
    }
}

/// `analysis` is the analysis of `sentence` for the caller `email` at its
/// beginning: the four stages of the standard pipeline are registered, the
/// context holds the sentence and nothing else, and the engine asks to run
/// the first stage.
pub open spec fn has_begun(
    analysis: Analysis,
    sentence: Seq<char>,
    api_url: Option<Seq<char>>,
    email: Seq<char>,
) -> bool {
    &&& analysis.engine.steps@.len() == 4
    &&& forall|i: int|
        0 <= i < 4 ==> is_standard_stage(#[trigger] analysis.engine.steps@[i], i, api_url, email)
    &&& analysis.context.is_fresh(sentence)
    &&& analysis.context.wf()
    &&& analysis.state == (EngineState { position: 0, failures: 0, phase: Phase::Running })
    &&& analysis.action matches EngineAction::Run { index }
    &&& index == 0
}

/// Begins the analysis of `sentence` for the caller `email`.
///
/// The identity is checked before anything else: where it is malformed, the
/// request ends here with an error of class [`ErrorKind::Validation`], and no
/// stage is ever asked for. Else the pipeline of
/// [`WorkflowConfig::standard`] is set up and begun.
pub fn analyze_sentence(sentence: &str, api_url: Option<String>, email: &str) -> (r: Result<
    Analysis,
    PipelineError,
>)
    ensures
        match r {
            Ok(analysis) => is_valid_email(email@) && has_begun(
                analysis,
                sentence@,
                text_of(api_url),
                email@,
            ),
            Err(e) => {
                &&& !is_valid_email(email@)
                &&& e.kind == ErrorKind::Validation
                &&& e.message@ == if email@.len() == 0 {
                    "Email is required and cannot be empty"@
                } else {
                    invalid_email_message(email@)
                }
            },
        },
{
    match validate_email(email) {
        Err(e) => { return Err(e); },
        Ok(()) => {},
    }
    let config = WorkflowConfig::standard();
    let engine = match build_engine(&config, &api_url, email) {
        Ok(engine) => engine,
        Err(e) => {
            proof {
                assert forall|i: int| 0 <= i < 4 implies is_step_name(
                    #[trigger] config.steps@[i].name@,
                ) by {
                    assert(is_standard_step(config.steps@[i], i));
                }
            }
            return Err(e);
        },
    };
    proof {
        reveal_strlit("configuration_loading");
        reveal_strlit("json_generation");
        reveal_strlit("endpoint_matching");
        reveal_strlit("field_matching");
        assert forall|i: int| 0 <= i < 4 implies is_standard_stage(
            #[trigger] engine.steps@[i],
            i,
            text_of(api_url),
            email@,
        ) by {
            assert(is_registered(engine.steps@[i], config.steps@[i], text_of(api_url), email@));
            assert(is_standard_step(config.steps@[i], i));
            assert("configuration_loading"@.len() == 21);
            assert("json_generation"@.len() == 15);
            assert("endpoint_matching"@.len() == 17);
            assert("field_matching"@.len() == 14);
        }
        assert(is_standard_stage(engine.steps@[0], 0, text_of(api_url), email@));
    }
    let (context, state, action) = engine.execute(String::from_str(sentence));
    Ok(Analysis { engine, context, state, action })
}

/// `e` is the error for a context that lacks a part of the result.
pub open spec fn is_incomplete(context: WorkflowContext, e: PipelineError) -> bool {
    if context.json_output is None {
        e.kind == ErrorKind::Extraction && e.message@ == "JSON output not available"@
    } else if context.endpoint_id is None {
        e.kind == ErrorKind::NoMatch && e.message@ == "Endpoint ID not available"@
    } else {
        &&& context.endpoint_description is None
        &&& e.kind == ErrorKind::NoMatch
        &&& e.message@ == "Endpoint description not available"@
    }
}

/// The result of a request, out of its context at the end of the run. A
/// context without an extracted document, or without the endpoint's
/// identifier or description, gives an error.
pub fn analysis_result(context: WorkflowContext) -> (r: Result<AnalysisResult, PipelineError>)
    ensures
        match r {
            Ok(result) => {
                &&& context.json_output == Some(result.json_output)
                &&& context.endpoint_id == Some(result.endpoint_id)
                &&& context.endpoint_description == Some(result.endpoint_description)
                &&& result.parameters == context.parameters
            },
            Err(e) => is_incomplete(context, e),
        },
{
    let json_output = match context.json_output {
        Some(json) => json,
        None => {
            return Err(PipelineError::new(ErrorKind::Extraction, "JSON output not available"));
        },
    };
    let endpoint_id = match context.endpoint_id {
        Some(id) => id,
        None => {
            return Err(PipelineError::new(ErrorKind::NoMatch, "Endpoint ID not available"));
        },
    };
    let endpoint_description = match context.endpoint_description {
        Some(description) => description,
        None => {
            return Err(
                PipelineError::new(ErrorKind::NoMatch, "Endpoint description not available"),
            );
        },
    };
    Ok(
        AnalysisResult {
            json_output,
            endpoint_id,
            endpoint_description,
            parameters: context.parameters,
        },
    )
}

} // verus!
