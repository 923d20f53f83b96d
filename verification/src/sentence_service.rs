//! The boundary of the service: who may ask, and what the caller is told.
//!
//! A call is answered with exactly one message, or with exactly one status
//! that names the class of the failure and carries its words.

use crate::analyze_sentence::{
    analysis_result, analyze_sentence, has_begun, is_incomplete, Analysis, AnalysisResult,
};
use crate::json::rendered_json;
use crate::models::{clone_text, text_of, EndpointParameter, ErrorKind, PipelineError};
use crate::text::{contains, is_substring, to_chars};
use crate::utils::email::{invalid_email_message, is_valid_email, validate_email};
use crate::workflow::context::WorkflowContext;
use vstd::prelude::*;
use vstd::string::StringExecFns;

verus! {

/// The classes of failure that a caller is told.
#[derive(Debug, Clone, Copy, PartialEq, Eq, Structural)]
pub enum StatusCode {
    /// The request itself is malformed.
    InvalidArgument,
    /// The configuration that the service needs is not available.
    FailedPrecondition,
    /// No endpoint matches the sentence.
    NotFound,
    /// Any other failure.
    Internal,
}

/// A failure as a caller is told it.
#[derive(Debug)]
pub struct ServiceStatus {
    pub code: StatusCode,
    pub message: String,
}

/// A parameter as a caller is told it.
#[derive(Debug)]
pub struct Parameter {
    pub name: String,
    pub description: String,
    pub semantic_value: Option<String>,
}

/// The one message of a successful call.
#[derive(Debug)]
pub struct SentenceResponse {
    pub endpoint_id: String,
    pub endpoint_description: String,
    pub parameters: Vec<Parameter>,
    /// The extracted document as compact JSON text.
    pub json_output: String,
}

/// The service.
#[derive(Debug)]
pub struct SentenceAnalyzeService {
    /// The address of the endpoint service.
    pub api_url: Option<String>,
}

/// The text of `o`, if any.
pub open spec fn str_of(o: Option<&str>) -> Option<Seq<char>> {
    match o {
        Some(s) => Some(s@),
        None => None,
    }
}

/// The words of the status for a call without an identity.
pub open spec fn missing_email_message() -> Seq<char> {
    "Email is required in request metadata. Add 'email' header to your request."@
}

/// The words of the status for a call with the malformed identity `email`.
pub open spec fn rejected_email_message(email: Seq<char>) -> Seq<char> {
    "Email validation failed: "@ + if email.len() == 0 {
        "Email is required and cannot be empty"@
    } else {
        invalid_email_message(email)
    }
}

/// `status` is what a call with the identity `email` is told where it is
/// turned away.
pub open spec fn is_rejection(email: Option<Seq<char>>, status: ServiceStatus) -> bool {
    &&& status.code == StatusCode::InvalidArgument
    &&& match email {
        None => status.message@ == missing_email_message(),
        Some(e) => !is_valid_email(e) && status.message@ == rejected_email_message(e),
    }
}

/// The class of the failure `e`: a failure of the configuration, or one
/// whose words say that the endpoint configuration is not available, is a
/// failed precondition; a failure to match, or one whose words say so, is
/// not found; every other failure is internal.
pub open spec fn status_class(e: PipelineError) -> StatusCode {
    if e.kind == ErrorKind::Configuration || is_substring(
        "No endpoint configuration available"@,
        e.message@,
    ) || is_substring("endpoints.yaml file not found"@, e.message@) {
        StatusCode::FailedPrecondition
    } else if e.kind == ErrorKind::NoMatch || is_substring(
        "No matching endpoint found"@,
        e.message@,
    ) {
        StatusCode::NotFound
    } else {
        StatusCode::Internal
    }
}

/// The words of the status for the failure `e`. They hold the words of `e`,
/// or, for a failed precondition, the address of the endpoint service.
pub open spec fn status_message(e: PipelineError, api_url: Option<Seq<char>>) -> Seq<char> {
    match status_class(e) {
        StatusCode::FailedPrecondition =>
            "Endpoint configuration is not available. The endpoint service is not running and no local endpoints file was found. Please ensure either the endpoint service is running at "@
                + (match api_url {
                Some(url) => url,
                None => "the configured URL"@,
            }) + " or an endpoints.yaml file exists."@,
        StatusCode::NotFound => "No endpoint matching your input was found: "@ + e.message@,
        _ => "Analysis failed: "@ + e.message@,
    }
}

/// `status` tells a caller of the failure `e`.
pub open spec fn is_status_of(status: ServiceStatus, e: PipelineError, api_url: Option<Seq<char>>) -> bool {
    status.code == status_class(e) && status.message@ == status_message(e, api_url)
}

/// `out` is `p` as a caller is told it.
pub open spec fn is_told(out: Parameter, p: EndpointParameter) -> bool {
    &&& out.name@ == p.name@
    &&& out.description@ == p.description@
    &&& text_of(out.semantic_value) == text_of(p.semantic_value)
}

/// `response` is `result` as a caller is told it.
pub open spec fn is_response_to(response: SentenceResponse, result: AnalysisResult) -> bool {
    &&& response.endpoint_id@ == result.endpoint_id@
    &&& response.endpoint_description@ == result.endpoint_description@
    &&& response.json_output@ == rendered_json(result.json_output@)
    &&& response.parameters@.len() == result.parameters@.len()
    &&& forall|i: int|
        0 <= i < result.parameters@.len() ==> is_told(
            #[trigger] response.parameters@[i],
            result.parameters@[i],
        )
}

impl SentenceAnalyzeService {
    /// A service that reads its catalog from the endpoint service at `api_url`.
    pub fn new(api_url: Option<String>) -> (r: SentenceAnalyzeService)
        ensures
            r.api_url == api_url,
    {
        SentenceAnalyzeService { api_url }
    }

    /// The caller's identity out of the request's metadata, where it is
    /// there and well formed; else the status that turns the call away.
    pub fn get_email_validated(&self, email: Option<&str>) -> (r: Result<String, ServiceStatus>)
        ensures
            match r {
                Ok(identity) => str_of(email) == Some(identity@) && is_valid_email(identity@),
                Err(status) => is_rejection(str_of(email), status),
            },
    {
        let email = match email {
            None => {
                return Err(
                    ServiceStatus {
                        code: StatusCode::InvalidArgument,
                        message: String::from_str(
                            "Email is required in request metadata. Add 'email' header to your request.",
                        ),
                    },
                );
            },
            Some(email) => email,
        };
        match validate_email(email) {
            Ok(()) => Ok(String::from_str(email)),
            Err(e) => {
                let mut message = String::from_str("Email validation failed: ");
                message.append(e.message.as_str());
                Err(ServiceStatus { code: StatusCode::InvalidArgument, message })
            },
        }
    }

    /// The caller's name for itself out of the request's metadata, or
    /// `unknown-client`.
    pub fn get_client_id(client_id: Option<&str>) -> (r: String)
        ensures
            r@ == match client_id {
                Some(id) => id@,
                None => "unknown-client"@,
            },
    {
        match client_id {
            Some(id) => String::from_str(id),
            None => String::from_str("unknown-client"),
        }
    }

    /// Admits a call: checks the identity `email` of the request's metadata
    /// and begins the analysis of `sentence`.
    ///
    /// A call without an identity, or with a malformed one, is turned away
    /// with a status of class [`StatusCode::InvalidArgument`] before any stage
    /// of the pipeline is asked for: an analysis exists only for a call that
    /// is admitted.
    pub fn analyze_sentence(&self, email: Option<&str>, sentence: &str) -> (r: Result<
        Analysis,
        ServiceStatus,
    >)
        ensures
            match r {
                Ok(analysis) => {
                    &&& email matches Some(identity)
                    &&& is_valid_email(identity@)
                    &&& has_begun(analysis, sentence@, text_of(self.api_url), identity@)
                },
                Err(status) => is_rejection(str_of(email), status),
            },
    {
        let identity = match self.get_email_validated(email) {
            Err(status) => { return Err(status); },
            Ok(identity) => identity,
        };
        match analyze_sentence(sentence, clone_text(&self.api_url), identity.as_str()) {
            Ok(analysis) => Ok(analysis),
            Err(e) => {
                let mut message = String::from_str("Email validation failed: ");
                message.append(e.message.as_str());
                Err(ServiceStatus { code: StatusCode::InvalidArgument, message })
            },
        }
    }

    /// The status that tells a caller of the failure `e`.
    pub fn error_status(&self, e: &PipelineError) -> (r: ServiceStatus)
        ensures
            is_status_of(r, *e, text_of(self.api_url)),
    {
        let words = to_chars(e.message.as_str());
        let unavailable = to_chars("No endpoint configuration available");
        let no_file = to_chars("endpoints.yaml file not found");
        let no_match = to_chars("No matching endpoint found");
        let configuration = match e.kind {
            ErrorKind::Configuration => true,
            _ => false,
        };
        let unmatched = match e.kind {
            ErrorKind::NoMatch => true,
            _ => false,
        };
        if configuration || contains(&words, &unavailable) || contains(&words, &no_file) {
            let mut message = String::from_str(
                "Endpoint configuration is not available. The endpoint service is not running and no local endpoints file was found. Please ensure either the endpoint service is running at ",
            );
            match &self.api_url {
                Some(url) => message.append(url.as_str()),
                None => message.append("the configured URL"),
            }
            message.append(" or an endpoints.yaml file exists.");
            ServiceStatus { code: StatusCode::FailedPrecondition, message }
        } else if unmatched || contains(&words, &no_match) {
            let mut message = String::from_str("No endpoint matching your input was found: ");
            message.append(e.message.as_str());
            ServiceStatus { code: StatusCode::NotFound, message }
        } else {
            let mut message = String::from_str("Analysis failed: ");
            message.append(e.message.as_str());
            ServiceStatus { code: StatusCode::Internal, message }
        }
    }

    /// The message that tells a caller of `result`.
    pub fn response(result: &AnalysisResult) -> (r: SentenceResponse)
        ensures
            is_response_to(r, *result),
    {
        let mut parameters: Vec<Parameter> = Vec::new();
        let mut i: usize = 0;
        while i < result.parameters.len()
            invariant
                i <= result.parameters.len(),
                parameters@.len() == i,
                forall|k: int|
                    0 <= k < i ==> is_told(#[trigger] parameters@[k], result.parameters@[k]),
            decreases result.parameters.len() - i,
        {
            let p = &result.parameters[i];
            parameters.push(
                Parameter {
                    name: p.name.clone(),
                    description: p.description.clone(),
                    semantic_value: clone_text(&p.semantic_value),
                },
            );
            i += 1;
        }
        SentenceResponse {
            endpoint_id: result.endpoint_id.clone(),
            endpoint_description: result.endpoint_description.clone(),
            parameters,
            json_output: result.json_output.to_string(),
        }
    }

    /// What a caller is told at the end of a run: the one message of a run
    /// that succeeded and whose context is complete, else the one status of
    /// the failure.
    pub fn conclude(&self, outcome: Result<WorkflowContext, PipelineError>) -> (r: Result<
        SentenceResponse,
        ServiceStatus,
    >)
        ensures
            match r {
                Ok(response) => {
                    &&& outcome matches Ok(context)
                    &&& context.json_output matches Some(json)
                    &&& response.json_output@ == rendered_json(json@)
                    &&& text_of(context.endpoint_id) == Some(response.endpoint_id@)
                    &&& text_of(context.endpoint_description) == Some(
                        response.endpoint_description@,
                    )
                    &&& response.parameters@.len() == context.parameters@.len()
                    &&& forall|i: int|
                        0 <= i < context.parameters@.len() ==> is_told(
                            #[trigger] response.parameters@[i],
                            context.parameters@[i],
                        )
                },
                Err(status) => match outcome {
                    Err(e) => is_status_of(status, e, text_of(self.api_url)),
                    Ok(context) => exists|e: PipelineError| #[trigger]
                        is_incomplete(context, e) && is_status_of(status, e, text_of(self.api_url)),
                },
            },
    {
        let context = match outcome {
            Err(e) => { return Err(self.error_status(&e)); },
            Ok(context) => context,
        };
        match analysis_result(context) {
            Err(e) => Err(self.error_status(&e)),
            Ok(result) => Ok(Self::response(&result)),
        }
    }
}

} // verus!
