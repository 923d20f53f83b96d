//! The command line: what it holds, and what is said of a result.

use crate::analyze_sentence::AnalysisResult;
use crate::json::pretty_json;
use crate::models::{text_of, EndpointParameter, ErrorKind, PipelineError};
use crate::utils::email::{invalid_email_message, is_valid_email, validate_email};
use vstd::prelude::*;
use vstd::string::StringExecFns;

verus! {

/// The provider to use.
#[derive(Copy, Clone, PartialEq, Eq, Debug, Structural)]
pub enum ProviderType {
    /// A self-hosted model server.
    Ollama,
    /// The hosted model service.
    Claude,
}

/// The arguments of the program.
#[derive(Debug, Clone)]
pub struct Cli {
    /// The sentence to analyse; without one, the service is started.
    pub prompt: Option<String>,
    pub provider: ProviderType,
    /// The address of the endpoint service.
    pub api: Option<String>,
    /// The caller's identity; needed where a sentence is analysed.
    pub email: Option<String>,
    /// The port on which the service listens.
    pub port: Option<u16>,
}

/// The words of the error for a command line whose identity is missing or
/// malformed.
pub open spec fn email_needed_message(email: Option<Seq<char>>) -> Seq<char> {
    match email {
        None => "Email is required when analyzing a sentence. Please provide it with --email"@,
        Some(e) => "Email is required when analyzing a sentence: "@ + if e.len() == 0 {
            "Email is required and cannot be empty"@
        } else {
            invalid_email_message(e)
        },
    }
}

/// The identity under which a sentence of the command line is analysed. A
/// command line without an identity, or with a malformed one, is an error of
/// class [`ErrorKind::Validation`].
pub fn required_email(cli: &Cli) -> (r: Result<String, PipelineError>)
    ensures
        match r {
            Ok(email) => text_of(cli.email) == Some(email@) && is_valid_email(email@),
            Err(e) => {
                &&& e.kind == ErrorKind::Validation
                &&& e.message@ == email_needed_message(text_of(cli.email))
                &&& cli.email matches Some(email) ==> !is_valid_email(email@)
            },
        },
{
    match &cli.email {
        None => Err(
            PipelineError::new(
                ErrorKind::Validation,
                "Email is required when analyzing a sentence. Please provide it with --email",
            ),
        ),
        Some(email) => match validate_email(email.as_str()) {
            Ok(()) => Ok(email.clone()),
            Err(e) => {
                let mut message = String::from_str("Email is required when analyzing a sentence: ");
                message.append(e.message.as_str());
                Err(PipelineError { kind: ErrorKind::Validation, message })
            },
        },
    }
}

/// Where the endpoints come from, in words.
pub fn endpoint_source(api: &Option<String>) -> (r: String)
    ensures
        r@ == match *api {
            Some(url) => "remote API ("@ + url@ + ")"@,
            None => "local file"@,
        },
{
    match api {
        Some(url) => {
            let mut out = String::from_str("remote API (");
            out.append(url.as_str());
            out.append(")");
            out
        },
        None => String::from_str("local file"),
    }
}

/// The lines that tell of the parameter `p`: its name and description, and
/// its value where it has one.
pub open spec fn parameter_report(p: EndpointParameter) -> Seq<Seq<char>> {
    let head = seq!["\n"@ + p.name@ + " ("@ + p.description@ + "):"@];
    match p.semantic_value {
        Some(value) => head.push("  Semantic Match: "@ + value@),
        None => head,
    }
}

/// The lines that tell of the first `n` parameters.
pub open spec fn parameters_report(params: Seq<EndpointParameter>, n: int) -> Seq<Seq<char>>
    decreases n,
{
    if n <= 0 {
        Seq::empty()
    } else {
        parameters_report(params, n - 1) + parameter_report(params[n - 1])
    }
}

/// The lines that tell of `result`: the endpoint, then each parameter, then
/// the extracted document.
pub open spec fn report_lines(result: AnalysisResult) -> Seq<Seq<char>> {
    seq![
        "\nAnalysis Results:"@,
        "Endpoint: "@ + result.endpoint_id@ + " ("@ + result.endpoint_description@ + ")"@,
        "\nParameters:"@,
    ] + parameters_report(result.parameters@, result.parameters@.len() as int) + seq![
        "\nRaw JSON Output:"@,
        pretty_json(result.json_output@),
    ]
}

/// The texts of a list of lines.
pub open spec fn lines_of(lines: Seq<String>) -> Seq<Seq<char>> {
    Seq::new(lines.len(), |i: int| lines[i]@)
}

/// The lines that the program prints for `result`. Where the document
/// cannot be written, the writer's error is returned.
pub fn analysis_report(result: &AnalysisResult) -> (r: Result<Vec<String>, PipelineError>)
    ensures
        match r {
            Ok(lines) => lines_of(lines@) == report_lines(*result),
            Err(e) => e.kind == ErrorKind::Extraction,
        },
{
    let document = match result.json_output.to_string_pretty() {
        Err(e) => { return Err(e); },
        Ok(document) => document,
    };
    let mut lines: Vec<String> = Vec::new();
    lines.push(String::from_str("\nAnalysis Results:"));
    let mut endpoint = String::from_str("Endpoint: ");
    endpoint.append(result.endpoint_id.as_str());
    endpoint.append(" (");
    endpoint.append(result.endpoint_description.as_str());
    endpoint.append(")");
    lines.push(endpoint);
    lines.push(String::from_str("\nParameters:"));
    let ghost head = lines_of(lines@);
    assert(head =~= seq![
        "\nAnalysis Results:"@,
        "Endpoint: "@ + result.endpoint_id@ + " ("@ + result.endpoint_description@ + ")"@,
        "\nParameters:"@,
    ]);
    let mut i: usize = 0;
    while i < result.parameters.len()
        invariant
            i <= result.parameters.len(),
            lines_of(lines@) == head + parameters_report(result.parameters@, i as int),
        decreases result.parameters.len() - i,
    {
        let p = &result.parameters[i];
        let ghost before = lines_of(lines@);
        let mut line = String::from_str("\n");
        line.append(p.name.as_str());
        line.append(" (");
        line.append(p.description.as_str());
        line.append("):");
        lines.push(line);
        match &p.semantic_value {
            Some(value) => {
                let mut found = String::from_str("  Semantic Match: ");
                found.append(value.as_str());
                lines.push(found);
            },
            None => {},
        }
        assert(lines_of(lines@) =~= before + parameter_report(*p));
        assert(head + parameters_report(result.parameters@, i as int) + parameter_report(*p) =~= head
            + parameters_report(result.parameters@, i + 1));
        i += 1;
    }
    let ghost before = lines_of(lines@);
    lines.push(String::from_str("\nRaw JSON Output:"));
    lines.push(document);
    assert(lines_of(lines@) =~= before + seq![
        "\nRaw JSON Output:"@,
        pretty_json(result.json_output@),
    ]);
    Ok(lines)
}

} // verus!
