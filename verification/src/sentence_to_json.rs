//! Reading the fields of a sentence out of the model's answer.

use crate::json::{extraction_fails_with, extracts, sanitize_json, JsonModel, JsonValue};
use crate::models::{ErrorKind, PipelineError};
use crate::prompts::PromptManager;
use crate::text::replaced;
use vstd::prelude::*;

verus! {

/// What is wrong with the shape of an extracted document.
#[derive(Debug, Clone, Copy, PartialEq, Eq, Structural)]
pub enum ShapeFault {
    /// The document is no object, or has no member `endpoints`.
    MissingEndpoints,
    /// `endpoints` is no array.
    EndpointsNotArray,
    /// `endpoints` is empty.
    EndpointsEmpty,
    /// An element of `endpoints` has no object `fields`.
    ActionWithoutFields,
}

impl ShapeFault {
    /// The text that describes the fault.
    pub open spec fn message(self) -> Seq<char> {
        match self {
            ShapeFault::MissingEndpoints => "Invalid JSON structure: missing 'endpoints' array"@,
            ShapeFault::EndpointsNotArray => "Invalid JSON structure: 'endpoints' is not an array"@,
            ShapeFault::EndpointsEmpty => "Invalid JSON structure: 'endpoints' array is empty"@,
            ShapeFault::ActionWithoutFields =>
                "Invalid JSON structure: an element of 'endpoints' has no 'fields' object"@,
        }
    }

    /// The error that reports the fault.
    pub fn to_error(self) -> (r: PipelineError)
        ensures
            r.kind == ErrorKind::Extraction,
            r.message@ == self.message(),
    {
        let text = match self {
            ShapeFault::MissingEndpoints => "Invalid JSON structure: missing 'endpoints' array",
            ShapeFault::EndpointsNotArray => "Invalid JSON structure: 'endpoints' is not an array",
            ShapeFault::EndpointsEmpty => "Invalid JSON structure: 'endpoints' array is empty",
            ShapeFault::ActionWithoutFields =>
                "Invalid JSON structure: an element of 'endpoints' has no 'fields' object",
        };
        PipelineError::new(ErrorKind::Extraction, text)
    }
}

/// `action` is a detected action: an object whose member `fields` is an object.
pub open spec fn is_detected_action(action: JsonModel) -> bool {
    action.member("fields"@) matches Some(fields) && fields is Object
}

/// The fault in the shape of `json`, if any: the document must be an object
/// whose member `endpoints` is an array, not empty, of detected actions.
pub open spec fn shape_fault(json: JsonModel) -> Option<ShapeFault> {
    match json.member("endpoints"@) {
        None => Some(ShapeFault::MissingEndpoints),
        Some(list) => match list.items() {
            None => Some(ShapeFault::EndpointsNotArray),
            Some(items) => if items.len() == 0 {
                Some(ShapeFault::EndpointsEmpty)
            } else if forall|i: int| 0 <= i < items.len() ==> is_detected_action(#[trigger] items[i]) {
                None
            } else {
                Some(ShapeFault::ActionWithoutFields)
            },
        },
    }
}

/// The shape of `json` is at fault, and `message` names the fault.
pub open spec fn shape_fails_with(json: JsonModel, message: Seq<char>) -> bool {
    match shape_fault(json) {
        Some(fault) => message == fault.message(),
        None => false,
    }
}

/// Checks the shape of an extracted document.
pub fn validate_detected_actions(json: &JsonValue) -> (r: Result<(), ShapeFault>)
    ensures
        match r {
            Ok(()) => shape_fault(json@) is None,
            Err(fault) => shape_fault(json@) == Some(fault),
        },
{
    let list = match json.get("endpoints") {
        None => { return Err(ShapeFault::MissingEndpoints); },
        Some(list) => list,
    };
    let items = match list.as_array() {
        None => { return Err(ShapeFault::EndpointsNotArray); },
        Some(items) => items,
    };
    if items.len() == 0 {
        return Err(ShapeFault::EndpointsEmpty);
    }
    let ghost models = list@.items().unwrap();
    let mut i: usize = 0;
    while i < items.len()
        invariant
            i <= items.len(),
            models == crate::json::models_of(items@),
            json@.member("endpoints"@) == Some(list@),
            list@.items() == Some(models),
            items.len() > 0,
            forall|k: int| 0 <= k < i ==> is_detected_action(#[trigger] models[k]),
        decreases items.len() - i,
    {
        let ok = match items[i].get("fields") {
            None => false,
            Some(fields) => fields.as_object().is_some(),
        };
        if !ok {
            assert(!is_detected_action(models[i as int]));
            return Err(ShapeFault::ActionWithoutFields);
        }
        i += 1;
    }
    Ok(())
}

/// The prompt that asks the model for the fields of `sentence`.
pub fn sentence_to_json_prompt(prompts: &PromptManager, sentence: &str) -> (r: String)
    ensures
        r@ == replaced(
            prompts.template_or_empty("sentence_to_json"@, Some("v1"@)),
            "{sentence}"@,
            sentence@,
        ),
{
    prompts.format_sentence_to_json(sentence, Some("v1"))
}

/// Reads the detected actions out of the model's answer
/// `full_response_text`: the JSON document that [`sanitize_json`] finds in
/// it, provided that it has the shape that [`shape_fault`] asks for.
pub fn sentence_to_json(full_response_text: &str) -> (r: Result<JsonValue, PipelineError>)
    ensures
        match r {
            Ok(v) => extracts(full_response_text@, v@) && shape_fault(v@) is None,
            Err(e) => {
                &&& e.kind == ErrorKind::Extraction
                &&& (extraction_fails_with(full_response_text@, e.message@) || exists|
                    m: JsonModel,
                |
                    #[trigger] extracts(full_response_text@, m) && shape_fails_with(m, e.message@))
            },
        },
{
    match sanitize_json(full_response_text) {
        Err(e) => Err(e),
        Ok(parsed) => checked_document(parsed),
    }
}

/// The document `parsed` itself where its shape is right, else the error
/// that names the fault.
pub fn checked_document(parsed: JsonValue) -> (r: Result<JsonValue, PipelineError>)
    ensures
        match r {
            Ok(v) => shape_fault(parsed@) is None && v == parsed,
            Err(e) => e.kind == ErrorKind::Extraction && shape_fails_with(parsed@, e.message@),
        },
{
    match validate_detected_actions(&parsed) {
        Ok(()) => Ok(parsed),
        Err(fault) => Err(fault.to_error()),
    }
}

} // verus!
