//! The state of one request as it passes through the pipeline.

use crate::json::JsonValue;
use crate::models::{text_of, ConfigFile, Endpoint, EndpointParameter};
use crate::providers::ModelsConfig;
use crate::sentence_to_json::shape_fault;
use vstd::prelude::*;

verus! {

/// The state of one request. Each stage reads what earlier stages have set
/// and sets what it is responsible for.
#[derive(Debug)]
pub struct WorkflowContext {
    /// The sentence to analyse.
    pub sentence: String,
    /// The caller's identity, once checked.
    pub email: Option<String>,
    pub models_config: Option<ModelsConfig>,
    /// The catalog, once loaded.
    pub endpoints_config: Option<ConfigFile>,
    /// The fields that the model found in the sentence.
    pub json_output: Option<JsonValue>,
    /// The endpoint that the sentence means.
    pub matched_endpoint: Option<Endpoint>,
    /// The parameters of the matched endpoint with the values found for them.
    pub parameters: Vec<EndpointParameter>,
    pub endpoint_id: Option<String>,
    pub endpoint_description: Option<String>,
}

impl WorkflowContext {
    /// What holds of a context at every moment: the extracted document has
    /// the shape of a list of detected actions; the identifier and the
    /// description are those of the matched endpoint; and parameters are set
    /// only once a document is extracted and an endpoint is matched.
    pub open spec fn wf(&self) -> bool {
        &&& self.json_output matches Some(json) ==> shape_fault(json@) is None
        &&& match self.matched_endpoint {
            Some(endpoint) => {
                &&& text_of(self.endpoint_id) == Some(endpoint.id@)
                &&& text_of(self.endpoint_description) == Some(endpoint.description@)
            },
            None => self.endpoint_id is None && self.endpoint_description is None,
        }
        &&& self.parameters@.len() > 0 ==> self.json_output is Some && self.matched_endpoint is Some
    }

    /// The context holds the sentence `sentence` and nothing else.
    pub open spec fn is_fresh(&self, sentence: Seq<char>) -> bool {
        &&& self.sentence@ == sentence
        &&& self.email is None
        &&& self.models_config is None
        &&& self.endpoints_config is None
        &&& self.json_output is None
        &&& self.matched_endpoint is None
        &&& self.parameters@.len() == 0
        &&& self.endpoint_id is None
        &&& self.endpoint_description is None
    }

    /// The context of a request that has not begun: it holds the sentence and
    /// nothing else.
    pub fn new(sentence: String) -> (r: WorkflowContext)
        ensures
            r.sentence == sentence,
            r.is_fresh(sentence@),
            r.wf(),
    {
        WorkflowContext {
            sentence,
            email: None,
            models_config: None,
            endpoints_config: None,
            json_output: None,
            matched_endpoint: None,
            parameters: Vec::new(),
            endpoint_id: None,
            endpoint_description: None,
        }
    }
}

} // verus!
