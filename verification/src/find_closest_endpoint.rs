//! Choosing the endpoint that a sentence means, with the model's help.

use crate::matching::{
    extract_matched_action, find_endpoint_index, is_blank, is_chosen_phrase, is_first_match,
    no_match,
};
use crate::models::{ConfigFile, Endpoint, ErrorKind, PipelineError};
use crate::prompts::PromptManager;
use crate::text::replaced;
use vstd::prelude::*;
use vstd::string::StringExecFns;

verus! {

/// The list of the first `n` trigger phrases: one line for each, a hyphen
/// and a space before the phrase.
pub open spec fn actions_list_text(endpoints: Seq<Endpoint>, n: int) -> Seq<char>
    decreases n,
{
    if n <= 0 {
        Seq::empty()
    } else if n == 1 {
        "- "@ + endpoints[0].text@
    } else {
        actions_list_text(endpoints, n - 1) + "\n"@ + "- "@ + endpoints[n - 1].text@
    }
}

/// The list of the trigger phrases of the catalog, as the prompt shows it.
pub fn actions_list(config: &ConfigFile) -> (r: String)
    ensures
        r@ == actions_list_text(config.endpoints@, config.endpoints@.len() as int),
{
    let mut out = String::new();
    let mut i: usize = 0;
    while i < config.endpoints.len()
        invariant
            i <= config.endpoints.len(),
            out@ == actions_list_text(config.endpoints@, i as int),
        decreases config.endpoints.len() - i,
    {
        if i > 0 {
            out.append("\n");
        }
        out.append("- ");
        out.append(config.endpoints[i].text.as_str());
        proof {
            if i == 0 {
                assert(Seq::<char>::empty() + "- "@ + config.endpoints@[0].text@ =~= "- "@
                    + config.endpoints@[0].text@);
            }
        }
        i += 1;
    }
    out
}

/// The prompt that asks the model which action of the catalog
/// `input_sentence` means.
pub fn find_endpoint_prompt(prompts: &PromptManager, config: &ConfigFile, input_sentence: &str) -> (r:
    String)
    ensures
        r@ == replaced(
            replaced(
                prompts.template_or_empty("find_endpoint"@, Some("v1"@)),
                "{input_sentence}"@,
                input_sentence@,
            ),
            "{actions_list}"@,
            actions_list_text(config.endpoints@, config.endpoints@.len() as int),
        ),
{
    let list = actions_list(config);
    prompts.format_find_endpoint(input_sentence, list.as_str(), Some("v1"))
}

/// The model's answer `raw` names the endpoint at index `i` of the catalog:
/// the answer's phrase is not empty, and `i` is the first endpoint that is
/// recognised in it.
pub open spec fn answer_names(endpoints: Seq<Endpoint>, raw: Seq<char>, i: int) -> bool {
    exists|t: Seq<char>| #[trigger]
        is_chosen_phrase(raw, t) && t.len() > 0 && is_first_match(endpoints, t, i)
}

/// The model's answer `raw` names a phrase in which no endpoint is recognised.
pub open spec fn answer_names_none(endpoints: Seq<Endpoint>, raw: Seq<char>) -> bool {
    exists|t: Seq<char>| #[trigger] is_chosen_phrase(raw, t) && t.len() > 0 && no_match(endpoints, t)
}

/// `e` is the error for an answer `raw` that names no endpoint: the answer
/// has no phrase, its phrase is empty, or no endpoint is recognised in it.
pub open spec fn is_selection_failure(endpoints: Seq<Endpoint>, raw: Seq<char>, e: PipelineError) -> bool {
    match e.kind {
        ErrorKind::NoMatch => {
            &&& answer_names_none(endpoints, raw)
            &&& e.message@ == "No matching endpoint found"@
        },
        ErrorKind::Generation => if is_blank(raw) {
            e.message@ == "Empty response"@
        } else {
            &&& is_chosen_phrase(raw, Seq::empty())
            &&& e.message@ == "Empty extracted response"@
        },
        _ => false,
    }
}

/// Resolves the model's answer `raw_response` to an endpoint of the catalog.
///
/// The answer's phrase is read by [`extract_matched_action`] and resolved as
/// [`crate::matching::find_endpoint_by_substring`] does. An answer without a
/// phrase is an error of class [`ErrorKind::Generation`]; a phrase in which
/// no endpoint is recognised is one of class [`ErrorKind::NoMatch`].
pub fn find_closest_endpoint(config: &ConfigFile, raw_response: &str) -> (r: Result<
    Endpoint,
    PipelineError,
>)
    ensures
        match r {
            Ok(e) => exists|i: int| #[trigger]
                answer_names(config.endpoints@, raw_response@, i) && e@ == config.endpoints@[i]@,
            Err(e) => is_selection_failure(config.endpoints@, raw_response@, e),
        },
{
    let phrase = match extract_matched_action(raw_response) {
        Err(e) => { return Err(e); },
        Ok(phrase) => phrase,
    };
    match find_endpoint_index(config, phrase.as_str()) {
        Some(i) => {
            assert(answer_names(config.endpoints@, raw_response@, i as int));
            Ok(config.endpoints[i].duplicate())
        },
        None => Err(PipelineError::new(ErrorKind::NoMatch, "No matching endpoint found")),
    }
}

} // verus!
