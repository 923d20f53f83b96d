//! An analysis told in lines: the sentence, the endpoint and each parameter
//! with the field of its name.

use crate::cli::lines_of;
use crate::json::{entry_models_of, find_member, member_from, rendered_json, JsonMember, JsonValue, MemberModel};
use crate::match_fields::{detected_fields, fields_of};
use crate::models::{Endpoint, EndpointParameter};
use crate::text::{from_chars, strip, strip_bounds, to_chars, Strip};
use vstd::prelude::*;
use vstd::string::StringExecFns;

verus! {

/// The fields of the first detected action of `json`, or none where they
/// cannot be read.
pub open spec fn fields_or_none(json: crate::json::JsonModel) -> Seq<MemberModel> {
    match fields_of(json) {
        Ok(fields) => fields,
        Err(_) => Seq::empty(),
    }
}

/// The text of the field called `name`, without surrounding double quotes,
/// or the empty text where there is no such field.
pub open spec fn field_text(fields: Seq<MemberModel>, name: Seq<char>) -> Seq<char> {
    match member_from(fields, name, 0) {
        Some(v) => strip(rendered_json(v), Strip::Char('"')),
        None => Seq::empty(),
    }
}

/// `param` is required.
pub open spec fn is_required(param: EndpointParameter) -> bool {
    param.required == Some(true)
}

/// The line that tells of `param`.
pub open spec fn parameter_line(fields: Seq<MemberModel>, param: EndpointParameter) -> Seq<char> {
    "  "@ + param.name@ + ": "@ + field_text(fields, param.name@)
}

/// The lines of those of the first `n` parameters that are required, where
/// `required` holds, and of those that are not, where it does not.
pub open spec fn parameter_lines(
    fields: Seq<MemberModel>,
    params: Seq<EndpointParameter>,
    required: bool,
    n: int,
) -> Seq<Seq<char>>
    decreases n,
{
    if n <= 0 {
        Seq::empty()
    } else if is_required(params[n - 1]) == required {
        parameter_lines(fields, params, required, n - 1).push(parameter_line(fields, params[n - 1]))
    } else {
        parameter_lines(fields, params, required, n - 1)
    }
}

/// The lines of an analysis: a heading with the model's name, the sentence,
/// the endpoint, the required parameters, the other parameters, and a
/// closing line.
pub open spec fn analysis_lines(
    prompt: Seq<char>,
    json: crate::json::JsonModel,
    endpoint: Endpoint,
    model: Seq<char>,
) -> Seq<Seq<char>> {
    let fields = fields_or_none(json);
    let n = endpoint.parameters@.len() as int;
    seq![
        "\nStructured Analysis (using "@ + model + "):"@,
        "["@,
        "  Sentence: "@ + prompt,
        "  Matched Endpoint: "@ + endpoint.id@,
    ] + parameter_lines(fields, endpoint.parameters@, true, n) + parameter_lines(
        fields,
        endpoint.parameters@,
        false,
        n,
    ) + seq!["]\n"@]
}

fn line_of(fields: Option<&Vec<JsonMember>>, param: &EndpointParameter) -> (r: String)
    ensures
        r@ == parameter_line(
            match fields {
                Some(f) => entry_models_of(f@),
                None => Seq::empty(),
            },
            *param,
        ),
{
    let mut line = String::from_str("  ");
    line.append(param.name.as_str());
    line.append(": ");
    let found = match fields {
        Some(f) => find_member(f, param.name.as_str()),
        None => None,
    };
    match found {
        Some(v) => {
            let text = v.to_string();
            let chars = to_chars(text.as_str());
            assert(chars@.subrange(0, chars@.len() as int) == chars@);
            let (a, b) = strip_bounds(&chars, 0, chars.len(), Strip::Char('"'));
            let value = from_chars(&chars, a, b);
            line.append(value.as_str());
        },
        None => {
            assert(line@ + Seq::<char>::empty() =~= line@);
        },
    }
    line
}

/// The lines that tell of an analysis of `prompt` by the model `model`: see
/// [`analysis_lines`].
pub fn structured_analysis(
    prompt: &str,
    json_result: &JsonValue,
    endpoint_result: &Endpoint,
    model: &str,
) -> (r: Vec<String>)
    ensures
        lines_of(r@) == analysis_lines(prompt@, json_result@, *endpoint_result, model@),
{
    let fields = match detected_fields(json_result) {
        Ok(f) => Some(f),
        Err(_) => None,
    };
    let ghost models = fields_or_none(json_result@);
    let params = &endpoint_result.parameters;
    let mut lines: Vec<String> = Vec::new();
    let mut heading = String::from_str("\nStructured Analysis (using ");
    heading.append(model);
    heading.append("):");
    lines.push(heading);
    lines.push(String::from_str("["));
    let mut sentence = String::from_str("  Sentence: ");
    sentence.append(prompt);
    lines.push(sentence);
    let mut matched = String::from_str("  Matched Endpoint: ");
    matched.append(endpoint_result.id.as_str());
    lines.push(matched);
    let ghost head = lines_of(lines@);
    assert(head =~= seq![
        "\nStructured Analysis (using "@ + model@ + "):"@,
        "["@,
        "  Sentence: "@ + prompt@,
        "  Matched Endpoint: "@ + endpoint_result.id@,
    ]);
    let mut i: usize = 0;
    while i < params.len()
        invariant
            i <= params.len(),
            models == match fields {
                Some(f) => entry_models_of(f@),
                None => Seq::empty(),
            },
            lines_of(lines@) == head + parameter_lines(models, params@, true, i as int),
        decreases params.len() - i,
    {
        let ghost before = lines_of(lines@);
        let required = match params[i].required {
            Some(flag) => flag,
            None => false,
        };
        if required {
            lines.push(line_of(fields, &params[i]));
            assert(lines_of(lines@) =~= before.push(parameter_line(models, params@[i as int])));
            assert(head + parameter_lines(models, params@, true, i as int).push(
                parameter_line(models, params@[i as int]),
            ) =~= (head + parameter_lines(models, params@, true, i as int)).push(
                parameter_line(models, params@[i as int]),
            ));
        }
        i += 1;
    }
    let ghost first = lines_of(lines@);
    let mut i: usize = 0;
    while i < params.len()
        invariant
            i <= params.len(),
            models == match fields {
                Some(f) => entry_models_of(f@),
                None => Seq::empty(),
            },
            lines_of(lines@) == first + parameter_lines(models, params@, false, i as int),
        decreases params.len() - i,
    {
        let ghost before = lines_of(lines@);
        let required = match params[i].required {
            Some(flag) => flag,
            None => false,
        };
        if !required {
            lines.push(line_of(fields, &params[i]));
            assert(lines_of(lines@) =~= before.push(parameter_line(models, params@[i as int])));
            assert(first + parameter_lines(models, params@, false, i as int).push(
                parameter_line(models, params@[i as int]),
            ) =~= (first + parameter_lines(models, params@, false, i as int)).push(
                parameter_line(models, params@[i as int]),
            ));
        }
        i += 1;
    }
    let ghost second = lines_of(lines@);
    lines.push(String::from_str("]\n"));
    assert(lines_of(lines@) =~= second + seq!["]\n"@]);
    lines
}

} // verus!
