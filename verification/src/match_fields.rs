//! Reconciling the fields that the model extracted with the parameters that
//! the chosen endpoint declares.

use crate::json::{
    member_from, rendered_json, entry_models_of, JsonMember, JsonModel, JsonValue, MemberModel,
};
use crate::models::{
    clone_strings, text_of, Endpoint, EndpointParameter, ErrorKind, ParameterView,
    PipelineError,
};
use crate::prompts::PromptManager;
use crate::text::{replace_all, replaced};
use vstd::string::StringExecFns;
use crate::text::{from_chars, strip, strip_bounds, to_chars, Strip};
use vstd::prelude::*;

verus! {

/// Why the fields of the first detected action cannot be read.
#[derive(Debug, Clone, Copy, PartialEq, Eq, Structural)]
pub enum FieldsFault {
    /// The document has no member `endpoints`.
    NoEndpoints,
    /// `endpoints` is no array, or is empty.
    NoFirstEndpoint,
    /// The first element of `endpoints` has no member `fields`.
    NoFields,
    /// `fields` is no object.
    FieldsNotObject,
}

impl FieldsFault {
    /// The text that describes the fault.
    pub open spec fn message(self) -> Seq<char> {
        match self {
            FieldsFault::NoEndpoints => "Invalid JSON structure"@,
            FieldsFault::NoFirstEndpoint => "No endpoints found in JSON"@,
            FieldsFault::NoFields => "No fields found in JSON"@,
            FieldsFault::FieldsNotObject => "Fields is not an object"@,
        }
    }

    /// The error that reports the fault.
    pub fn to_error(self) -> (r: PipelineError)
        ensures
            r.kind == ErrorKind::Extraction,
            r.message@ == self.message(),
    {
        let text = match self {
            FieldsFault::NoEndpoints => "Invalid JSON structure",
            FieldsFault::NoFirstEndpoint => "No endpoints found in JSON",
            FieldsFault::NoFields => "No fields found in JSON",
            FieldsFault::FieldsNotObject => "Fields is not an object",
        };
        PipelineError::new(ErrorKind::Extraction, text)
    }
}

/// The fields of the first detected action of `json`: the members of
/// `json.endpoints[0].fields`.
pub open spec fn fields_of(json: JsonModel) -> Result<Seq<MemberModel>, FieldsFault> {
    match json.member("endpoints"@) {
        None => Err(FieldsFault::NoEndpoints),
        Some(list) => match list.items() {
            None => Err(FieldsFault::NoFirstEndpoint),
            Some(items) => if items.len() == 0 {
                Err(FieldsFault::NoFirstEndpoint)
            } else {
                match items[0].member("fields"@) {
                    None => Err(FieldsFault::NoFields),
                    Some(fields) => match fields.entries() {
                        None => Err(FieldsFault::FieldsNotObject),
                        Some(entries) => Ok(entries),
                    },
                }
            },
        },
    }
}

/// Reads the fields of the first detected action of `input_json`.
pub fn detected_fields<'a>(input_json: &'a JsonValue) -> (r: Result<
    &'a Vec<JsonMember>,
    FieldsFault,
>)
    ensures
        match r {
            Ok(fields) => fields_of(input_json@) == Ok::<Seq<MemberModel>, FieldsFault>(
                entry_models_of(fields@),
            ),
            Err(fault) => fields_of(input_json@) == Err::<Seq<MemberModel>, FieldsFault>(fault),
        },
{
    let list = match input_json.get("endpoints") {
        None => { return Err(FieldsFault::NoEndpoints); },
        Some(list) => list,
    };
    let items = match list.as_array() {
        None => { return Err(FieldsFault::NoFirstEndpoint); },
        Some(items) => items,
    };
    if items.len() == 0 {
        return Err(FieldsFault::NoFirstEndpoint);
    }
    let fields = match items[0].get("fields") {
        None => { return Err(FieldsFault::NoFields); },
        Some(fields) => fields,
    };
    match fields.as_object() {
        None => Err(FieldsFault::FieldsNotObject),
        Some(entries) => Ok(entries),
    }
}

/// The alternative names that `param` declares.
pub open spec fn alternatives_of(param: EndpointParameter) -> Seq<String> {
    match param.alternatives {
        Some(names) => names@,
        None => Seq::empty(),
    }
}

/// The text of the field that the first of `names[i..]` with a field names.
pub open spec fn alternative_value(fields: Seq<MemberModel>, names: Seq<String>, i: int) -> Option<
    Seq<char>,
>
    decreases names.len() - i,
{
    if i < 0 || i >= names.len() {
        None
    } else {
        match member_from(fields, names[i]@, 0) {
            Some(v) => Some(rendered_json(v)),
            None => alternative_value(fields, names, i + 1),
        }
    }
}

/// The value that the fields give to `param` without the model's help: the
/// text of the field of the parameter's own name, else that of the first
/// declared alternative name that has a field.
pub open spec fn direct_value(fields: Seq<MemberModel>, param: EndpointParameter) -> Option<
    Seq<char>,
> {
    match member_from(fields, param.name@, 0) {
        Some(v) => Some(rendered_json(v)),
        None => alternative_value(fields, alternatives_of(param), 0),
    }
}

/// The value that the model's answer gives to `param`: the text of the member
/// of the parameter's name, without surrounding double quotes.
pub open spec fn semantic_value(answer: JsonModel, param: EndpointParameter) -> Option<Seq<char>> {
    match answer.member(param.name@) {
        Some(v) => Some(strip(rendered_json(v), Strip::Char('"'))),
        None => None,
    }
}

/// The value of `param`: the direct value where there is one, else the one
/// from the model's answer, if an answer is at hand.
pub open spec fn resolved_value(
    fields: Seq<MemberModel>,
    answer: Option<JsonModel>,
    param: EndpointParameter,
) -> Option<Seq<char>> {
    match direct_value(fields, param) {
        Some(v) => Some(v),
        None => match answer {
            Some(a) => semantic_value(a, param),
            None => None,
        },
    }
}

/// Some parameter of `params` has no direct value.
pub open spec fn some_unresolved(fields: Seq<MemberModel>, params: Seq<EndpointParameter>) -> bool {
    exists|i: int| 0 <= i < params.len() && direct_value(fields, #[trigger] params[i]) is None
}

/// A field under the parameter's own name wins over every alternative name.
pub proof fn lemma_exact_name_wins(
    fields: Seq<MemberModel>,
    answer: Option<JsonModel>,
    param: EndpointParameter,
)
    requires
        member_from(fields, param.name@, 0) is Some,
    ensures
        resolved_value(fields, answer, param) == Some(
            rendered_json(member_from(fields, param.name@, 0).unwrap()),
        ),
{
}

/// The model's answer changes nothing for a parameter that has a direct value.
pub proof fn lemma_direct_value_wins(
    fields: Seq<MemberModel>,
    answer: Option<JsonModel>,
    param: EndpointParameter,
)
    requires
        direct_value(fields, param) is Some,
    ensures
        resolved_value(fields, answer, param) == direct_value(fields, param),
{
}

/// The direct value of `param` among `fields`.
pub fn resolve_directly(fields: &Vec<JsonMember>, param: &EndpointParameter) -> (r: Option<String>)
    ensures
        text_of(r) == direct_value(entry_models_of(fields@), *param),
{
    let ghost models = entry_models_of(fields@);
    match crate::json::find_member(fields, param.name.as_str()) {
        Some(v) => { return Some(v.to_string()); },
        None => {},
    }
    match &param.alternatives {
        None => None,
        Some(names) => {
            let mut i: usize = 0;
            while i < names.len()
                invariant
                    i <= names.len(),
                    models == entry_models_of(fields@),
                    member_from(models, param.name@, 0) is None,
                    alternatives_of(*param) == names@,
                    alternative_value(models, names@, 0) == alternative_value(
                        models,
                        names@,
                        i as int,
                    ),
                decreases names.len() - i,
            {
                match crate::json::find_member(fields, names[i].as_str()) {
                    Some(v) => { return Some(v.to_string()); },
                    None => {},
                }
                i += 1;
            }
            None
        },
    }
}

/// The value that the model's answer gives to `param`.
pub fn resolve_semantically(answer: &JsonValue, param: &EndpointParameter) -> (r: Option<String>)
    ensures
        text_of(r) == semantic_value(answer@, *param),
{
    match answer.get(param.name.as_str()) {
        None => None,
        Some(v) => {
            let text = v.to_string();
            let chars = to_chars(text.as_str());
            assert(chars@.subrange(0, chars@.len() as int) == chars@);
            let (a, b) = strip_bounds(&chars, 0, chars.len(), Strip::Char('"'));
            Some(from_chars(&chars, a, b))
        },
    }
}

/// What [`match_fields_semantic`] returns for the parameter `param`.
pub open spec fn is_match_of(
    entry: (String, String, Option<String>),
    fields: Seq<MemberModel>,
    answer: Option<JsonModel>,
    param: EndpointParameter,
) -> bool {
    &&& entry.0@ == param.name@
    &&& entry.1@ == param.description@
    &&& text_of(entry.2) == resolved_value(fields, answer, param)
}

/// The content of `o`, if any.
pub open spec fn model_of(o: Option<&JsonValue>) -> Option<JsonModel> {
    match o {
        Some(v) => Some(v@),
        None => None,
    }
}

/// Resolves a value for each parameter of `endpoint`.
///
/// The fields are those of the first detected action of `input_json`. For
/// each parameter, in the order of declaration, the result holds its name,
/// its description and its value: the field of the parameter's own name; else
/// the field of its first alternative name that has one; else, where
/// `semantic_answer` is at hand, the member of the parameter's name in it.
/// A parameter without any of these stays without a value.
pub fn match_fields_semantic(
    input_json: &JsonValue,
    endpoint: &Endpoint,
    semantic_answer: Option<&JsonValue>,
) -> (r: Result<Vec<(String, String, Option<String>)>, PipelineError>)
    ensures
        match r {
            Ok(matched) => {
                &&& fields_of(input_json@) matches Ok(fields)
                &&& matched@.len() == endpoint.parameters@.len()
                &&& forall|i: int|
                    0 <= i < matched@.len() ==> is_match_of(
                        #[trigger] matched@[i],
                        fields,
                        model_of(semantic_answer),
                        endpoint.parameters@[i],
                    )
            },
            Err(e) => fields_of(input_json@) matches Err(fault) && is_fields_error(fault, e),
        },
{
    let fields = match detected_fields(input_json) {
        Err(fault) => { return Err(fault.to_error()); },
        Ok(fields) => fields,
    };
    let ghost models = entry_models_of(fields@);
    let mut matched: Vec<(String, String, Option<String>)> = Vec::new();
    let mut i: usize = 0;
    while i < endpoint.parameters.len()
        invariant
            i <= endpoint.parameters.len(),
            models == entry_models_of(fields@),
            matched@.len() == i,
            forall|k: int|
                0 <= k < i ==> is_match_of(
                    #[trigger] matched@[k],
                    models,
                    model_of(semantic_answer),
                    endpoint.parameters@[k],
                ),
        decreases endpoint.parameters.len() - i,
    {
        let param = &endpoint.parameters[i];
        let mut value = resolve_directly(fields, param);
        if value.is_none() {
            match semantic_answer {
                Some(answer) => { value = resolve_semantically(answer, param); },
                None => {},
            }
        }
        matched.push((param.name.clone(), param.description.clone(), value));
        i += 1;
    }
    Ok(matched)
}

/// Tells whether some parameter of `endpoint` has no direct value among the
/// fields of `input_json`, so that the model must be asked.
pub fn needs_semantic_fallback(input_json: &JsonValue, endpoint: &Endpoint) -> (r: Result<
    bool,
    PipelineError,
>)
    ensures
        match r {
            Ok(b) => fields_of(input_json@) matches Ok(fields) && b == some_unresolved(
                fields,
                endpoint.parameters@,
            ),
            Err(e) => fields_of(input_json@) matches Err(fault) && is_fields_error(fault, e),
        },
{
    let fields = match detected_fields(input_json) {
        Err(fault) => { return Err(fault.to_error()); },
        Ok(fields) => fields,
    };
    let ghost models = entry_models_of(fields@);
    let mut i: usize = 0;
    while i < endpoint.parameters.len()
        invariant
            i <= endpoint.parameters.len(),
            models == entry_models_of(fields@),
            fields_of(input_json@) == Ok::<Seq<MemberModel>, FieldsFault>(models),
            forall|k: int|
                0 <= k < i ==> direct_value(models, #[trigger] endpoint.parameters@[k]) is Some,
        decreases endpoint.parameters.len() - i,
    {
        if resolve_directly(fields, &endpoint.parameters[i]).is_none() {
            assert(direct_value(models, endpoint.parameters@[i as int]) is None);
            return Ok(true);
        }
        i += 1;
    }
    Ok(false)
}

/// `fault` as the message and class of an error.
pub open spec fn is_fields_error(fault: FieldsFault, e: PipelineError) -> bool {
    e.kind == ErrorKind::Extraction && e.message@ == fault.message()
}

/// The parameter `param` with the value `value`.
pub open spec fn with_value(param: ParameterView, value: Option<Seq<char>>) -> ParameterView {
    ParameterView { semantic_value: value, ..param }
}

/// `resolved` holds the parameters `params`, each with the value that
/// [`resolved_value`] gives it.
pub open spec fn are_resolved(
    resolved: Seq<EndpointParameter>,
    fields: Seq<MemberModel>,
    answer: Option<JsonModel>,
    params: Seq<EndpointParameter>,
) -> bool {
    &&& resolved.len() == params.len()
    &&& forall|i: int|
        0 <= i < params.len() ==> (#[trigger] resolved[i])@ == with_value(
            params[i]@,
            resolved_value(fields, answer, params[i]),
        )
}

/// The parameters of `endpoint`, each with the value that the fields of
/// `input_json` and, where it is at hand, the model's answer give it.
pub fn resolve_parameters(
    input_json: &JsonValue,
    endpoint: &Endpoint,
    semantic_answer: Option<&JsonValue>,
) -> (r: Result<Vec<EndpointParameter>, PipelineError>)
    ensures
        match r {
            Ok(resolved) => fields_of(input_json@) matches Ok(fields) && are_resolved(
                resolved@,
                fields,
                model_of(semantic_answer),
                endpoint.parameters@,
            ),
            Err(e) => fields_of(input_json@) matches Err(fault) && is_fields_error(fault, e),
        },
{
    let matched = match match_fields_semantic(input_json, endpoint, semantic_answer) {
        Err(e) => { return Err(e); },
        Ok(matched) => matched,
    };
    let ghost fields = fields_of(input_json@)->Ok_0;
    let mut resolved: Vec<EndpointParameter> = Vec::new();
    let mut i: usize = 0;
    while i < endpoint.parameters.len()
        invariant
            i <= endpoint.parameters.len(),
            matched@.len() == endpoint.parameters@.len(),
            resolved@.len() == i,
            forall|k: int|
                0 <= k < matched@.len() ==> is_match_of(
                    #[trigger] matched@[k],
                    fields,
                    model_of(semantic_answer),
                    endpoint.parameters@[k],
                ),
            forall|k: int|
                0 <= k < i ==> (#[trigger] resolved@[k])@ == with_value(
                    endpoint.parameters@[k]@,
                    resolved_value(fields, model_of(semantic_answer), endpoint.parameters@[k]),
                ),
        decreases endpoint.parameters.len() - i,
    {
        let param = &endpoint.parameters[i];
        let value = match &matched[i].2 {
            Some(text) => Some(text.clone()),
            None => None,
        };
        assert(is_match_of(matched@[i as int], fields, model_of(semantic_answer), *param));
        resolved.push(
            EndpointParameter {
                name: param.name.clone(),
                description: param.description.clone(),
                semantic_value: value,
                alternatives: match &param.alternatives {
                    Some(names) => Some(clone_strings(names)),
                    None => None,
                },
                required: param.required,
            },
        );
        i += 1;
    }
    Ok(resolved)
}

/// The first `n` fields as the prompt shows them: name, colon, value, with a
/// comma between two fields.
pub open spec fn fields_text(fields: Seq<MemberModel>, n: int) -> Seq<char>
    decreases n,
{
    if n <= 0 {
        Seq::empty()
    } else if n == 1 {
        fields[0].key + ": "@ + rendered_json(fields[0].value)
    } else {
        fields_text(fields, n - 1) + ", "@ + fields[n - 1].key + ": "@ + rendered_json(
            fields[n - 1].value,
        )
    }
}

/// The first `n` names, with a comma between two names.
pub open spec fn names_text(names: Seq<String>, n: int) -> Seq<char>
    decreases n,
{
    if n <= 0 {
        Seq::empty()
    } else if n == 1 {
        names[0]@
    } else {
        names_text(names, n - 1) + ", "@ + names[n - 1]@
    }
}

/// A parameter as the prompt shows it: name, description and alternative names.
pub open spec fn parameter_line(param: EndpointParameter) -> Seq<char> {
    param.name@ + ": "@ + param.description@ + " (alternatives: "@ + names_text(
        alternatives_of(param),
        alternatives_of(param).len() as int,
    ) + ")"@
}

/// The first `n` parameters as the prompt shows them, one line for each.
pub open spec fn parameters_text(params: Seq<EndpointParameter>, n: int) -> Seq<char>
    decreases n,
{
    if n <= 0 {
        Seq::empty()
    } else if n == 1 {
        parameter_line(params[0])
    } else {
        parameters_text(params, n - 1) + "\n"@ + parameter_line(params[n - 1])
    }
}

/// The prompt that asks the model which of `fields` belongs to which of
/// `params`, made from `template`.
pub open spec fn match_fields_prompt_text(
    template: Seq<char>,
    fields: Seq<MemberModel>,
    params: Seq<EndpointParameter>,
) -> Seq<char> {
    replaced(
        replaced(template, "{input_fields}"@, fields_text(fields, fields.len() as int)),
        "{parameters}"@,
        parameters_text(params, params.len() as int),
    )
}

fn fields_to_text(fields: &Vec<JsonMember>) -> (r: String)
    ensures
        r@ == fields_text(entry_models_of(fields@), fields@.len() as int),
{
    let ghost models = entry_models_of(fields@);
    let mut out = String::new();
    let mut i: usize = 0;
    while i < fields.len()
        invariant
            i <= fields.len(),
            models == entry_models_of(fields@),
            out@ == fields_text(models, i as int),
        decreases fields.len() - i,
    {
        if i > 0 {
            out.append(", ");
        }
        out.append(fields[i].key.as_str());
        out.append(": ");
        let value = fields[i].value.to_string();
        out.append(value.as_str());
        proof {
            if i == 0 {
                assert(Seq::<char>::empty() + models[0].key + ": "@ + rendered_json(models[0].value)
                    =~= models[0].key + ": "@ + rendered_json(models[0].value));
            }
        }
        i += 1;
    }
    out
}

fn parameter_to_line(param: &EndpointParameter) -> (r: String)
    ensures
        r@ == parameter_line(*param),
{
    let mut out = String::new();
    out.append(param.name.as_str());
    out.append(": ");
    out.append(param.description.as_str());
    out.append(" (alternatives: ");
    let mut names_out = String::new();
    match &param.alternatives {
        Some(names) => {
            let mut i: usize = 0;
            while i < names.len()
                invariant
                    i <= names.len(),
                    names_out@ == names_text(names@, i as int),
                decreases names.len() - i,
            {
                if i > 0 {
                    names_out.append(", ");
                }
                names_out.append(names[i].as_str());
                proof {
                    if i == 0 {
                        assert(Seq::<char>::empty() + names@[0]@ =~= names@[0]@);
                    }
                }
                i += 1;
            }
        },
        None => {},
    }
    out.append(names_out.as_str());
    out.append(")");
    proof {
        assert(Seq::<char>::empty() + param.name@ =~= param.name@);
    }
    out
}

fn parameters_to_text(params: &Vec<EndpointParameter>) -> (r: String)
    ensures
        r@ == parameters_text(params@, params@.len() as int),
{
    let mut out = String::new();
    let mut i: usize = 0;
    while i < params.len()
        invariant
            i <= params.len(),
            out@ == parameters_text(params@, i as int),
        decreases params.len() - i,
    {
        if i > 0 {
            out.append("\n");
        }
        let line = parameter_to_line(&params[i]);
        out.append(line.as_str());
        proof {
            if i == 0 {
                assert(Seq::<char>::empty() + parameter_line(params@[0]) =~= parameter_line(
                    params@[0],
                ));
            }
        }
        i += 1;
    }
    out
}

/// The prompt that asks the model which field of `input_json` belongs to
/// which parameter of `endpoint`. It shows every field and every parameter.
/// A store without the template is an error of class
/// [`ErrorKind::Configuration`].
pub fn match_fields_prompt(prompts: &PromptManager, input_json: &JsonValue, endpoint: &Endpoint) -> (r:
    Result<String, PipelineError>)
    ensures
        match fields_of(input_json@) {
            Err(fault) => r matches Err(e) && is_fields_error(fault, e),
            Ok(fields) => match prompts.template("match_fields"@, Some("v1"@)) {
                None => {
                    &&& r matches Err(e)
                    &&& e.kind == ErrorKind::Configuration
                    &&& e.message@ == "Match fields prompt template not found"@
                },
                Some(template) => r matches Ok(prompt) && prompt@ == match_fields_prompt_text(
                    template,
                    fields,
                    endpoint.parameters@,
                ),
            },
        },
{
    let fields = match detected_fields(input_json) {
        Err(fault) => { return Err(fault.to_error()); },
        Ok(fields) => fields,
    };
    let template = match prompts.get_prompt("match_fields", Some("v1")) {
        None => {
            return Err(
                PipelineError::new(ErrorKind::Configuration, "Match fields prompt template not found"),
            );
        },
        Some(template) => template,
    };
    let input_fields = fields_to_text(fields);
    let parameters = parameters_to_text(&endpoint.parameters);
    let first = replace_all(template, "{input_fields}", input_fields.as_str());
    Ok(replace_all(first.as_str(), "{parameters}", parameters.as_str()))
}

} // verus!
