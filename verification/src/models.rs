//! The endpoint catalog and the errors of the request pipeline.

use vstd::prelude::*;

verus! {

/// One input that an endpoint expects.
#[derive(Debug, Clone)]
pub struct EndpointParameter {
    /// The parameter's name, unique within its endpoint.
    pub name: String,
    pub description: String,
    pub required: Option<bool>,
    /// Other field names under which a value for this parameter may be found.
    pub alternatives: Option<Vec<String>>,
    /// The value found for this parameter, if any.
    pub semantic_value: Option<String>,
}

/// One action of the catalog.
#[derive(Debug, Clone)]
pub struct Endpoint {
    pub id: String,
    /// The phrase by which the action is recognised.
    pub text: String,
    pub description: String,
    pub parameters: Vec<EndpointParameter>,
}

/// The catalog: the endpoints in the order in which they were declared.
#[derive(Debug, Clone)]
pub struct ConfigFile {
    pub endpoints: Vec<Endpoint>,
}

/// The texts of a list of strings.
pub open spec fn texts_of(items: Seq<String>) -> Seq<Seq<char>> {
    Seq::new(items.len(), |i: int| items[i]@)
}

/// The text of `o`, if any.
pub open spec fn text_of(o: Option<String>) -> Option<Seq<char>> {
    match o {
        Some(s) => Some(s@),
        None => None,
    }
}

/// A copy of `items`.
pub fn clone_strings(items: &Vec<String>) -> (r: Vec<String>)
    ensures
        texts_of(r@) == texts_of(items@),
{
    let mut out: Vec<String> = Vec::new();
    let mut i: usize = 0;
    while i < items.len()
        invariant
            i <= items.len(),
            out@.len() == i,
            forall|k: int| 0 <= k < i ==> (#[trigger] out@[k])@ == items@[k]@,
        decreases items.len() - i,
    {
        out.push(items[i].clone());
        i += 1;
    }
    assert(texts_of(out@) =~= texts_of(items@));
    out
}

/// A copy of `o`.
pub fn clone_text(o: &Option<String>) -> (r: Option<String>)
    ensures
        text_of(r) == text_of(*o),
{
    match o {
        Some(s) => Some(s.clone()),
        None => None,
    }
}

/// The mathematical content of an [`EndpointParameter`].
pub struct ParameterView {
    pub name: Seq<char>,
    pub description: Seq<char>,
    pub required: Option<bool>,
    pub alternatives: Option<Seq<Seq<char>>>,
    pub semantic_value: Option<Seq<char>>,
}

/// The mathematical content of an [`Endpoint`].
pub struct EndpointView {
    pub id: Seq<char>,
    pub text: Seq<char>,
    pub description: Seq<char>,
    pub parameters: Seq<ParameterView>,
}

/// The contents of a list of parameters.
pub open spec fn parameter_views(items: Seq<EndpointParameter>) -> Seq<ParameterView> {
    Seq::new(items.len(), |i: int| items[i]@)
}

/// The contents of a list of endpoints.
pub open spec fn endpoint_views(items: Seq<Endpoint>) -> Seq<EndpointView> {
    Seq::new(items.len(), |i: int| items[i]@)
}

impl View for EndpointParameter {
    type V = ParameterView;

    open spec fn view(&self) -> ParameterView {
        ParameterView {
            name: self.name@,
            description: self.description@,
            required: self.required,
            alternatives: match self.alternatives {
                Some(names) => Some(texts_of(names@)),
                None => None,
            },
            semantic_value: text_of(self.semantic_value),
        }
    }
}

impl View for Endpoint {
    type V = EndpointView;

    open spec fn view(&self) -> EndpointView {
        EndpointView {
            id: self.id@,
            text: self.text@,
            description: self.description@,
            parameters: parameter_views(self.parameters@),
        }
    }
}

impl View for ConfigFile {
    type V = Seq<EndpointView>;

    open spec fn view(&self) -> Seq<EndpointView> {
        endpoint_views(self.endpoints@)
    }
}

impl EndpointParameter {
    /// A copy of the parameter.
    pub fn duplicate(&self) -> (r: EndpointParameter)
        ensures
            r@ == self@,
    {
        EndpointParameter {
            name: self.name.clone(),
            description: self.description.clone(),
            required: self.required,
            alternatives: match &self.alternatives {
                Some(names) => Some(clone_strings(names)),
                None => None,
            },
            semantic_value: clone_text(&self.semantic_value),
        }
    }
}

/// A copy of `items`.
pub fn clone_parameters(items: &Vec<EndpointParameter>) -> (r: Vec<EndpointParameter>)
    ensures
        parameter_views(r@) == parameter_views(items@),
{
    let mut out: Vec<EndpointParameter> = Vec::new();
    let mut i: usize = 0;
    while i < items.len()
        invariant
            i <= items.len(),
            out@.len() == i,
            forall|k: int| 0 <= k < i ==> (#[trigger] out@[k])@ == items@[k]@,
        decreases items.len() - i,
    {
        out.push(items[i].duplicate());
        i += 1;
    }
    assert(parameter_views(out@) =~= parameter_views(items@));
    out
}

impl Endpoint {
    /// A copy of the endpoint.
    pub fn duplicate(&self) -> (r: Endpoint)
        ensures
            r@ == self@,
    {
        Endpoint {
            id: self.id.clone(),
            text: self.text.clone(),
            description: self.description.clone(),
            parameters: clone_parameters(&self.parameters),
        }
    }
}

impl ConfigFile {
    /// A copy of the catalog.
    pub fn duplicate(&self) -> (r: ConfigFile)
        ensures
            r@ == self@,
    {
        let mut out: Vec<Endpoint> = Vec::new();
        let mut i: usize = 0;
        while i < self.endpoints.len()
            invariant
                i <= self.endpoints.len(),
                out@.len() == i,
                forall|k: int| 0 <= k < i ==> (#[trigger] out@[k])@ == self.endpoints@[k]@,
            decreases self.endpoints.len() - i,
        {
            out.push(self.endpoints[i].duplicate());
            i += 1;
        }
        assert(endpoint_views(out@) =~= endpoint_views(self.endpoints@));
        ConfigFile { endpoints: out }
    }
}

/// The classes of failure of a request.
#[derive(Debug, Clone, Copy, PartialEq, Eq, Structural)]
pub enum ErrorKind {
    /// The catalog or the model settings are missing, empty or unreadable.
    Configuration,
    /// The language model failed or answered with nothing.
    Generation,
    /// The model's answer holds no usable JSON.
    Extraction,
    /// No endpoint of the catalog was recognised.
    NoMatch,
    /// The caller's identity or the input is malformed.
    Validation,
}

/// A failure of a request, with the text that describes it.
#[derive(Debug)]
pub struct PipelineError {
    pub kind: ErrorKind,
    pub message: String,
}

impl PipelineError {
    /// An error of class `kind` described by `message`.
    pub fn new(kind: ErrorKind, message: &str) -> (r: PipelineError)
        ensures
            r.kind == kind,
            r.message@ == message@,
    {
        PipelineError { kind, message: String::from_str(message) }
    }

    /// The text that describes the error.
    pub fn to_string(&self) -> (r: String)
        ensures
            r@ == self.message@,
    {
        self.message.clone()
    }
}

} // verus!
