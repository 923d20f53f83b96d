//! The catalog as the remote endpoint service delivers it.

use crate::models::{
    clone_strings, endpoint_views, parameter_views, texts_of, Endpoint, EndpointParameter,
    EndpointView, ParameterView,
};
use crate::models::{ErrorKind, PipelineError};
use vstd::prelude::*;
use vstd::string::StringExecFns;

verus! {

/// A parameter as the remote service describes it.
#[derive(Debug, Clone)]
pub struct RemoteParameter {
    pub name: String,
    pub description: String,
    pub required: bool,
    pub alternatives: Vec<String>,
}

/// An endpoint as the remote service describes it.
#[derive(Debug, Clone)]
pub struct RemoteEndpoint {
    pub id: String,
    pub text: String,
    pub description: String,
    pub parameters: Vec<RemoteParameter>,
}

/// A group of endpoints of the remote service.
#[derive(Debug, Clone)]
pub struct ApiGroup {
    pub id: String,
    pub name: String,
    pub description: String,
    pub base: String,
    pub endpoints: Vec<RemoteEndpoint>,
}

/// The catalog's form of a remote parameter: it has no value yet.
pub open spec fn converted_parameter(p: RemoteParameter) -> ParameterView {
    ParameterView {
        name: p.name@,
        description: p.description@,
        required: Some(p.required),
        alternatives: Some(texts_of(p.alternatives@)),
        semantic_value: None,
    }
}

/// The catalog's form of a list of remote parameters.
pub open spec fn converted_parameters(items: Seq<RemoteParameter>) -> Seq<ParameterView> {
    Seq::new(items.len(), |i: int| converted_parameter(items[i]))
}

/// The catalog's form of a remote endpoint.
pub open spec fn converted_endpoint(e: RemoteEndpoint) -> EndpointView {
    EndpointView {
        id: e.id@,
        text: e.text@,
        description: e.description@,
        parameters: converted_parameters(e.parameters@),
    }
}

/// The catalog's form of a list of remote endpoints.
pub open spec fn converted_endpoints(items: Seq<RemoteEndpoint>) -> Seq<EndpointView> {
    Seq::new(items.len(), |i: int| converted_endpoint(items[i]))
}

/// The catalog's form of the endpoints of the first `n` groups, group after
/// group, each group's endpoints in their order.
pub open spec fn converted_groups(groups: Seq<ApiGroup>, n: int) -> Seq<EndpointView>
    decreases n,
{
    if n <= 0 {
        Seq::empty()
    } else {
        converted_groups(groups, n - 1) + converted_endpoints(groups[n - 1].endpoints@)
    }
}

fn convert_parameter(p: &RemoteParameter) -> (r: EndpointParameter)
    ensures
        r@ == converted_parameter(*p),
{
    EndpointParameter {
        name: p.name.clone(),
        description: p.description.clone(),
        required: Some(p.required),
        alternatives: Some(clone_strings(&p.alternatives)),
        semantic_value: None,
    }
}

fn convert_endpoint(e: &RemoteEndpoint) -> (r: Endpoint)
    ensures
        r@ == converted_endpoint(*e),
{
    let mut parameters: Vec<EndpointParameter> = Vec::new();
    let mut i: usize = 0;
    while i < e.parameters.len()
        invariant
            i <= e.parameters.len(),
            parameters@.len() == i,
            forall|k: int|
                0 <= k < i ==> (#[trigger] parameters@[k])@ == converted_parameter(e.parameters@[k]),
        decreases e.parameters.len() - i,
    {
        parameters.push(convert_parameter(&e.parameters[i]));
        i += 1;
    }
    assert(parameter_views(parameters@) =~= converted_parameters(e.parameters@));
    Endpoint {
        id: e.id.clone(),
        text: e.text.clone(),
        description: e.description.clone(),
        parameters,
    }
}

/// Brings the endpoints of `api_groups` into the catalog's form, in the order
/// of the groups and, within a group, of its endpoints. Each parameter keeps
/// its name, description, required flag and alternative names, and has no
/// value.
pub fn convert_remote_endpoints(api_groups: Vec<ApiGroup>) -> (r: Vec<Endpoint>)
    ensures
        endpoint_views(r@) == converted_groups(api_groups@, api_groups@.len() as int),
{
    let mut out: Vec<Endpoint> = Vec::new();
    let mut g: usize = 0;
    while g < api_groups.len()
        invariant
            g <= api_groups.len(),
            endpoint_views(out@) == converted_groups(api_groups@, g as int),
        decreases api_groups.len() - g,
    {
        let group = &api_groups[g];
        let ghost before = out@;
        let mut i: usize = 0;
        while i < group.endpoints.len()
            invariant
                i <= group.endpoints.len(),
                out@.len() == before.len() + i,
                forall|k: int| 0 <= k < before.len() ==> out@[k] == before[k],
                forall|k: int|
                    0 <= k < i ==> (#[trigger] out@[before.len() + k])@ == converted_endpoint(
                        group.endpoints@[k],
                    ),
            decreases group.endpoints.len() - i,
        {
            out.push(convert_endpoint(&group.endpoints[i]));
            i += 1;
        }
        proof {
            let joined = endpoint_views(before) + converted_endpoints(group.endpoints@);
            assert(endpoint_views(out@).len() == joined.len());
            assert forall|k: int| 0 <= k < joined.len() implies endpoint_views(out@)[k]
                == joined[k] by {
                if k >= before.len() {
                    let j = k - before.len();
                    assert(out@[before.len() + j]@ == converted_endpoint(group.endpoints@[j]));
                }
            }
            assert(endpoint_views(out@) =~= joined);
        }
        g += 1;
    }
    out
}

/// `e` is the verdict on an endpoint service that cannot serve.
pub open spec fn is_unavailable(api_url: Option<Seq<char>>, e: PipelineError) -> bool {
    &&& e.kind == ErrorKind::Configuration
    &&& e.message@ == match api_url {
        Some(url) => "Endpoint service is not available at "@ + url,
        None => "No remote endpoint service URL provided"@,
    }
}

/// The verdict on the endpoint configuration at start-up: it is in order
/// exactly where an address of the endpoint service is given and the service
/// was found reachable there. `reachable` is what the health check said.
pub fn verify_endpoints_configuration(api_url: Option<&str>, reachable: bool) -> (r: Result<
    bool,
    PipelineError,
>)
    ensures
        match r {
            Ok(ok) => ok && api_url is Some && reachable,
            Err(e) => !(api_url is Some && reachable) && is_unavailable(
                match api_url {
                    Some(url) => Some(url@),
                    None => None,
                },
                e,
            ),
        },
{
    match api_url {
        Some(url) => {
            if reachable {
                Ok(true)
            } else {
                let mut message = String::from_str("Endpoint service is not available at ");
                message.append(url);
                Err(PipelineError { kind: ErrorKind::Configuration, message })
            }
        },
        None => Err(
            PipelineError::new(ErrorKind::Configuration, "No remote endpoint service URL provided"),
        ),
    }
}

} // verus!
