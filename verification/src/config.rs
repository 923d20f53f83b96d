//! The settings of the program, as its configuration file holds them.

use crate::providers::ModelsConfig;
use vstd::prelude::*;

verus! {

/// The settings of the providers. There are none.
#[derive(Debug, Clone)]
pub struct Providers {}

/// The settings of the RPC layer. There are none.
#[derive(Debug, Clone)]
pub struct GrpcConfig {}

/// Where the service listens.
#[derive(Debug, Clone)]
pub struct ServerConfig {
    pub address: String,
    pub port: u16,
}

/// Where the endpoint service is found when no address is given.
#[derive(Debug, Clone)]
pub struct EndpointClientConfig {
    pub default_address: String,
}

/// The whole configuration.
#[derive(Debug, Clone)]
pub struct Config {
    pub models: ModelsConfig,
    pub server: ServerConfig,
    pub endpoint_client: EndpointClientConfig,
}

/// The settings for debugging. There are none.
#[derive(Debug, Clone, Default)]
pub struct DebugConfig {}

} // verus!
