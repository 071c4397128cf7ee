use vstd::prelude::*;

use crate::settings::{groups_endpoints, ChainsToEndpoints};
use crate::target_endpoint::TargetEndpoint;

pub use crate::settings::TargetEndpointsForChain;

verus! {

/// The target endpoints of the gateway, grouped by chain.
#[derive(Debug)]
pub struct Config {
    pub target_endpoints: ChainsToEndpoints,
}

impl Config {
    /// A configuration with the given grouping of endpoints.
    pub fn new(target_endpoints: ChainsToEndpoints) -> (r: Self)
        ensures
            r.target_endpoints == target_endpoints,
    {
        Config { target_endpoints }
    }
}

/// The target endpoints of the gateway, in the order they were given.
pub struct ConfigOptions {
    pub target_endpoints: Vec<TargetEndpoint>,
}

impl ConfigOptions {
    /// Options listing the given endpoints.
    pub fn new(target_endpoints: Vec<TargetEndpoint>) -> (r: Self)
        ensures
            r.target_endpoints@ == target_endpoints@,
    {
        ConfigOptions { target_endpoints }
    }
}

impl Config {
    /// Groups the endpoints of `options` by chain.
    pub fn from_options(options: ConfigOptions) -> (r: Self)
        ensures
            groups_endpoints(r.target_endpoints.0@, options.target_endpoints@),
    {
        Config { target_endpoints: ChainsToEndpoints::from_endpoints(options.target_endpoints) }
    }
}

} // verus!
