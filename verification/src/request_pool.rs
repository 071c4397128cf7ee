use vstd::prelude::*;

use std::sync::Arc;

use crate::gateway_config::ErrorHandlingConfig;

verus! {

#[verifier::external_type_specification]
#[verifier::external_body]
pub struct ExReqwestError(reqwest::Error);

/// Why forwarding a call to an upstream failed.
#[derive(Debug)]
pub enum UpstreamError {
    /// The request could not be sent, or no response came back.
    RequestError(reqwest::Error),
    /// The response could not be read as a JSON-RPC response.
    ResponseError(reqwest::Error),
}

/// Why the pool could not forward a call.
#[derive(Debug)]
pub enum RequestPoolError {
    NoUpstreamsAvailable,
    UpstreamError(UpstreamError),
}

/// The upstreams of one chain and how failures are handled; `L` picks the upstream.
#[derive(Debug)]
pub struct ChainRequestPool<L> {
    pub error_handling: Arc<ErrorHandlingConfig>,
    pub load_balancer: Arc<L>,
}

/// How one call is to be forwarded.
#[derive(Clone, Copy, Debug, PartialEq, Eq, Structural)]
pub enum ForwardPlan {
    /// No upstream is available: fail at once.
    NoUpstreamsAvailable,
    /// Forward with retries.
    Retry { max_retries: u32, retry_delay_ms: u64, jitter: bool },
    /// Forward once.
    Once,
}

/// The plan for a call: no upstream means failure; the retry strategy retries; fail-fast and
/// the not yet implemented circuit breaker forward once.
pub open spec fn forward_plan_of(error_handling: ErrorHandlingConfig, upstream_selected: bool) -> ForwardPlan {
    if !upstream_selected {
        ForwardPlan::NoUpstreamsAvailable
    } else {
        match error_handling {
            ErrorHandlingConfig::Retry { max_retries, retry_delay_ms, jitter } => ForwardPlan::Retry {
                max_retries,
                retry_delay_ms,
                jitter,
            },
            ErrorHandlingConfig::FailFast => ForwardPlan::Once,
            ErrorHandlingConfig::CircuitBreaker => ForwardPlan::Once,
        }
    }
}

impl<L> ChainRequestPool<L> {
    /// A pool with the given failure handling and load balancer.
    pub fn new(error_handling: ErrorHandlingConfig, load_balancer: Arc<L>) -> (r: Self)
        ensures
            *r.error_handling == error_handling,
            r.load_balancer == load_balancer,
    {
        Self { error_handling: Arc::new(error_handling), load_balancer }
    }

    /// How to forward a call, given whether the load balancer selected an upstream.
    pub fn forward_plan(&self, upstream_selected: bool) -> (r: ForwardPlan)
        ensures
            r == forward_plan_of(*self.error_handling, upstream_selected),
    {
        if !upstream_selected {
            return ForwardPlan::NoUpstreamsAvailable;
        }
        match *self.error_handling {
            ErrorHandlingConfig::Retry { max_retries, retry_delay_ms, jitter } => ForwardPlan::Retry {
                max_retries,
                retry_delay_ms,
                jitter,
            },
            ErrorHandlingConfig::FailFast => ForwardPlan::Once,
            ErrorHandlingConfig::CircuitBreaker => ForwardPlan::Once,
        }
    }
}

} // verus!
