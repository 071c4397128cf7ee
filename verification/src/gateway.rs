use vstd::prelude::*;

use std::collections::HashMap;

use crate::gateway_config::{ChainConfig, ProjectConfig};
use crate::lazy_request::{PreservedRequest, PreservedSingleCall};
use crate::request::{Id, Version};
use crate::response::{Response, ResponseResult, RpcError, RpcResponse};
use crate::target_endpoint::string_is;

verus! {

broadcast use {
    vstd::std_specs::hash::group_hash_axioms,
    vstd::hash_map::group_hash_map_axioms,
};

/// A request to the gateway: the project it was sent under, the key it carried, its chain.
#[derive(Debug)]
pub struct GatewayRequest {
    pub project_config: ProjectConfig,
    pub key: Option<String>,
    pub chain_id: u64,
    pub req: PreservedRequest,
}

impl GatewayRequest {
    /// Bundles a request with its project, key and chain.
    pub fn new(project_config: ProjectConfig, key: Option<String>, chain_id: u64, req: PreservedRequest) -> (r: Self)
        ensures
            r.project_config == project_config,
            r.key == key,
            r.chain_id == chain_id,
            r.req == req,
    {
        Self { project_config, key, chain_id, req }
    }
}

/// The responses among `outs`, in order (calls that need no response give `None`).
pub open spec fn flatten_responses(outs: Seq<Option<RpcResponse>>) -> Seq<RpcResponse>
    decreases outs.len(),
{
    if outs.len() == 0 {
        seq![]
    } else {
        let rest = flatten_responses(outs.drop_last());
        match outs.last() {
            Some(r) => rest.push(r),
            None => rest,
        }
    }
}

/// The response to a batch: the responses of its calls in order, or nothing at all where no
/// call needs a response.
pub fn responses_as_batch(outs: Vec<Option<RpcResponse>>) -> (r: Option<Response>)
    ensures
        flatten_responses(outs@).len() == 0 ==> r is None,
        flatten_responses(outs@).len() > 0 ==> (r matches Some(Response::Batch(v)) && v@ == flatten_responses(outs@)),
{
    let ghost all = outs@;
    let mut batch: Vec<RpcResponse> = Vec::new();
    for out in it: outs.into_iter()
        invariant
            it.seq() == all,
            batch@ == flatten_responses(all.take(it.index() as int)),
    {
        proof {
            assert(all.take(it.index() as int + 1).drop_last() =~= all.take(it.index() as int));
        }
        if let Some(response) = out {
            batch.push(response);
        }
    }
    proof {
        assert(all.take(all.len() as int) =~= all);
    }
    if batch.len() == 0 {
        None
    } else {
        Some(Response::Batch(batch))
    }
}

/// Whether two optional keys are equal.
fn keys_equal(a: &Option<String>, b: &Option<String>) -> (r: bool)
    ensures
        r == (match (*a, *b) {
            (Some(x), Some(y)) => x@ == y@,
            (None, None) => true,
            _ => false,
        }),
{
    match (a, b) {
        (Some(x), Some(y)) => string_is(x, y.as_str()),
        (None, None) => true,
        _ => false,
    }
}

/// Whether a request carries its project's key (both absent counts as carrying it).
pub open spec fn is_authorized(project_key: Option<String>, key: Option<String>) -> bool {
    match (project_key, key) {
        (Some(x), Some(y)) => x@ == y@,
        (None, None) => true,
        _ => false,
    }
}

/// What the gateway does with a request.
#[derive(Debug)]
pub enum GatewayPlan {
    /// Answer at once.
    Respond(Response),
    /// Handle one call.
    Single(PreservedSingleCall),
    /// Handle the calls of a batch, all of them.
    Batch(Vec<PreservedSingleCall>),
}

/// Whether `r` is the single error response without id of code -32603 and text `message`.
pub open spec fn is_internal_error_response(r: Response, message: Seq<char>) -> bool {
    match r {
        Response::Single(resp) => resp.id == Id::Null && resp.jsonrpc == Version::V2 && match resp.result {
            ResponseResult::Error(e) => e.code == -32603 && e.message@ == message && e.data is None,
            ResponseResult::Success(_) => false,
        },
        Response::Batch(_) => false,
    }
}

/// Decides what to do with a request: a chain without handler is answered "Chain not
/// supported"; then a request without its project's key "Unauthorized"; any other request is
/// handled call by call.
pub fn plan_gateway_request(gateway_request: GatewayRequest, chain_supported: bool) -> (r: GatewayPlan)
    ensures
        !chain_supported ==> (r matches GatewayPlan::Respond(resp) && is_internal_error_response(resp, "Chain not supported"@)),
        chain_supported && !is_authorized(gateway_request.project_config.key, gateway_request.key) ==> (r matches GatewayPlan::Respond(resp)
            && is_internal_error_response(resp, "Unauthorized"@)),
        chain_supported && is_authorized(gateway_request.project_config.key, gateway_request.key) ==> match gateway_request.req {
            PreservedRequest::Single(call) => r == GatewayPlan::Single(call),
            PreservedRequest::Batch(calls) => r == GatewayPlan::Batch(calls),
        },
{
    let authorized = keys_equal(&gateway_request.project_config.key, &gateway_request.key);
    if !chain_supported {
        return GatewayPlan::Respond(Response::error(RpcError::internal_error_with("Chain not supported")));
    }
    if !authorized {
        return GatewayPlan::Respond(Response::error(RpcError::internal_error_with("Unauthorized")));
    }
    match gateway_request.req {
        PreservedRequest::Single(call) => GatewayPlan::Single(call),
        PreservedRequest::Batch(calls) => GatewayPlan::Batch(calls),
    }
}

/// Whether the chain at `i` is the first of `chains` configured without an upstream.
pub open spec fn first_without_upstreams(chains: Seq<ChainConfig>, i: int) -> bool {
    &&& 0 <= i < chains.len()
    &&& chains[i].upstreams@.len() == 0
    &&& forall|j: int| 0 <= j < i ==> #[trigger] chains[j].upstreams@.len() > 0
}

/// Whether every chain of `chains` has an upstream.
pub open spec fn all_have_upstreams(chains: Seq<ChainConfig>) -> bool {
    forall|i: int| 0 <= i < chains.len() ==> #[trigger] chains[i].upstreams@.len() > 0
}

/// Whether the chain at `i` is the last of `chains` with id `id`.
pub open spec fn last_with_id(chains: Seq<ChainConfig>, i: int, id: u64) -> bool {
    &&& 0 <= i < chains.len()
    &&& chains[i].chain_id == id
    &&& forall|j: int| i < j < chains.len() ==> #[trigger] chains[j].chain_id != id
}

/// Whether some chain of `chains` has id `id`.
pub open spec fn configures(chains: Seq<ChainConfig>, id: u64) -> bool {
    exists|i: int| 0 <= i < chains.len() && #[trigger] chains[i].chain_id == id
}

/// The gateway: one handler per chain it serves.
pub struct Gateway<H> {
    pub handlers: HashMap<u64, H>,
}

impl<H> Gateway<H> {
    /// A gateway that serves no chain yet.
    pub fn new() -> (r: Self)
        ensures
            r.handlers@ == Map::<u64, H>::empty(),
    {
        Gateway { handlers: HashMap::new() }
    }

    /// The gateway for the configured `chains`: one handler per chain id, made by `make` from
    /// that chain's configuration (the last one, where an id is listed twice). A chain without
    /// an upstream cannot be served: its id is the error, that of the first such chain.
    pub fn from_chains<F: Fn(&ChainConfig) -> H>(chains: &Vec<ChainConfig>, make: F) -> (r: Result<Self, u64>)
        requires
            forall|i: int| 0 <= i < chains.len() ==> call_requires(make, (&#[trigger] chains@[i],)),
        ensures
            match r {
                Err(id) => exists|i: int| first_without_upstreams(chains@, i) && #[trigger] chains@[i].chain_id == id,
                Ok(g) => {
                    &&& all_have_upstreams(chains@)
                    &&& forall|id: u64| #[trigger] g.handlers@.contains_key(id) <==> configures(chains@, id)
                    &&& forall|id: u64| #[trigger] g.handlers@.contains_key(id) ==> exists|i: int|
                        last_with_id(chains@, i, id) && call_ensures(make, (&#[trigger] chains@[i],), g.handlers@[id])
                },
            },
    {
        let mut i: usize = 0;
        while i < chains.len()
            invariant
                i <= chains.len(),
                forall|j: int| 0 <= j < i ==> #[trigger] chains@[j].upstreams@.len() > 0,
            decreases chains.len() - i,
        {
            if chains[i].upstreams.len() == 0 {
                assert(first_without_upstreams(chains@, i as int));
                return Err(chains[i].chain_id);
            }
            i = i + 1;
        }
        let mut gateway = Gateway::new();
        let mut k: usize = 0;
        while k < chains.len()
            invariant
                k <= chains.len(),
                forall|j: int| 0 <= j < chains.len() ==> call_requires(make, (&#[trigger] chains@[j],)),
                forall|id: u64| #[trigger] gateway.handlers@.contains_key(id) <==> configures(chains@.take(k as int), id),
                forall|id: u64| #[trigger] gateway.handlers@.contains_key(id) ==> exists|j: int|
                    last_with_id(chains@.take(k as int), j, id) && call_ensures(make, (&#[trigger] chains@[j],), gateway.handlers@[id]),
            decreases chains.len() - k,
        {
            let handler = make(&chains[k]);
            let id = chains[k].chain_id;
            let ghost before = gateway.handlers@;
            gateway.add_handler(id, handler);
            proof {
                let next = chains@.take(k as int + 1);
                assert forall|x: u64| #[trigger] gateway.handlers@.contains_key(x) <==> configures(next, x) by {
                    if x == id {
                        assert(next[k as int].chain_id == id);
                    } else {
                        if configures(next, x) {
                            let j = choose|j: int| 0 <= j < next.len() && #[trigger] next[j].chain_id == x;
                            assert(chains@.take(k as int)[j].chain_id == x);
                        }
                        if before.contains_key(x) {
                            let j = choose|j: int| 0 <= j < k && #[trigger] chains@.take(k as int)[j].chain_id == x;
                            assert(next[j].chain_id == x);
                        }
                    }
                }
                assert forall|x: u64| #[trigger] gateway.handlers@.contains_key(x) implies exists|j: int|
                    last_with_id(next, j, x) && call_ensures(make, (&#[trigger] chains@[j],), gateway.handlers@[x]) by {
                    if x == id {
                        assert(last_with_id(next, k as int, x));
                        assert(next[k as int] == chains@[k as int]);
                    } else {
                        let j = choose|j: int| last_with_id(chains@.take(k as int), j, x) && call_ensures(
                            make,
                            (&#[trigger] chains@[j],),
                            before[x],
                        );
                        assert(last_with_id(next, j, x));
                    }
                }
            }
            k = k + 1;
        }
        assert(chains@.take(chains.len() as int) =~= chains@);
        Ok(gateway)
    }

    /// Serves chain `chain_id` with `handler` (replacing an earlier handler of that chain).
    pub fn add_handler(&mut self, chain_id: u64, handler: H)
        ensures
            final(self).handlers@ == old(self).handlers@.insert(chain_id, handler),
    {
        self.handlers.insert(chain_id, handler);
    }

    /// The handler of chain `chain_id`, if the gateway serves it.
    pub fn handler(&self, chain_id: u64) -> (r: Option<&H>)
        ensures
            match r {
                Some(h) => self.handlers@.contains_key(chain_id) && *h == self.handlers@[chain_id],
                None => !self.handlers@.contains_key(chain_id),
            },
    {
        self.handlers.get(&chain_id)
    }

    /// What the gateway does with a request, and the handler of its chain: see
    /// [`plan_gateway_request`]; the chain is supported when the gateway has a handler for it.
    pub fn plan(&self, gateway_request: GatewayRequest) -> (r: (Option<&H>, GatewayPlan))
        ensures
            match r.0 {
                Some(h) => self.handlers@.contains_key(gateway_request.chain_id) && *h
                    == self.handlers@[gateway_request.chain_id],
                None => !self.handlers@.contains_key(gateway_request.chain_id),
            },
            !self.handlers@.contains_key(gateway_request.chain_id) ==> (r.1 matches GatewayPlan::Respond(resp)
                && is_internal_error_response(resp, "Chain not supported"@)),
            self.handlers@.contains_key(gateway_request.chain_id) && !is_authorized(
                gateway_request.project_config.key,
                gateway_request.key,
            ) ==> (r.1 matches GatewayPlan::Respond(resp) && is_internal_error_response(resp, "Unauthorized"@)),
            self.handlers@.contains_key(gateway_request.chain_id) && is_authorized(
                gateway_request.project_config.key,
                gateway_request.key,
            ) ==> match gateway_request.req {
                PreservedRequest::Single(call) => r.1 == GatewayPlan::Single(call),
                PreservedRequest::Batch(calls) => r.1 == GatewayPlan::Batch(calls),
            },
    {
        let handler = self.handler(gateway_request.chain_id);
        let plan = plan_gateway_request(gateway_request, handler.is_some());
        (handler, plan)
    }
}

} // verus!
