use vstd::prelude::*;

use crate::gateway_config::{lists_method, CannedResponseConfig, RequestCoalescingConfig};
use crate::digits::{digits_of, format_digits, lemma_digits_roundtrip, scan_digits, IntParseError};
use crate::eth::EthRequest;
use crate::lazy_request::{PreservedMethodCall, PreservedSingleCall};
use crate::request::{Id, RpcCall};
use crate::request_pool::{RequestPoolError, UpstreamError};
use crate::response::{json_string, json_string_value, ResponseResult, RpcError, RpcResponse};
use crate::target_endpoint::string_is;
use crate::text::{chars_of, string_from_chars};
use crate::ttl::{latest_value, ttl_for_request, TTLManager};

verus! {

/// Where the response to a call came from.
#[derive(Clone, Copy, Debug, PartialEq, Eq, Structural)]
pub enum ResponseSource {
    Upstream,
    Coalesced,
    Cached,
    Canned,
    PreUpstreamError,
    Unsupported,
}

/// The label a response source is reported under.
pub open spec fn source_label(s: ResponseSource) -> Seq<char> {
    match s {
        ResponseSource::Upstream => "upstream"@,
        ResponseSource::Coalesced => "coalesced"@,
        ResponseSource::Cached => "cached"@,
        ResponseSource::Canned => "canned"@,
        ResponseSource::PreUpstreamError => "pre_upstream_error"@,
        ResponseSource::Unsupported => "unsupported"@,
    }
}

impl ResponseSource {
    /// The label this source is reported under.
    pub fn as_str(&self) -> (r: &'static str)
        ensures
            r@ == source_label(*self),
    {
        match self {
            ResponseSource::Upstream => "upstream",
            ResponseSource::Coalesced => "coalesced",
            ResponseSource::Cached => "cached",
            ResponseSource::Canned => "canned",
            ResponseSource::PreUpstreamError => "pre_upstream_error",
            ResponseSource::Unsupported => "unsupported",
        }
    }
}

/// The result of a call and where it came from.
#[derive(Debug, Clone)]
pub struct ChainHandlerResponse {
    pub response_source: ResponseSource,
    pub response_result: ResponseResult,
}

/// Whether the error result `r` has code `code` and text `message`.
pub open spec fn is_error_result(r: ResponseResult, code: int, message: Seq<char>) -> bool {
    match r {
        ResponseResult::Error(e) => e.code == code && e.message@ == message && e.data is None,
        ResponseResult::Success(_) => false,
    }
}

/// The filter methods the gateway refuses.
pub open spec fn unsupported_method(m: Seq<char>) -> bool {
    m == "eth_newBlockFilter"@ || m == "eth_newPendingTransactionFilter"@
}

/// The gateway refuses exactly the two filter methods `eth_newBlockFilter` and
/// `eth_newPendingTransactionFilter`; every other method, `eth_newFilter` among them, goes on.
pub proof fn lemma_refused_methods(m: Seq<char>)
    ensures
        unsupported_method(m) <==> (m == "eth_newBlockFilter"@ || m == "eth_newPendingTransactionFilter"@),
{
}

/// A method the gateway refuses is answered "Method not found" at once.
pub fn try_unsupported_response(method: &String) -> (r: Option<ChainHandlerResponse>)
    ensures
        r is Some <==> unsupported_method(method@),
        r is Some <==> (method@ == "eth_newBlockFilter"@ || method@ == "eth_newPendingTransactionFilter"@),
        r matches Some(x) ==> x.response_source == ResponseSource::Unsupported && is_error_result(
            x.response_result,
            -32601,
            "Method not found"@,
        ),
{
    if string_is(method, "eth_newBlockFilter") || string_is(method, "eth_newPendingTransactionFilter") {
        Some(
            ChainHandlerResponse {
                response_source: ResponseSource::Unsupported,
                response_result: ResponseResult::Error(RpcError::method_not_found()),
            },
        )
    } else {
        None
    }
}

/// The text of the gateway's own answer to `req`, where it gives one: its client version for
/// `web3_clientVersion`, the chain id in hex for `eth_chainId`, each when enabled.
pub open spec fn canned_text(config: CannedResponseConfig, chain_id: u64, client_version: Seq<char>, req: Option<EthRequest>) -> Option<Seq<char>> {
    if !config.enabled {
        None
    } else {
        match req {
            Some(EthRequest::Web3ClientVersion) => if config.methods.web3_client_version {
                Some("RPC-Gateway/"@ + client_version)
            } else {
                None
            },
            Some(EthRequest::EthChainId) => if config.methods.eth_chain_id {
                Some(seq!['0', 'x'] + digits_of(chain_id as nat, 16))
            } else {
                None
            },
            _ => None,
        }
    }
}

/// The gateway answers a call itself only where canned responses are enabled and switched on
/// for that very method, which is `web3_clientVersion` or `eth_chainId`: the client version
/// answer is `RPC-Gateway/` followed by the version, the chain id answer is `0x` followed by
/// hex digits that read back as the chain id.
pub proof fn lemma_canned_only_when_switched_on(
    config: CannedResponseConfig,
    chain_id: u64,
    client_version: Seq<char>,
    req: Option<EthRequest>,
)
    ensures
        canned_text(config, chain_id, client_version, req) is Some <==> config.enabled && (
            (req == Some(EthRequest::Web3ClientVersion) && config.methods.web3_client_version) || (req == Some(
                EthRequest::EthChainId,
            ) && config.methods.eth_chain_id)),
        req == Some(EthRequest::Web3ClientVersion) && canned_text(config, chain_id, client_version, req) is Some
            ==> ({
            let t = canned_text(config, chain_id, client_version, req)->Some_0;
            t.len() == 12 + client_version.len() && t.subrange(0, 12) == "RPC-Gateway/"@ && t.skip(12)
                == client_version
        }),
        req == Some(EthRequest::EthChainId) && canned_text(config, chain_id, client_version, req) is Some ==> ({
            let t = canned_text(config, chain_id, client_version, req)->Some_0;
            t.len() >= 3 && t[0] == '0' && t[1] == 'x' && scan_digits(0, t.skip(2), 16, u64::MAX as int)
                == Ok::<int, IntParseError>(chain_id as int)
        }),
{
    reveal_strlit("RPC-Gateway/");
    if let Some(t) = canned_text(config, chain_id, client_version, req) {
        if req == Some(EthRequest::Web3ClientVersion) {
            assert(t.subrange(0, 12) =~= "RPC-Gateway/"@);
            assert(t.skip(12) =~= client_version);
        }
        if req == Some(EthRequest::EthChainId) {
            let d = digits_of(chain_id as nat, 16);
            lemma_digits_roundtrip(chain_id as nat, 16, u64::MAX as int);
            assert(t.skip(2) =~= d);
            assert(d.len() >= 1);
        }
    }
}

/// The gateway's own answer to `req`, a JSON string, where it gives one.
pub fn try_canned_response(
    config: &CannedResponseConfig,
    chain_id: u64,
    client_version: &str,
    req: &Option<EthRequest>,
) -> (r: Option<ResponseResult>)
    ensures
        match canned_text(*config, chain_id, client_version@, *req) {
            None => r is None,
            Some(t) => r == Some(ResponseResult::Success(json_string(t))),
        },
        r is Some <==> config.enabled && ((*req == Some(EthRequest::Web3ClientVersion)
            && config.methods.web3_client_version) || (*req == Some(EthRequest::EthChainId)
            && config.methods.eth_chain_id)),
{
    if !config.enabled {
        return None;
    }
    match req {
        Some(EthRequest::Web3ClientVersion) => {
            if config.methods.web3_client_version {
                let mut v = chars_of("RPC-Gateway/");
                let mut rest = chars_of(client_version);
                v.append(&mut rest);
                let text = string_from_chars(&v);
                Some(ResponseResult::Success(json_string_value(text)))
            } else {
                None
            }
        },
        Some(EthRequest::EthChainId) => {
            if config.methods.eth_chain_id {
                let mut v: Vec<char> = Vec::new();
                v.push('0');
                v.push('x');
                let mut digits = format_digits(chain_id as u128, 16);
                v.append(&mut digits);
                assert(v@ =~= seq!['0', 'x'] + digits_of(chain_id as nat, 16));
                let text = string_from_chars(&v);
                Some(ResponseResult::Success(json_string_value(text)))
            } else {
                None
            }
        },
        _ => None,
    }
}

/// What caching a response involves: the key it is stored under and how long, in seconds.
#[derive(Debug, Clone, PartialEq, Eq)]
pub struct CacheIntent {
    pub key: String,
    pub ttl: u64,
}

/// Whether `r` is the caching of a response to `req` under `key`: none where the chain has no
/// cache or the call was not understood; else the time to live of the request against the
/// latest block number the chain's manager holds, none where it has none.
pub open spec fn is_cache_intent(ttl_manager: Option<&TTLManager>, req: Option<EthRequest>, key: String, r: Option<CacheIntent>) -> bool {
    match (ttl_manager, req) {
        (Some(m), Some(q)) => match ttl_for_request(m.block_time, q, latest_value(m.latest_block_number)) {
            None => r is None,
            Some(t) => r == Some(CacheIntent { key, ttl: t }),
        },
        _ => r is None,
    }
}

/// Whether a response to `req` is cached, and how: only where the chain has a cache, the call
/// was understood, and the method's responses are cacheable.
pub fn get_cache_intent(ttl_manager: Option<&TTLManager>, req: &Option<EthRequest>, key: String) -> (r: Option<CacheIntent>)
    ensures
        is_cache_intent(ttl_manager, *req, key, r),
{
    let manager = match ttl_manager {
        Some(m) => m,
        None => return None,
    };
    let req = match req {
        Some(q) => q,
        None => return None,
    };
    match manager.get_ttl(req) {
        Some(ttl) => Some(CacheIntent { key, ttl }),
        None => None,
    }
}

/// What the call is answered when forwarding gave `result`: the upstream's result, or an
/// internal error naming what failed.
pub fn forward_outcome(result: Result<RpcResponse, RequestPoolError>) -> (r: ChainHandlerResponse)
    ensures
        match result {
            Ok(resp) => r.response_source == ResponseSource::Upstream && r.response_result == resp.result,
            Err(RequestPoolError::NoUpstreamsAvailable) => r.response_source == ResponseSource::PreUpstreamError
                && is_error_result(r.response_result, -32603, "No upstreams available"@),
            Err(RequestPoolError::UpstreamError(UpstreamError::RequestError(_))) => r.response_source
                == ResponseSource::PreUpstreamError && is_error_result(
                r.response_result,
                -32603,
                "Could not forward request to upstream"@,
            ),
            Err(RequestPoolError::UpstreamError(UpstreamError::ResponseError(_))) => r.response_source
                == ResponseSource::Upstream && is_error_result(r.response_result, -32603, "Upstream response error"@),
        },
{
    match result {
        Ok(response) => ChainHandlerResponse {
            response_source: ResponseSource::Upstream,
            response_result: response.result,
        },
        Err(RequestPoolError::NoUpstreamsAvailable) => ChainHandlerResponse {
            response_source: ResponseSource::PreUpstreamError,
            response_result: ResponseResult::Error(RpcError::internal_error_with("No upstreams available")),
        },
        Err(RequestPoolError::UpstreamError(UpstreamError::RequestError(_))) => ChainHandlerResponse {
            response_source: ResponseSource::PreUpstreamError,
            response_result: ResponseResult::Error(
                RpcError::internal_error_with("Could not forward request to upstream"),
            ),
        },
        Err(RequestPoolError::UpstreamError(UpstreamError::ResponseError(_))) => ChainHandlerResponse {
            response_source: ResponseSource::Upstream,
            response_result: ResponseResult::Error(RpcError::internal_error_with("Upstream response error")),
        },
    }
}

/// A cache hit is answered as a cached success.
pub fn cached_response(hit: Option<serde_json::Value>) -> (r: Option<ChainHandlerResponse>)
    ensures
        match hit {
            Some(v) => r matches Some(x) && x.response_source == ResponseSource::Cached && x.response_result
                == ResponseResult::Success(v),
            None => r is None,
        },
{
    match hit {
        Some(v) => Some(
            ChainHandlerResponse { response_source: ResponseSource::Cached, response_result: ResponseResult::Success(v) },
        ),
        None => None,
    }
}

/// What to store in the cache after forwarding: only a success that came from the upstream.
pub fn value_to_cache(response: &ChainHandlerResponse) -> (r: Option<serde_json::Value>)
    ensures
        match response.response_result {
            ResponseResult::Success(v) => if response.response_source == ResponseSource::Upstream {
                r == Some(v)
            } else {
                r is None
            },
            ResponseResult::Error(_) => r is None,
        },
{
    match &response.response_source {
        ResponseSource::Upstream => match &response.response_result {
            ResponseResult::Success(v) => Some(v.clone()),
            ResponseResult::Error(_) => None,
        },
        _ => None,
    }
}

/// What happens next to a call served through the cache and the upstream.
#[derive(Debug)]
pub enum CacheEvent {
    /// The call arrives.
    Start,
    /// The cache was asked for the call's key and gave this.
    LookedUp(Option<serde_json::Value>),
    /// The call was forwarded upstream and this came of it.
    Forwarded(ChainHandlerResponse),
}

/// What the caller of [`cache_step`] does next.
#[derive(Debug)]
pub enum CacheAction {
    /// Ask the cache for `key`.
    Lookup(String),
    /// Forward the call upstream.
    Forward,
    /// Store `value` under `key` for `ttl` seconds, then answer `response`.
    StoreAndAnswer { key: String, value: serde_json::Value, ttl: u64, response: ChainHandlerResponse },
    /// Answer `response`.
    Answer(ChainHandlerResponse),
}

/// The next action of a call served through the cache (where the chain has one and the call
/// has a cache intent) and the upstream: look the key up first; answer a hit as cached without
/// forwarding; else forward, and store what came back only where it is a success from the
/// upstream.
pub open spec fn cache_action(has_cache: bool, intent: Option<CacheIntent>, event: CacheEvent) -> CacheAction {
    match event {
        CacheEvent::Start => if has_cache && intent is Some {
            CacheAction::Lookup(intent->Some_0.key)
        } else {
            CacheAction::Forward
        },
        CacheEvent::LookedUp(Some(v)) => CacheAction::Answer(
            ChainHandlerResponse { response_source: ResponseSource::Cached, response_result: ResponseResult::Success(v) },
        ),
        CacheEvent::LookedUp(None) => CacheAction::Forward,
        CacheEvent::Forwarded(response) => if has_cache && intent is Some && response.response_source
            == ResponseSource::Upstream && response.response_result is Success {
            CacheAction::StoreAndAnswer {
                key: intent->Some_0.key,
                value: response.response_result->Success_0,
                ttl: intent->Some_0.ttl,
                response,
            }
        } else {
            CacheAction::Answer(response)
        },
    }
}

/// Decides the next action of a call served through the cache and the upstream (see
/// [`cache_action`]).
pub fn cache_step(has_cache: bool, intent: &Option<CacheIntent>, event: CacheEvent) -> (r: CacheAction)
    ensures
        r == cache_action(has_cache, *intent, event),
{
    match event {
        CacheEvent::Start => match intent {
            Some(i) => if has_cache {
                CacheAction::Lookup(i.key.clone())
            } else {
                CacheAction::Forward
            },
            None => CacheAction::Forward,
        },
        CacheEvent::LookedUp(hit) => match cached_response(hit) {
            Some(response) => CacheAction::Answer(response),
            None => CacheAction::Forward,
        },
        CacheEvent::Forwarded(response) => match intent {
            Some(i) => if has_cache {
                match value_to_cache(&response) {
                    Some(value) => CacheAction::StoreAndAnswer { key: i.key.clone(), value, ttl: i.ttl, response },
                    None => CacheAction::Answer(response),
                }
            } else {
                CacheAction::Answer(response)
            },
            None => CacheAction::Answer(response),
        },
    }
}

/// A call through a chain's cache: a hit is answered from the cache and never forwarded; a miss
/// is forwarded, and what comes back is stored under the call's key, for its lifetime, exactly
/// when it is a success from the upstream; either way the caller gets what came back.
pub proof fn lemma_cache_then_upstream(intent: CacheIntent, hit: serde_json::Value, response: ChainHandlerResponse)
    ensures
        cache_action(true, Some(intent), CacheEvent::Start) == CacheAction::Lookup(intent.key),
        cache_action(true, Some(intent), CacheEvent::LookedUp(Some(hit))) matches CacheAction::Answer(x)
            && x.response_source == ResponseSource::Cached && x.response_result == ResponseResult::Success(hit),
        cache_action(true, Some(intent), CacheEvent::LookedUp(None)) == CacheAction::Forward,
        match cache_action(true, Some(intent), CacheEvent::Forwarded(response)) {
            CacheAction::StoreAndAnswer { key, value, ttl, response: answer } => key == intent.key && ttl
                == intent.ttl && answer == response && response.response_source == ResponseSource::Upstream
                && response.response_result == ResponseResult::Success(value),
            CacheAction::Answer(answer) => answer == response && !(response.response_source
                == ResponseSource::Upstream && response.response_result is Success),
            _ => false,
        },
{
}

/// The response a caller gets from a shared upstream request: a caller that joined a request
/// already in flight sees it as coalesced.
pub fn coalesced_response(result: ChainHandlerResponse, coalesced: bool) -> (r: ChainHandlerResponse)
    ensures
        r.response_result == result.response_result,
        r.response_source == (if coalesced {
            ResponseSource::Coalesced
        } else {
            result.response_source
        }),
{
    if coalesced {
        ChainHandlerResponse { response_source: ResponseSource::Coalesced, response_result: result.response_result }
    } else {
        result
    }
}

/// The key identical calls are coalesced under: the cache key where there is one, else the
/// method and its serialized parameters joined by a colon.
pub fn coalescing_key(cache_key: Option<String>, method: &String, params_json: &String) -> (r: String)
    ensures
        match cache_key {
            Some(k) => r@ == k@,
            None => r@ == method@ + seq![':'] + params_json@,
        },
{
    match cache_key {
        Some(k) => k,
        None => {
            let mut v = chars_of(method.as_str());
            v.push(':');
            let mut p = chars_of(params_json.as_str());
            v.append(&mut p);
            string_from_chars(&v)
        },
    }
}

/// What to do with one call of a request.
#[derive(Debug)]
pub enum CallAction {
    /// Serve this method call.
    Serve(PreservedMethodCall),
    /// A notification: nothing to answer.
    Ignore,
    /// Answer at once.
    Respond(RpcResponse),
}

/// Whether `r` serves the method call `m` read from `raw`.
pub open spec fn serves(r: CallAction, raw: bytes::Bytes, m: crate::request::RpcMethodCall) -> bool {
    match r {
        CallAction::Serve(pm) => pm.raw == raw && pm.deserialized == m,
        _ => false,
    }
}

/// Whether `r` answers "Invalid request" to the call with id `id`.
pub open spec fn responds_invalid(r: CallAction, id: Id) -> bool {
    match r {
        CallAction::Respond(resp) => resp.id == id && is_error_result(resp.result, -32600, "Invalid request"@),
        _ => false,
    }
}

/// Method calls are served, notifications get no answer, invalid calls are answered
/// "Invalid request" with their id.
pub fn dispatch_call(call: PreservedSingleCall) -> (r: CallAction)
    ensures
        call.deserialized is MethodCall ==> serves(r, call.raw, call.deserialized->MethodCall_0),
        call.deserialized is Notification ==> r is Ignore,
        call.deserialized matches RpcCall::Invalid { id } ==> responds_invalid(r, id),
{
    let PreservedSingleCall { raw, deserialized } = call;
    match deserialized {
        RpcCall::MethodCall(method_call) => {
            CallAction::Serve(PreservedMethodCall { deserialized: method_call, raw })
        },
        RpcCall::Notification(n) => {
            CallAction::Ignore
        },
        RpcCall::Invalid { id } => {
            CallAction::Respond(RpcResponse::invalid_request(id))
        },
    }
}

/// Whether a result is reported as a success.
pub fn response_success_label(result: &ResponseResult) -> (r: &'static str)
    ensures
        r@ == (if result is Success {
            "true"@
        } else {
            "false"@
        }),
{
    match result {
        ResponseResult::Success(_) => "true",
        ResponseResult::Error(_) => "false",
    }
}

/// How a method call is to be answered.
#[derive(Debug)]
pub enum RequestRoute {
    /// Answer at once.
    Respond(ChainHandlerResponse),
    /// Through the cache and upstream, sharing the upstream request with identical calls.
    Coalesce(Option<CacheIntent>),
    /// Through the cache and upstream, alone.
    Direct(Option<CacheIntent>),
}

/// Decides how a method call is answered: refused filter methods first, then the gateway's own
/// answers, else through the cache (where the call is cacheable) and the upstream, coalesced
/// where configured for the method.
pub fn route_request(
    method: &String,
    req: &Option<EthRequest>,
    canned: &CannedResponseConfig,
    chain_id: u64,
    client_version: &str,
    coalescing: &RequestCoalescingConfig,
    ttl_manager: Option<&TTLManager>,
    cache_key: String,
) -> (r: RequestRoute)
    ensures
        unsupported_method(method@) ==> (r matches RequestRoute::Respond(x) && x.response_source
            == ResponseSource::Unsupported && is_error_result(x.response_result, -32601, "Method not found"@)),
        !unsupported_method(method@) && canned_text(*canned, chain_id, client_version@, *req) is Some ==> (r matches RequestRoute::Respond(x)
            && x.response_source == ResponseSource::Canned && x.response_result == ResponseResult::Success(
            json_string(canned_text(*canned, chain_id, client_version@, *req)->Some_0),
        )),
        !unsupported_method(method@) && canned_text(*canned, chain_id, client_version@, *req) is None ==> (
        r is Coalesce <==> (coalescing.enabled && lists_method(coalescing.methods@, method@))),
        !unsupported_method(method@) && canned_text(*canned, chain_id, client_version@, *req) is None ==> match r {
            RequestRoute::Coalesce(intent) => is_cache_intent(ttl_manager, *req, cache_key, intent),
            RequestRoute::Direct(intent) => is_cache_intent(ttl_manager, *req, cache_key, intent),
            RequestRoute::Respond(_) => false,
        },
{
    if let Some(response) = try_unsupported_response(method) {
        return RequestRoute::Respond(response);
    }
    if let Some(response_result) = try_canned_response(canned, chain_id, client_version, req) {
        return RequestRoute::Respond(
            ChainHandlerResponse { response_source: ResponseSource::Canned, response_result },
        );
    }
    let cache_intent = get_cache_intent(ttl_manager, req, cache_key);
    if coalescing.should_coalesce(method.as_str()) {
        RequestRoute::Coalesce(cache_intent)
    } else {
        RequestRoute::Direct(cache_intent)
    }
}

/// The response to a method call with the given id and result.
pub fn method_call_response(id: Id, result: ChainHandlerResponse) -> (r: RpcResponse)
    ensures
        r.id == id,
        r.result == result.response_result,
{
    RpcResponse::new(id, result.response_result)
}

} // verus!
