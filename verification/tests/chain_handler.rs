use bytes::Bytes;
use rpc_gateway::chain_handler::{
    cache_step, cached_response, coalesced_response, coalescing_key, dispatch_call, forward_outcome,
    get_cache_intent, method_call_response, response_success_label, route_request,
    try_canned_response, try_unsupported_response, value_to_cache, CacheIntent, CallAction,
    ChainHandlerResponse, RequestRoute, ResponseSource, CacheAction, CacheEvent,
};
use rpc_gateway::eth::{BlockId, BlockNumberOrTag, EthRequest};
use rpc_gateway::gateway_config::{CannedResponseConfig, CannedResponseMethods, RequestCoalescingConfig};
use rpc_gateway::lazy_request::PreservedSingleCall;
use rpc_gateway::request::{no_params, Id, RpcCall, RpcMethodCall, RpcNotification, Version};
use rpc_gateway::request_pool::RequestPoolError;
use rpc_gateway::response::{ResponseResult, RpcError, RpcResponse};
use rpc_gateway::ttl::{TTLManager, ONE_YEAR};

fn canned_all() -> CannedResponseConfig {
    CannedResponseConfig {
        enabled: true,
        methods: CannedResponseMethods { web3_client_version: true, eth_chain_id: true },
    }
}

fn success_text(r: &ResponseResult) -> Option<String> {
    match r {
        ResponseResult::Success(serde_json::Value::String(s)) => Some(s.clone()),
        _ => None,
    }
}

fn error_of(r: &ResponseResult) -> Option<(i64, String)> {
    match r {
        ResponseResult::Error(e) => Some((e.code, e.message.clone())),
        _ => None,
    }
}

#[test]
fn filter_methods_are_refused() {
    for m in ["eth_newBlockFilter", "eth_newPendingTransactionFilter"] {
        let r = try_unsupported_response(&m.to_string()).unwrap();
        assert_eq!(r.response_source, ResponseSource::Unsupported);
        assert_eq!(error_of(&r.response_result), Some((-32601, "Method not found".to_string())));
    }
    assert!(try_unsupported_response(&"eth_call".to_string()).is_none());
}

#[test]
fn canned_client_version_and_chain_id() {
    let version = try_canned_response(&canned_all(), 1, "0.1.0", &Some(EthRequest::Web3ClientVersion));
    assert_eq!(success_text(&version.unwrap()), Some("RPC-Gateway/0.1.0".to_string()));
    let chain = try_canned_response(&canned_all(), 8453, "0.1.0", &Some(EthRequest::EthChainId));
    assert_eq!(success_text(&chain.unwrap()), Some("0x2105".to_string()));
    let one = try_canned_response(&canned_all(), 1, "0.1.0", &Some(EthRequest::EthChainId));
    assert_eq!(success_text(&one.unwrap()), Some("0x1".to_string()));
}

#[test]
fn canned_responses_respect_configuration() {
    let disabled = CannedResponseConfig { enabled: false, ..canned_all() };
    assert!(try_canned_response(&disabled, 1, "v", &Some(EthRequest::EthChainId)).is_none());
    let no_chain_id = CannedResponseConfig {
        enabled: true,
        methods: CannedResponseMethods { web3_client_version: true, eth_chain_id: false },
    };
    assert!(try_canned_response(&no_chain_id, 1, "v", &Some(EthRequest::EthChainId)).is_none());
    assert!(try_canned_response(&canned_all(), 1, "v", &Some(EthRequest::EthBlockNumber)).is_none());
    assert!(try_canned_response(&canned_all(), 1, "v", &None).is_none());
}

#[test]
fn cache_intent_needs_a_cache_and_a_cacheable_call() {
    let manager = TTLManager::new(12);
    let intent = get_cache_intent(Some(&manager), &Some(EthRequest::EthBlockNumber), "k".to_string());
    assert_eq!(intent, Some(CacheIntent { key: "k".to_string(), ttl: 12 }));
    let by_hash = get_cache_intent(
        Some(&manager),
        &Some(EthRequest::EthGetBlockByHash { hash: [0; 32], full: false }),
        "h".to_string(),
    );
    assert_eq!(by_hash, Some(CacheIntent { key: "h".to_string(), ttl: ONE_YEAR }));
    let pending = get_cache_intent(
        Some(&manager),
        &Some(EthRequest::EthGetBlockByNumber { block_number: BlockNumberOrTag::Pending, full: false }),
        "p".to_string(),
    );
    assert_eq!(pending, None);
    assert_eq!(get_cache_intent(None, &Some(EthRequest::EthBlockNumber), "k".to_string()), None);
    assert_eq!(get_cache_intent(Some(&manager), &None, "k".to_string()), None);
}

#[test]
fn forward_outcomes() {
    let ok = forward_outcome(Ok(RpcResponse::new(
        Id::Number(1),
        ResponseResult::Success(serde_json::Value::String("0x10".to_string())),
    )));
    assert_eq!(ok.response_source, ResponseSource::Upstream);
    assert_eq!(success_text(&ok.response_result), Some("0x10".to_string()));
    let none = forward_outcome(Err(RequestPoolError::NoUpstreamsAvailable));
    assert_eq!(none.response_source, ResponseSource::PreUpstreamError);
    assert_eq!(
        error_of(&none.response_result),
        Some((-32603, "No upstreams available".to_string()))
    );
}

#[test]
fn cache_hits_and_what_is_cached() {
    let hit = cached_response(Some(serde_json::Value::Bool(true))).unwrap();
    assert_eq!(hit.response_source, ResponseSource::Cached);
    assert!(cached_response(None).is_none());

    let upstream = ChainHandlerResponse {
        response_source: ResponseSource::Upstream,
        response_result: ResponseResult::Success(serde_json::Value::Bool(true)),
    };
    assert_eq!(value_to_cache(&upstream), Some(serde_json::Value::Bool(true)));
    let cached = ChainHandlerResponse { response_source: ResponseSource::Cached, ..upstream.clone() };
    assert_eq!(value_to_cache(&cached), None);
    let failed = ChainHandlerResponse {
        response_source: ResponseSource::Upstream,
        response_result: ResponseResult::Error(RpcError::internal_error_with("Upstream response error")),
    };
    assert_eq!(value_to_cache(&failed), None);
}

#[test]
fn coalesced_responses_are_labelled() {
    let r = ChainHandlerResponse {
        response_source: ResponseSource::Upstream,
        response_result: ResponseResult::Success(serde_json::Value::Null),
    };
    assert_eq!(coalesced_response(r.clone(), true).response_source, ResponseSource::Coalesced);
    assert_eq!(coalesced_response(r, false).response_source, ResponseSource::Upstream);
    assert_eq!(ResponseSource::Coalesced.as_str(), "coalesced");
    assert_eq!(ResponseSource::PreUpstreamError.as_str(), "pre_upstream_error");
}

#[test]
fn coalescing_keys() {
    assert_eq!(
        coalescing_key(None, &"eth_call".to_string(), &"[1,2]".to_string()),
        "eth_call:[1,2]"
    );
    assert_eq!(
        coalescing_key(Some("cache-key".to_string()), &"eth_call".to_string(), &"[]".to_string()),
        "cache-key"
    );
}

fn method_call(method: &str, id: i64) -> RpcMethodCall {
    RpcMethodCall { jsonrpc: Version::V2, method: method.to_string(), params: no_params(), id: Id::Number(id) }
}

#[test]
fn calls_are_dispatched_by_kind() {
    let raw = Bytes::from_static(b"{}");
    match dispatch_call(PreservedSingleCall { raw: raw.clone(), deserialized: RpcCall::MethodCall(method_call("eth_call", 3)) }) {
        CallAction::Serve(m) => {
            assert_eq!(m.raw, raw);
            assert_eq!(m.deserialized.method, "eth_call");
        }
        _ => panic!("expected a method call to be served"),
    }
    let note = RpcCall::Notification(RpcNotification { jsonrpc: None, method: "x".to_string(), params: no_params() });
    assert!(matches!(dispatch_call(PreservedSingleCall { raw: raw.clone(), deserialized: note }), CallAction::Ignore));
    match dispatch_call(PreservedSingleCall { raw, deserialized: RpcCall::Invalid { id: Id::Number(5) } }) {
        CallAction::Respond(resp) => {
            assert_eq!(resp.id, Id::Number(5));
            assert_eq!(error_of(&resp.result), Some((-32600, "Invalid request".to_string())));
        }
        _ => panic!("expected an answer"),
    }
}

#[test]
fn success_labels() {
    assert_eq!(response_success_label(&ResponseResult::Success(serde_json::Value::Null)), "true");
    assert_eq!(response_success_label(&ResponseResult::Error(RpcError::method_not_found())), "false");
}

#[test]
fn requests_are_routed() {
    let coalescing = RequestCoalescingConfig { enabled: true, methods: vec!["eth_blockNumber".to_string()] };
    let manager = TTLManager::new(2);
    let unsupported = route_request(
        &"eth_newBlockFilter".to_string(),
        &None,
        &canned_all(),
        1,
        "v",
        &coalescing,
        Some(&manager),
        "k".to_string(),
    );
    match unsupported {
        RequestRoute::Respond(r) => {
            assert_eq!(r.response_source, ResponseSource::Unsupported);
            assert_eq!(error_of(&r.response_result), Some((-32601, "Method not found".to_string())));
        }
        _ => panic!("a refused method is answered at once"),
    }
    let canned = route_request(
        &"eth_chainId".to_string(),
        &Some(EthRequest::EthChainId),
        &canned_all(),
        1,
        "v",
        &coalescing,
        Some(&manager),
        "k".to_string(),
    );
    assert!(matches!(canned, RequestRoute::Respond(r) if r.response_source == ResponseSource::Canned));
    let coalesced = route_request(
        &"eth_blockNumber".to_string(),
        &Some(EthRequest::EthBlockNumber),
        &canned_all(),
        1,
        "v",
        &coalescing,
        Some(&manager),
        "k".to_string(),
    );
    assert!(matches!(coalesced, RequestRoute::Coalesce(Some(CacheIntent { ttl: 2, .. }))));
    let direct = route_request(
        &"eth_getBalance".to_string(),
        &Some(EthRequest::EthGetBalance { address: [0; 20], block_id: Some(BlockId::Hash([1; 32])) }),
        &canned_all(),
        1,
        "v",
        &coalescing,
        None,
        "k".to_string(),
    );
    assert!(matches!(direct, RequestRoute::Direct(None)));
}

#[test]
fn method_call_responses_carry_the_call_id() {
    let r = method_call_response(
        Id::String("abc".to_string()),
        ChainHandlerResponse {
            response_source: ResponseSource::Cached,
            response_result: ResponseResult::Success(serde_json::Value::Null),
        },
    );
    assert_eq!(r.id, Id::String("abc".to_string()));
    assert_eq!(r.jsonrpc, Version::V2);
}

#[test]
fn calls_through_the_cache_take_these_steps() {
    let intent = Some(CacheIntent { key: "k".to_string(), ttl: 12 });
    assert!(matches!(cache_step(true, &intent, CacheEvent::Start), CacheAction::Lookup(k) if k == "k"));
    assert!(matches!(cache_step(false, &intent, CacheEvent::Start), CacheAction::Forward));
    assert!(matches!(cache_step(true, &None, CacheEvent::Start), CacheAction::Forward));

    let hit = serde_json::Value::String("0x10".to_string());
    match cache_step(true, &intent, CacheEvent::LookedUp(Some(hit.clone()))) {
        CacheAction::Answer(r) => {
            assert_eq!(r.response_source, ResponseSource::Cached);
            assert!(matches!(&r.response_result, ResponseResult::Success(v) if *v == hit));
        }
        _ => panic!("a hit is answered from the cache"),
    }
    assert!(matches!(cache_step(true, &intent, CacheEvent::LookedUp(None)), CacheAction::Forward));

    let upstream = ChainHandlerResponse {
        response_source: ResponseSource::Upstream,
        response_result: ResponseResult::Success(hit.clone()),
    };
    match cache_step(true, &intent, CacheEvent::Forwarded(upstream.clone())) {
        CacheAction::StoreAndAnswer { key, value, ttl, response } => {
            assert_eq!((key.as_str(), value, ttl), ("k", hit.clone(), 12));
            assert_eq!(response.response_source, ResponseSource::Upstream);
            assert!(matches!(&response.response_result, ResponseResult::Success(v) if *v == hit));
        }
        _ => panic!("an upstream success is stored"),
    }
    let failed = ChainHandlerResponse {
        response_source: ResponseSource::Upstream,
        response_result: ResponseResult::Error(RpcError::internal_error_with("x")),
    };
    assert!(matches!(cache_step(true, &intent, CacheEvent::Forwarded(failed)), CacheAction::Answer(_)));
    assert!(matches!(cache_step(false, &intent, CacheEvent::Forwarded(upstream)), CacheAction::Answer(_)));
}
