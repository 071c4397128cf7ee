use bytes::Bytes;
use rpc_gateway::gateway::{plan_gateway_request, responses_as_batch, Gateway, GatewayPlan, GatewayRequest};
use rpc_gateway::gateway_config::{ChainConfig, ProjectConfig, UpstreamConfig};
use rpc_gateway::lazy_request::{PreservedRequest, PreservedSingleCall};
use rpc_gateway::request::{null_id, Id, RpcCall};
use rpc_gateway::response::{Response, ResponseResult, RpcResponse};
use rpc_gateway::server::{
    invalid_request_body, project_or_not_found, response_category, route_path, track_http_response, ServerRoute,
    INVALID_REQUEST_CATEGORY,
};

fn response(id: i64) -> RpcResponse {
    RpcResponse::new(Id::Number(id), ResponseResult::Success(serde_json::Value::Null))
}

fn invalid_call() -> PreservedSingleCall {
    PreservedSingleCall { raw: Bytes::from_static(b"{}"), deserialized: RpcCall::Invalid { id: null_id() } }
}

fn internal_error_text(r: &Response) -> Option<String> {
    match r {
        Response::Single(RpcResponse { id: Id::Null, result: ResponseResult::Error(e), .. }) if e.code == -32603 => {
            Some(e.message.clone())
        }
        _ => None,
    }
}

#[test]
fn batch_keeps_responses_in_order() {
    match responses_as_batch(vec![Some(response(1)), None, Some(response(3))]) {
        Some(Response::Batch(v)) => {
            let ids: Vec<Id> = v.into_iter().map(|r| r.id).collect();
            assert_eq!(ids, vec![Id::Number(1), Id::Number(3)]);
        }
        _ => panic!("expected a batch"),
    }
}

#[test]
fn batch_of_notifications_gets_no_response() {
    assert!(responses_as_batch(vec![None, None]).is_none());
    assert!(responses_as_batch(vec![]).is_none());
}

fn project(key: Option<&str>) -> ProjectConfig {
    ProjectConfig { name: "p".to_string(), key: key.map(|k| k.to_string()) }
}

#[test]
fn unsupported_chain_is_refused_first() {
    let req = GatewayRequest::new(project(Some("a")), Some("b".to_string()), 9, PreservedRequest::Single(invalid_call()));
    match plan_gateway_request(req, false) {
        GatewayPlan::Respond(r) => assert_eq!(internal_error_text(&r), Some("Chain not supported".to_string())),
        _ => panic!("expected a refusal"),
    }
}

#[test]
fn wrong_key_is_unauthorized() {
    for (project_key, key) in [(Some("a"), Some("b")), (Some("a"), None), (None, Some("a"))] {
        let req = GatewayRequest::new(
            project(project_key),
            key.map(|k| k.to_string()),
            1,
            PreservedRequest::Batch(vec![invalid_call()]),
        );
        match plan_gateway_request(req, true) {
            GatewayPlan::Respond(r) => assert_eq!(internal_error_text(&r), Some("Unauthorized".to_string())),
            _ => panic!("expected a refusal"),
        }
    }
}

#[test]
fn authorized_requests_are_handled_call_by_call() {
    let req = GatewayRequest::new(project(Some("a")), Some("a".to_string()), 1, PreservedRequest::Batch(vec![invalid_call(), invalid_call()]));
    match plan_gateway_request(req, true) {
        GatewayPlan::Batch(calls) => assert_eq!(calls.len(), 2),
        _ => panic!("expected a batch"),
    }
    let keyless = GatewayRequest::new(project(None), None, 1, PreservedRequest::Single(invalid_call()));
    assert!(matches!(plan_gateway_request(keyless, true), GatewayPlan::Single(_)));
}

#[test]
fn http_response_labels() {
    let labels = track_http_response(8453, &"default".to_string(), INVALID_REQUEST_CATEGORY);
    assert_eq!(labels.chain_id, "8453");
    assert_eq!(labels.gateway_project, "default");
    assert_eq!(labels.response_category, "invalid_request");
    assert_eq!(track_http_response(0, &String::new(), "x").chain_id, "0");
}

#[test]
fn response_categories() {
    assert_eq!(response_category(&None), "notification_ack");
    assert_eq!(response_category(&Some(Response::Single(response(1)))), "rpc_call_single");
    assert_eq!(response_category(&Some(Response::Batch(vec![]))), "rpc_call_batch");
}

#[test]
fn server_error_answers() {
    assert_eq!(internal_error_text(&invalid_request_body()), Some("Invalid JSON-RPC request".to_string()));
    match project_or_not_found(None) {
        Err(r) => assert_eq!(internal_error_text(&r), Some("Project not found".to_string())),
        Ok(_) => panic!("expected an answer"),
    }
    assert_eq!(project_or_not_found(Some(project(None))).unwrap().name, "p");
}

#[test]
fn server_routes() {
    assert_eq!(route_path(true, false, "/health"), ServerRoute::Health);
    assert_eq!(route_path(true, false, "/health/liveness"), ServerRoute::Health);
    assert_eq!(route_path(true, false, "/health/readiness"), ServerRoute::Health);
    assert_eq!(route_path(false, true, "/health"), ServerRoute::NotFound);
    assert_eq!(route_path(false, true, "/1"), ServerRoute::DefaultChain { chain_id: 1 });
    assert_eq!(
        route_path(false, true, "/my-project/8453"),
        ServerRoute::ProjectChain { project: "my-project".to_string(), chain_id: 8453 }
    );
    assert_eq!(route_path(true, false, "/1"), ServerRoute::NotFound);
    assert_eq!(route_path(false, true, "/"), ServerRoute::NotFound);
    assert_eq!(route_path(false, true, "/abc"), ServerRoute::NotFound);
    assert_eq!(route_path(false, true, "//1"), ServerRoute::NotFound);
    assert_eq!(route_path(false, true, "/p/1/"), ServerRoute::NotFound);
    assert_eq!(route_path(false, true, "/p/1/x"), ServerRoute::NotFound);
    assert_eq!(route_path(false, true, "/p/x"), ServerRoute::NotFound);
    assert_eq!(route_path(false, true, "1"), ServerRoute::NotFound);
}

#[test]
fn server_routes_decode_escaped_segments() {
    assert_eq!(
        route_path(false, true, "/my%20project/1"),
        ServerRoute::ProjectChain { project: "my project".to_string(), chain_id: 1 }
    );
    assert_eq!(route_path(false, true, "/%31"), ServerRoute::DefaultChain { chain_id: 1 });
    assert_eq!(
        route_path(false, true, "/a%2Fb/7"),
        ServerRoute::ProjectChain { project: "a/b".to_string(), chain_id: 7 }
    );
    assert_eq!(
        route_path(false, true, "/p/%2B5"),
        ServerRoute::ProjectChain { project: "p".to_string(), chain_id: 5 }
    );
    assert_eq!(route_path(true, false, "/health%2Fliveness"), ServerRoute::NotFound);
    assert_eq!(route_path(false, false, "/1"), ServerRoute::NotFound);
}

#[test]
fn gateway_plans_with_its_handlers() {
    let mut gateway: Gateway<&'static str> = Gateway::new();
    gateway.add_handler(1, "mainnet");
    assert_eq!(gateway.handler(1), Some(&"mainnet"));
    assert_eq!(gateway.handler(2), None);
    let req = GatewayRequest::new(project(None), None, 1, PreservedRequest::Single(invalid_call()));
    let (handler, plan) = gateway.plan(req);
    assert_eq!(handler, Some(&"mainnet"));
    assert!(matches!(plan, GatewayPlan::Single(_)));
    let other = GatewayRequest::new(project(None), None, 2, PreservedRequest::Single(invalid_call()));
    let (handler, plan) = gateway.plan(other);
    assert!(handler.is_none());
    match plan {
        GatewayPlan::Respond(r) => assert_eq!(internal_error_text(&r), Some("Chain not supported".to_string())),
        _ => panic!("expected a refusal"),
    }
}

fn chain(chain_id: u64, upstreams: usize) -> ChainConfig {
    ChainConfig {
        chain_id,
        block_time: Some(12),
        upstreams: (0..upstreams).map(|i| UpstreamConfig { url: format!("http://node{i}"), weight: 1 }).collect(),
    }
}

#[test]
fn gateway_serves_each_configured_chain() {
    let chains = vec![chain(1, 1), chain(8453, 2), chain(1, 3)];
    let gateway = Gateway::from_chains(&chains, |c: &ChainConfig| c.upstreams.len()).unwrap();
    assert_eq!(gateway.handlers.len(), 2);
    assert_eq!(gateway.handler(8453), Some(&2));
    // the last configuration of a chain listed twice wins
    assert_eq!(gateway.handler(1), Some(&3));
    assert_eq!(gateway.handler(7), None);
}

#[test]
fn a_chain_without_upstreams_is_refused() {
    let chains = vec![chain(1, 1), chain(10, 0), chain(11, 0)];
    let result = Gateway::from_chains(&chains, |c: &ChainConfig| c.chain_id);
    assert!(matches!(result, Err(10)));
}
