use std::sync::Arc;

use rpc_gateway::gateway_config::{ErrorHandlingConfig, RequestCoalescingConfig};
use rpc_gateway::request::{null_id, Id};
use rpc_gateway::request_pool::{ChainRequestPool, ForwardPlan};

#[test]
fn forward_plans() {
    let retry = ErrorHandlingConfig::Retry { max_retries: 3, retry_delay_ms: 100, jitter: true };
    let pool = ChainRequestPool::new(retry, Arc::new(()));
    assert_eq!(pool.forward_plan(false), ForwardPlan::NoUpstreamsAvailable);
    assert_eq!(
        pool.forward_plan(true),
        ForwardPlan::Retry { max_retries: 3, retry_delay_ms: 100, jitter: true }
    );
    let fail_fast = ChainRequestPool::new(ErrorHandlingConfig::FailFast, Arc::new(()));
    assert_eq!(fail_fast.forward_plan(true), ForwardPlan::Once);
    let breaker = ChainRequestPool::new(ErrorHandlingConfig::CircuitBreaker, Arc::new(()));
    assert_eq!(breaker.forward_plan(true), ForwardPlan::Once);
}

#[test]
fn coalescing_config() {
    let c = RequestCoalescingConfig { enabled: true, methods: vec!["eth_call".to_string(), "eth_getLogs".to_string()] };
    assert!(c.should_coalesce("eth_getLogs"));
    assert!(!c.should_coalesce("eth_blockNumber"));
    let off = RequestCoalescingConfig { enabled: false, ..c };
    assert!(!off.should_coalesce("eth_call"));
}

#[test]
fn ids_are_displayed() {
    assert_eq!(Id::Number(-42).to_display_string(), "-42");
    assert_eq!(Id::Number(i64::MIN).to_display_string(), i64::MIN.to_string());
    assert_eq!(Id::String("abc".to_string()).to_display_string(), "abc");
    assert_eq!(null_id().to_display_string(), "null");
}
