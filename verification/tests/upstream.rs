use rpc_gateway::request::Id;
use rpc_gateway::response::{ResponseResult, RpcError, RpcResponse};
use rpc_gateway::upstream::{readiness_from_response, readiness_verdict, RetryLoop};

#[test]
fn retries_then_gives_up() {
    let mut l = RetryLoop::new(2, 100, false);
    assert_eq!(l.after_failure(), Some((100, 0)));
    assert_eq!(l.after_failure(), Some((100, 0)));
    assert_eq!(l.after_failure(), None);
    assert_eq!(l.attempt, 3);
}

#[test]
fn no_retries_means_one_attempt() {
    let mut l = RetryLoop::new(0, 100, true);
    assert_eq!(l.after_failure(), None);
}

#[test]
fn jitter_adds_less_than_a_second() {
    for _ in 0..50 {
        let mut l = RetryLoop::new(1, 250, true);
        let (d, extra) = l.after_failure().unwrap();
        assert_eq!(d, 250);
        assert!(extra < 1000);
    }
    let mut l = RetryLoop::new(3, 10, true);
    assert_eq!(l.after_failure_with(999), Some((10, 999)));
    let mut l = RetryLoop::new(3, 10, false);
    assert_eq!(l.after_failure_with(999), Some((10, 0)));
}

#[test]
fn readiness_needs_the_right_chain_id() {
    assert!(readiness_verdict(Some(1), 1));
    assert!(!readiness_verdict(Some(2), 1));
    assert!(!readiness_verdict(None, 1));
    let answer = |v: &str| {
        Ok(RpcResponse::new(Id::Number(1), ResponseResult::Success(serde_json::Value::String(v.to_string()))))
    };
    assert!(readiness_from_response(&answer("0x2105"), 8453));
    assert!(!readiness_from_response(&answer("0x1"), 8453));
    assert!(!readiness_from_response(&answer("not a number"), 1));
    let failed = Ok(RpcResponse::new(Id::Number(1), ResponseResult::Error(RpcError::internal_error_with("x"))));
    assert!(!readiness_from_response(&failed, 1));
}

#[test]
fn the_largest_retry_count_is_accepted() {
    let mut l = RetryLoop::new(u32::MAX, 5, false);
    assert_eq!(l.after_failure(), Some((5, 0)));
    assert_eq!(l.attempt, 1);
    l.attempt = u32::MAX as u64;
    assert_eq!(l.after_failure(), None);
    assert_eq!(l.attempt, u32::MAX as u64 + 1);
}

#[test]
fn the_largest_retry_delay_is_accepted() {
    let mut l = RetryLoop::new(1, u64::MAX, true);
    assert_eq!(l.after_failure_with(999), Some((u64::MAX, 999)));
}
