use rpc_gateway::digits::IntParseError;
use rpc_gateway::rpc::{
    internal_error, invalid_request, parse_error, targets_not_configured, RpcInboundErrorPayload,
    RpcInboundErrorResponse, RpcInboundResponse, RpcInboundSuccessResponse, RpcOutboundErrorPayload,
    RpcOutboundResponse, SubscriptionId,
};

#[test]
fn subscription_id_text_is_lower_case_hex_of_fixed_width() {
    assert_eq!(SubscriptionId(0).to_hex_string(), "0x00000000000000000000000000000000");
    assert_eq!(SubscriptionId(255).to_hex_string(), "0x000000000000000000000000000000ff");
    assert_eq!(
        SubscriptionId(u128::MAX - 1).to_hex_string(),
        "0xfffffffffffffffffffffffffffffffe"
    );
}

#[test]
fn subscription_id_upper_text() {
    assert_eq!(SubscriptionId(0xabc).to_upper_hex_string(), "0x00000000000000000000000000000ABC");
    assert_eq!(
        SubscriptionId(u128::MAX).to_upper_hex_string(),
        format!("{:#034X?}", u128::MAX)
    );
}

#[test]
fn subscription_id_round_trips() {
    for n in [0u128, 1, 0xdead_beef, u128::MAX - 1, u128::MAX] {
        let id = SubscriptionId(n);
        assert_eq!(SubscriptionId::try_from_str(&id.to_hex_string()).unwrap().value(), n);
        assert_eq!(SubscriptionId::try_from_str(&id.to_upper_hex_string()).unwrap().value(), n);
    }
}

#[test]
fn subscription_id_parse_accepts_optional_prefix_and_any_case() {
    assert_eq!(SubscriptionId::try_from_str("ff").unwrap().value(), 255);
    assert_eq!(SubscriptionId::try_from_str("0xFf").unwrap().value(), 255);
    assert_eq!(SubscriptionId::try_from_str("+10").unwrap().value(), 16);
}

#[test]
fn subscription_id_parse_errors() {
    assert_eq!(SubscriptionId::try_from_str("").err(), Some(IntParseError::Empty));
    assert_eq!(SubscriptionId::try_from_str("0x").err(), Some(IntParseError::Empty));
    assert_eq!(SubscriptionId::try_from_str("0xzz").err(), Some(IntParseError::InvalidDigit));
    assert_eq!(SubscriptionId::try_from_str("-").err(), Some(IntParseError::InvalidDigit));
    assert_eq!(
        SubscriptionId::try_from_str("1ffffffffffffffffffffffffffffffff").err(),
        Some(IntParseError::PosOverflow)
    );
}

#[test]
fn random_subscription_ids_stay_below_max() {
    for _ in 0..100 {
        assert!(SubscriptionId::rand().value() < u128::MAX);
    }
}

#[test]
fn static_error_payloads() {
    assert_eq!(parse_error().code, -32700);
    assert_eq!(parse_error().message, "Parse error");
    assert_eq!(invalid_request().code, -32600);
    assert_eq!(invalid_request().message, "Invalid request");
    assert_eq!(internal_error().code, -32603);
    assert_eq!(internal_error().message, "Internal error");
    assert_eq!(targets_not_configured().code, -33000);
    assert_eq!(targets_not_configured().message, "Targets not configured");
}

#[test]
fn inbound_responses_become_outbound_ones() {
    let ok = RpcOutboundResponse::from(RpcInboundResponse::Success(RpcInboundSuccessResponse {
        result: "0x1".to_string(),
        id: Some(4),
    }));
    match ok {
        RpcOutboundResponse::Success(s) => {
            assert_eq!(s.result, "0x1");
            assert_eq!(s.id, Some(4));
            assert_eq!(s.jsonrpc, "2.0");
        }
        _ => panic!("expected a success"),
    }
    let err = RpcOutboundResponse::from(RpcInboundResponse::Error(RpcInboundErrorResponse {
        error: RpcInboundErrorPayload { code: -32000, message: "boom".to_string() },
        id: None,
    }));
    match err {
        RpcOutboundResponse::Error(e) => {
            assert_eq!(e.id, None);
            match e.error {
                RpcOutboundErrorPayload::Dynamic(d) => {
                    assert_eq!(d.code, -32000);
                    assert_eq!(d.message, "boom");
                }
                _ => panic!("expected a dynamic payload"),
            }
        }
        _ => panic!("expected an error"),
    }
}
