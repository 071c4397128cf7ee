use vstd::prelude::*;

use crate::digits::{
    digit_value, scan_digits, format_padded_digits, padded_digits_of, parse_unsigned, parse_unsigned_exec, IntParseError,
    capacity, lemma_padded_roundtrip,
};
use crate::text::{chars_of, string_from_chars};

verus! {


/// The protocol version every outbound JSON-RPC message carries.
pub const JSON_RPC_VERSION: &'static str = "2.0";

/// The id of a JSON-RPC request as this gateway reads it.
pub type RpcRequestId = Option<u32>;

/// A JSON-RPC request received from a client.
#[derive(Debug, Clone)]
pub struct RpcInboundRequest {
    pub id: RpcRequestId,
    pub method: String,
    pub params: Option<Vec<String>>,
}

/// The node subscriptions a client can ask for.
#[derive(Debug, PartialEq, Eq, Structural, Hash, Clone, Copy)]
pub enum SubscriptionKind {
    NewHeads,
    NewPendingTransactions,
}

/// A subscription request together with the kind it asks for.
#[derive(Debug, Clone)]
pub struct RpcInboundSubscriptionRequest {
    pub request: RpcInboundRequest,
    pub kind: SubscriptionKind,
}

/// The id the gateway hands a client for one of its subscriptions.
#[derive(PartialEq, Eq, Structural, Hash, Clone, Copy)]
pub struct SubscriptionId(pub u128);

/// A request as it is relayed to a target endpoint.
#[derive(Debug)]
pub struct RpcOutboundRequest(pub RpcInboundRequest);

/// The parameters of a subscription notification received from a node.
#[derive(Debug)]
pub struct RpcInboundSubscriptionPayloadResponseParams {
    pub result: serde_json::Value,
}

/// A subscription notification received from a node.
#[derive(Debug)]
pub struct RpcInboundSubscriptionPayloadResponse {
    pub params: RpcInboundSubscriptionPayloadResponseParams,
}

/// The parameters of a subscription notification sent to a client.
#[derive(Debug)]
pub struct RpcOutboundSubscriptionPayloadResponseParams {
    pub result: serde_json::Value,
    pub subscription: String,
}

/// A subscription notification sent to a client.
#[derive(Debug)]
pub struct RpcOutboundSubscriptionPayloadResponse {
    pub jsonrpc: &'static str,
    pub method: String,
    pub params: RpcOutboundSubscriptionPayloadResponseParams,
}

/// A successful response received from a target endpoint.
#[derive(Debug)]
pub struct RpcInboundSuccessResponse {
    pub result: String,
    pub id: RpcRequestId,
}

/// The error object of an error response received from a target endpoint.
#[derive(Debug)]
pub struct RpcInboundErrorPayload {
    pub code: i32,
    pub message: String,
}

/// An error response received from a target endpoint.
#[derive(Debug)]
pub struct RpcInboundErrorResponse {
    pub error: RpcInboundErrorPayload,
    pub id: RpcRequestId,
}

/// Any response received from a target endpoint.
#[derive(Debug)]
pub enum RpcInboundResponse {
    Success(RpcInboundSuccessResponse),
    Error(RpcInboundErrorResponse),
}

/// A successful response sent back to a client.
#[derive(Debug)]
pub struct RpcOutboundSuccessResponse {
    pub result: String,
    pub id: RpcRequestId,
    pub jsonrpc: &'static str,
}

/// An error object whose text is fixed by the gateway.
#[derive(Debug, Clone, Copy)]
pub struct StaticRpcOutboundErrorPayload {
    pub code: i32,
    pub message: &'static str,
}

/// An error object whose text comes from a target endpoint.
#[derive(Debug)]
pub struct DynamicRpcOutboundErrorPayload {
    pub code: i32,
    pub message: String,
}

/// The error object of an outbound error response.
#[derive(Debug)]
pub enum RpcOutboundErrorPayload {
    Static(StaticRpcOutboundErrorPayload),
    Dynamic(DynamicRpcOutboundErrorPayload),
}

/// An error response sent back to a client.
#[derive(Debug)]
pub struct RpcOutboundErrorResponse {
    pub error: RpcOutboundErrorPayload,
    pub id: RpcRequestId,
    pub jsonrpc: &'static str,
}

/// Any response sent back to a client.
#[derive(Debug)]
pub enum RpcOutboundResponse {
    Success(RpcOutboundSuccessResponse),
    Error(RpcOutboundErrorResponse),
}

/// The request body was not valid JSON of a request.
pub fn parse_error() -> (p: StaticRpcOutboundErrorPayload)
    ensures
        p.code == -32700,
        p.message@ == "Parse error"@,
{
    proof {
        reveal_strlit("Parse error");
    }
    StaticRpcOutboundErrorPayload { code: -32_700, message: "Parse error" }
}

/// The request could not be routed or read.
pub fn invalid_request() -> (p: StaticRpcOutboundErrorPayload)
    ensures
        p.code == -32600,
        p.message@ == "Invalid request"@,
{
    proof {
        reveal_strlit("Invalid request");
    }
    StaticRpcOutboundErrorPayload { code: -32_600, message: "Invalid request" }
}

/// No target endpoint could be reached.
pub fn internal_error() -> (p: StaticRpcOutboundErrorPayload)
    ensures
        p.code == -32603,
        p.message@ == "Internal error"@,
{
    proof {
        reveal_strlit("Internal error");
    }
    StaticRpcOutboundErrorPayload { code: -32_603, message: "Internal error" }
}

/// The chain of the request has no target endpoints.
pub fn targets_not_configured() -> (p: StaticRpcOutboundErrorPayload)
    ensures
        p.code == -33000,
        p.message@ == "Targets not configured"@,
{
    proof {
        reveal_strlit("Targets not configured");
    }
    StaticRpcOutboundErrorPayload { code: -33_000, message: "Targets not configured" }
}

/// Whether `r` is the error response with a fixed error object of `code` and `message` for
/// the request `id`.
pub open spec fn is_static_error_response(r: RpcOutboundResponse, id: RpcRequestId, code: i32, message: Seq<char>) -> bool {
    match r {
        RpcOutboundResponse::Error(e) => is_static_error(e, id, code, message),
        RpcOutboundResponse::Success(_) => false,
    }
}

/// Whether `e` is the error response with a fixed error object of `code` and `message` for
/// the request `id`.
pub open spec fn is_static_error(e: RpcOutboundErrorResponse, id: RpcRequestId, code: i32, message: Seq<char>) -> bool {
    &&& e.id == id
    &&& e.jsonrpc == JSON_RPC_VERSION
    &&& match e.error {
        RpcOutboundErrorPayload::Static(p) => p.code == code && p.message@ == message,
        RpcOutboundErrorPayload::Dynamic(_) => false,
    }
}

impl RpcOutboundRequest {
    /// The request being relayed.
    pub fn inner(&self) -> (r: &RpcInboundRequest)
        ensures
            *r == self.0,
    {
        &self.0
    }
}

/// The outbound form of an inbound success: same result and id, version "2.0".
pub open spec fn outbound_success_of(value: RpcInboundSuccessResponse) -> RpcOutboundSuccessResponse {
    RpcOutboundSuccessResponse { id: value.id, result: value.result, jsonrpc: JSON_RPC_VERSION }
}

/// The outbound form of an inbound error: same code, message and id, version "2.0".
pub open spec fn outbound_error_of(value: RpcInboundErrorResponse) -> RpcOutboundErrorResponse {
    RpcOutboundErrorResponse {
        id: value.id,
        error: RpcOutboundErrorPayload::Dynamic(
            DynamicRpcOutboundErrorPayload { code: value.error.code, message: value.error.message },
        ),
        jsonrpc: JSON_RPC_VERSION,
    }
}

/// The outbound form of any inbound response.
pub open spec fn outbound_response_of(value: RpcInboundResponse) -> RpcOutboundResponse {
    match value {
        RpcInboundResponse::Success(s) => RpcOutboundResponse::Success(outbound_success_of(s)),
        RpcInboundResponse::Error(e) => RpcOutboundResponse::Error(outbound_error_of(e)),
    }
}

/// Relaying keeps the request: the response sent back to a client carries the id of the
/// upstream's response, a success stays a success with the same result, and an error stays an
/// error with the same code and message.
pub proof fn lemma_relay_keeps_request_id(v: RpcInboundResponse)
    ensures
        match v {
            RpcInboundResponse::Success(s) => outbound_response_of(v) matches RpcOutboundResponse::Success(o)
                && o.id == s.id && o.result == s.result,
            RpcInboundResponse::Error(e) => outbound_response_of(v) matches RpcOutboundResponse::Error(o)
                && o.id == e.id && o.error == RpcOutboundErrorPayload::Dynamic(
                DynamicRpcOutboundErrorPayload { code: e.error.code, message: e.error.message },
            ),
        },
{
}

impl From<RpcInboundSuccessResponse> for RpcOutboundSuccessResponse {
    fn from(value: RpcInboundSuccessResponse) -> (r: RpcOutboundSuccessResponse)
        ensures
            r.id == value.id,
            r.result == value.result,
    {
        RpcOutboundSuccessResponse { id: value.id, result: value.result, jsonrpc: JSON_RPC_VERSION }
    }
}

impl vstd::std_specs::convert::FromSpecImpl<RpcInboundSuccessResponse> for RpcOutboundSuccessResponse {
    open spec fn obeys_from_spec() -> bool {
        true
    }

    open spec fn from_spec(value: RpcInboundSuccessResponse) -> RpcOutboundSuccessResponse {
        outbound_success_of(value)
    }
}

impl From<RpcInboundErrorResponse> for RpcOutboundErrorResponse {
    fn from(value: RpcInboundErrorResponse) -> (r: RpcOutboundErrorResponse)
        ensures
            r.id == value.id,
    {
        RpcOutboundErrorResponse {
            id: value.id,
            error: RpcOutboundErrorPayload::Dynamic(
                DynamicRpcOutboundErrorPayload { code: value.error.code, message: value.error.message },
            ),
            jsonrpc: JSON_RPC_VERSION,
        }
    }
}

impl vstd::std_specs::convert::FromSpecImpl<RpcInboundErrorResponse> for RpcOutboundErrorResponse {
    open spec fn obeys_from_spec() -> bool {
        true
    }

    open spec fn from_spec(value: RpcInboundErrorResponse) -> RpcOutboundErrorResponse {
        outbound_error_of(value)
    }
}

impl From<RpcInboundResponse> for RpcOutboundResponse {
    fn from(value: RpcInboundResponse) -> (r: RpcOutboundResponse) {
        match value {
            RpcInboundResponse::Success(success) => RpcOutboundResponse::Success(
                RpcOutboundSuccessResponse::from(success),
            ),
            RpcInboundResponse::Error(error) => RpcOutboundResponse::Error(
                RpcOutboundErrorResponse::from(error),
            ),
        }
    }
}

impl vstd::std_specs::convert::FromSpecImpl<RpcInboundResponse> for RpcOutboundResponse {
    open spec fn obeys_from_spec() -> bool {
        true
    }

    open spec fn from_spec(value: RpcInboundResponse) -> RpcOutboundResponse {
        outbound_response_of(value)
    }
}

impl From<RpcOutboundSuccessResponse> for RpcOutboundResponse {
    fn from(value: RpcOutboundSuccessResponse) -> (r: RpcOutboundResponse) {
        RpcOutboundResponse::Success(value)
    }
}

impl vstd::std_specs::convert::FromSpecImpl<RpcOutboundSuccessResponse> for RpcOutboundResponse {
    open spec fn obeys_from_spec() -> bool {
        true
    }

    open spec fn from_spec(value: RpcOutboundSuccessResponse) -> RpcOutboundResponse {
        RpcOutboundResponse::Success(value)
    }
}

impl From<RpcOutboundErrorResponse> for RpcOutboundResponse {
    fn from(value: RpcOutboundErrorResponse) -> (r: RpcOutboundResponse) {
        RpcOutboundResponse::Error(value)
    }
}

impl vstd::std_specs::convert::FromSpecImpl<RpcOutboundErrorResponse> for RpcOutboundResponse {
    open spec fn obeys_from_spec() -> bool {
        true
    }

    open spec fn from_spec(value: RpcOutboundErrorResponse) -> RpcOutboundResponse {
        RpcOutboundResponse::Error(value)
    }
}

/// A uniformly random number in `0..u128::MAX` (fastrand's `u128` over that range).
#[verifier::external_body]
fn random_u128_below_max() -> (r: u128)
    ensures
        r < u128::MAX,
{
    fastrand::u128(0..u128::MAX)
}

/// `s` without a leading `0x`, if it has one.
pub open spec fn strip_hex_prefix(s: Seq<char>) -> Seq<char> {
    if s.len() >= 2 && s[0] == '0' && s[1] == 'x' {
        s.skip(2)
    } else {
        s
    }
}

/// The text of a subscription id: `0x` and 32 lower-case hex digits.
pub open spec fn subscription_id_text(id: u128) -> Seq<char> {
    seq!['0', 'x'] + padded_digits_of(id as nat, 16, 32)
}

/// The upper-case form of a hex digit character (other characters stay as they are).
pub open spec fn upper_hex_digit(c: char) -> char {
    if c == 'a' {
        'A'
    } else if c == 'b' {
        'B'
    } else if c == 'c' {
        'C'
    } else if c == 'd' {
        'D'
    } else if c == 'e' {
        'E'
    } else if c == 'f' {
        'F'
    } else {
        c
    }
}

/// The debugging text of a subscription id: `0x` and 32 upper-case hex digits.
pub open spec fn subscription_id_upper_text(id: u128) -> Seq<char> {
    seq!['0', 'x'] + padded_digits_of(id as nat, 16, 32).map_values(|c: char| upper_hex_digit(c))
}

/// What reading `s` as a subscription id gives: an optional `0x`, then a hex `u128`.
pub open spec fn parse_subscription_id(s: Seq<char>) -> Result<u128, IntParseError> {
    match parse_unsigned(strip_hex_prefix(s), 16, u128::MAX as int) {
        Ok(n) => Ok(n as u128),
        Err(e) => Err(e),
    }
}

impl SubscriptionId {
    /// A fresh random id, below `u128::MAX`.
    pub fn rand() -> (r: Self)
        ensures
            r.0 < u128::MAX,
    {
        Self(random_u128_below_max())
    }

    /// The number behind this id.
    pub fn value(&self) -> (v: u128)
        ensures
            v == self.0,
    {
        self.0
    }

    /// The id as sent to clients: `0x` followed by 32 lower-case hex digits.
    pub fn to_hex_string(&self) -> (s: String)
        ensures
            s@ == subscription_id_text(self.0),
    {
        let digits = format_padded_digits(self.0, 16, 32);
        let mut v: Vec<char> = Vec::new();
        v.push('0');
        v.push('x');
        v.append(&mut digits.clone());
        assert(v@ =~= seq!['0', 'x'] + digits@);
        string_from_chars(&v)
    }

    /// The id as written in logs and replies: `0x` followed by 32 upper-case hex digits.
    pub fn to_upper_hex_string(&self) -> (s: String)
        ensures
            s@ == subscription_id_upper_text(self.0),
    {
        let digits = format_padded_digits(self.0, 16, 32);
        let mut v: Vec<char> = Vec::new();
        v.push('0');
        v.push('x');
        let mut i: usize = 0;
        while i < digits.len()
            invariant
                i <= digits.len(),
                v@ == seq!['0', 'x'] + digits@.take(i as int).map_values(|c: char| upper_hex_digit(c)),
            decreases digits.len() - i,
        {
            let c = digits[i];
            let u = if c == 'a' {
                'A'
            } else if c == 'b' {
                'B'
            } else if c == 'c' {
                'C'
            } else if c == 'd' {
                'D'
            } else if c == 'e' {
                'E'
            } else if c == 'f' {
                'F'
            } else {
                c
            };
            v.push(u);
            assert(digits@.take(i as int + 1).map_values(|c: char| upper_hex_digit(c)) =~= digits@.take(
                i as int,
            ).map_values(|c: char| upper_hex_digit(c)).push(u));
            i = i + 1;
        }
        assert(digits@.take(digits.len() as int) =~= digits@);
        string_from_chars(&v)
    }

    /// Reads an id from text: an optional `0x`, then hex digits (either case) of a `u128`.
    pub fn try_from_str(value: &str) -> (r: Result<Self, IntParseError>)
        ensures
            match r {
                Ok(id) => parse_subscription_id(value@) == Ok::<u128, IntParseError>(id.0),
                Err(e) => parse_subscription_id(value@) == Err::<u128, IntParseError>(e),
            },
    {
        let chars = chars_of(value);
        let mut hex: Vec<char> = Vec::new();
        let start: usize = if chars.len() >= 2 && chars[0] == '0' && chars[1] == 'x' {
            2
        } else {
            0
        };
        let mut i = start;
        while i < chars.len()
            invariant
                start <= i <= chars.len(),
                hex@ == chars@.subrange(start as int, i as int),
            decreases chars.len() - i,
        {
            hex.push(chars[i]);
            assert(hex@ =~= chars@.subrange(start as int, i as int + 1));
            i = i + 1;
        }
        assert(hex@ =~= strip_hex_prefix(value@));
        match parse_unsigned_exec(&hex, 16, u128::MAX) {
            Ok(n) => Ok(SubscriptionId(n)),
            Err(e) => Err(e),
        }
    }
}

/// Reading back the text of a subscription id gives the same id.
pub proof fn lemma_subscription_id_roundtrip(id: u128)
    ensures
        parse_subscription_id(subscription_id_text(id)) == Ok::<u128, IntParseError>(id),
{
    let t = subscription_id_text(id);
    let p = padded_digits_of(id as nat, 16, 32);
    assert(capacity(16, 32) == 0x1_0000_0000_0000_0000_0000_0000_0000_0000) by {
        reveal_with_fuel(capacity, 33);
    }
    lemma_padded_roundtrip(id as nat, 16, 32, u128::MAX as int);
    assert(strip_hex_prefix(t) =~= p);
    assert(p.len() == 32) by {
        lemma_padded_len(id as nat, 16, 32);
    }
    assert(p[0] != '+' && p[0] != '-');
}

/// The upper-case text of a subscription id reads back as the same id too: a client may send
/// back an id in the form the gateway shows it.
pub proof fn lemma_subscription_id_upper_roundtrip(id: u128)
    ensures
        parse_subscription_id(subscription_id_upper_text(id)) == Ok::<u128, IntParseError>(id),
{
    lemma_subscription_id_roundtrip(id);
    let p = padded_digits_of(id as nat, 16, 32);
    let u = p.map_values(|c: char| upper_hex_digit(c));
    assert(p.len() == 32) by {
        lemma_padded_len(id as nat, 16, 32);
    }
    assert(strip_hex_prefix(subscription_id_text(id)) =~= p);
    assert(strip_hex_prefix(subscription_id_upper_text(id)) =~= u);
    lemma_scan_upper(0, p, u128::MAX as int);
    assert(capacity(16, 32) == 0x1_0000_0000_0000_0000_0000_0000_0000_0000) by {
        reveal_with_fuel(capacity, 33);
    }
    lemma_padded_roundtrip(id as nat, 16, 32, u128::MAX as int);
    assert(p[0] != '+' && p[0] != '-');
    assert(u[0] == upper_hex_digit(p[0]));
}

proof fn lemma_upper_digit_value(c: char)
    ensures
        digit_value(upper_hex_digit(c), 16) == digit_value(c, 16),
{
}

proof fn lemma_scan_upper(acc: int, s: Seq<char>, max: int)
    ensures
        scan_digits(acc, s.map_values(|c: char| upper_hex_digit(c)), 16, max) == scan_digits(acc, s, 16, max),
    decreases s.len(),
{
    if s.len() > 0 {
        let u = s.map_values(|c: char| upper_hex_digit(c));
        lemma_upper_digit_value(s[0]);
        assert(u[0] == upper_hex_digit(s[0]));
        assert(u.drop_first() =~= s.drop_first().map_values(|c: char| upper_hex_digit(c)));
        match digit_value(s[0], 16) {
            Some(d) => {
                lemma_scan_upper(acc * 16 + d, s.drop_first(), max);
            },
            None => {},
        }
    }
}

proof fn lemma_padded_len(n: nat, radix: nat, width: nat)
    requires
        radix >= 2,
    ensures
        padded_digits_of(n, radix, width).len() == width,
    decreases width,
{
    if width > 0 {
        lemma_padded_len(n / radix, radix, (width - 1) as nat);
    }
}

} // verus!
