use vstd::prelude::*;

use crate::chain::ChainId;
use crate::digits::IntParseError;
use crate::rpc::{
    internal_error, invalid_request, outbound_response_of, parse_error, targets_not_configured,
    RpcInboundRequest, RpcInboundResponse, RpcOutboundErrorPayload, RpcOutboundErrorResponse,
    RpcOutboundRequest, RpcOutboundResponse, RpcRequestId, StaticRpcOutboundErrorPayload,
    JSON_RPC_VERSION, is_static_error, is_static_error_response,
};
use crate::settings::{parse_u64, parse_u64_exec, Settings, TargetEndpointsForChain};

verus! {

/// Why relaying a request to one HTTP endpoint failed.
#[derive(Debug, Clone, Copy, PartialEq, Eq, Structural)]
pub enum HttpRelayError {
    /// The request could not be sent or no response came back.
    TransportError,
    /// The response was not a JSON-RPC response.
    InboundResponseParsingError,
}

/// Why a request could not be answered by any endpoint.
#[derive(Debug, Clone, Copy, PartialEq, Eq, Structural)]
pub enum RpcOutboundErrorKind {
    /// The chain has no HTTP endpoints.
    TargetsNotConfigured(ChainId),
    /// Every endpoint failed; this is the first failure.
    HttpRelay(HttpRelayError),
}

/// A relay failure together with the id of the request it answers.
#[derive(Debug, Clone, Copy, PartialEq, Eq, Structural)]
pub struct RpcOutboundError {
    pub request_id: RpcRequestId,
    pub kind: RpcOutboundErrorKind,
}

/// The error code a relay failure is reported with.
pub open spec fn outbound_error_code(kind: RpcOutboundErrorKind) -> i32 {
    match kind {
        RpcOutboundErrorKind::TargetsNotConfigured(_) => -33000i32,
        RpcOutboundErrorKind::HttpRelay(_) => -32603i32,
    }
}

/// The error text a relay failure is reported with.
pub open spec fn outbound_error_message(kind: RpcOutboundErrorKind) -> Seq<char> {
    match kind {
        RpcOutboundErrorKind::TargetsNotConfigured(_) => "Targets not configured"@,
        RpcOutboundErrorKind::HttpRelay(_) => "Internal error"@,
    }
}

impl RpcOutboundError {
    /// The error object for this failure: "Targets not configured" or "Internal error".
    pub fn to_static_payload(&self) -> (p: StaticRpcOutboundErrorPayload)
        ensures
            p.code == outbound_error_code(self.kind),
            p.message@ == outbound_error_message(self.kind),
    {
        match self.kind {
            RpcOutboundErrorKind::TargetsNotConfigured(_) => targets_not_configured(),
            RpcOutboundErrorKind::HttpRelay(_) => internal_error(),
        }
    }

    /// The error response sent to the client for this failure.
    pub fn into_response(self) -> (r: RpcOutboundResponse)
        ensures
            is_static_error_response(r, self.request_id, outbound_error_code(self.kind), outbound_error_message(self.kind)),
    {
        let payload = self.to_static_payload();
        RpcOutboundResponse::Error(
            RpcOutboundErrorResponse {
                id: self.request_id,
                error: RpcOutboundErrorPayload::Static(payload),
                jsonrpc: JSON_RPC_VERSION,
            },
        )
    }
}

/// What relaying gives after trying the endpoints whose outcomes are `results`, in order,
/// with `first_error` the first failure before them: the first success, else the first failure
/// (`None` where nothing failed).
pub open spec fn run_relay(
    first_error: Option<HttpRelayError>,
    results: Seq<Result<RpcInboundResponse, HttpRelayError>>,
) -> Result<RpcInboundResponse, Option<HttpRelayError>>
    decreases results.len(),
{
    if results.len() == 0 {
        Err(first_error)
    } else {
        match results[0] {
            Ok(resp) => Ok(resp),
            Err(e) => run_relay(
                if first_error is None {
                    Some(e)
                } else {
                    first_error
                },
                results.drop_first(),
            ),
        }
    }
}

/// Relaying through a chain's HTTP endpoints: the first endpoint that answers wins; when every
/// endpoint fails, the failure of the first one is reported; with no endpoints, nothing is.
pub proof fn lemma_relay_outcome(results: Seq<Result<RpcInboundResponse, HttpRelayError>>)
    ensures
        forall|i: int|
            0 <= i < results.len() && results[i] is Ok && (forall|j: int| 0 <= j < i ==> results[j] is Err)
                ==> run_relay(None, results) == Ok::<RpcInboundResponse, Option<HttpRelayError>>(results[i]->Ok_0),
        (forall|i: int| 0 <= i < results.len() ==> results[i] is Err) ==> run_relay(None, results) == Err::<RpcInboundResponse, Option<HttpRelayError>>(
            if results.len() == 0 {
                None
            } else {
                Some(results[0]->Err_0)
            },
        ),
{
    assert forall|i: int|
        0 <= i < results.len() && results[i] is Ok && (forall|j: int| 0 <= j < i ==> results[j] is Err) implies run_relay(None, results)
        == Ok::<RpcInboundResponse, Option<HttpRelayError>>(results[i]->Ok_0) by {
        lemma_run_relay_first_ok(None, results, i);
    }
    if forall|i: int| 0 <= i < results.len() ==> results[i] is Err {
        if results.len() > 0 {
            lemma_run_relay_all_err(Some(results[0]->Err_0), results.drop_first());
        }
    }
}

proof fn lemma_run_relay_first_ok(
    first_error: Option<HttpRelayError>,
    results: Seq<Result<RpcInboundResponse, HttpRelayError>>,
    i: int,
)
    requires
        0 <= i < results.len(),
        results[i] is Ok,
        forall|j: int| 0 <= j < i ==> results[j] is Err,
    ensures
        run_relay(first_error, results) == Ok::<RpcInboundResponse, Option<HttpRelayError>>(results[i]->Ok_0),
    decreases i,
{
    if i > 0 {
        assert(results[0] is Err);
        let e = results[0]->Err_0;
        let next = if first_error is None {
            Some(e)
        } else {
            first_error
        };
        assert forall|j: int| 0 <= j < i - 1 implies results.drop_first()[j] is Err by {
            assert(results.drop_first()[j] == results[j + 1]);
        }
        lemma_run_relay_first_ok(next, results.drop_first(), i - 1);
    }
}

proof fn lemma_run_relay_all_err(first_error: Option<HttpRelayError>, results: Seq<Result<RpcInboundResponse, HttpRelayError>>)
    requires
        first_error is Some,
        forall|i: int| 0 <= i < results.len() ==> results[i] is Err,
    ensures
        run_relay(first_error, results) == Err::<RpcInboundResponse, Option<HttpRelayError>>(first_error),
    decreases results.len(),
{
    if results.len() > 0 {
        assert forall|i: int| 0 <= i < results.len() - 1 implies results.drop_first()[i] is Err by {
            assert(results.drop_first()[i] == results[i + 1]);
        }
        lemma_run_relay_all_err(first_error, results.drop_first());
    }
}

/// The relay over a chain's HTTP endpoints, between two endpoints: the first failure so far.
#[derive(Debug, Clone, Copy)]
pub struct RelayLoop {
    pub first_error: Option<HttpRelayError>,
}

/// What to do after one endpoint was tried.
#[derive(Debug)]
pub enum RelayStep {
    /// Answer the client with this response; try no further endpoint.
    Respond(RpcInboundResponse),
    /// Try the next endpoint.
    TryNext,
}

impl RelayLoop {
    /// Before any endpoint was tried.
    pub fn new() -> (r: Self)
        ensures
            r.first_error is None,
    {
        RelayLoop { first_error: None }
    }

    /// Takes the outcome of the endpoint just tried: a response ends the relay, a failure is
    /// remembered when it is the first.
    pub fn step(&mut self, result: Result<RpcInboundResponse, HttpRelayError>) -> (r: RelayStep)
        ensures
            match result {
                Ok(resp) => r == RelayStep::Respond(resp) && *final(self) == *old(self),
                Err(e) => r == RelayStep::TryNext && final(self).first_error == (if old(self).first_error is None {
                    Some(e)
                } else {
                    old(self).first_error
                }),
            },
            forall|rest: Seq<Result<RpcInboundResponse, HttpRelayError>>| #[trigger] run_relay(old(self).first_error, seq![result] + rest)
                == match r {
                    RelayStep::Respond(resp) => Ok::<RpcInboundResponse, Option<HttpRelayError>>(resp),
                    RelayStep::TryNext => run_relay(final(self).first_error, rest),
                },
    {
        proof {
            assert forall|rest: Seq<Result<RpcInboundResponse, HttpRelayError>>| (seq![result] + rest).drop_first() =~= rest by {}
            assert forall|rest: Seq<Result<RpcInboundResponse, HttpRelayError>>| #[trigger] (seq![result] + rest)[0] == result by {}
        }
        match result {
            Ok(resp) => RelayStep::Respond(resp),
            Err(e) => {
                if self.first_error.is_none() {
                    self.first_error = Some(e);
                }
                RelayStep::TryNext
            },
        }
    }

    /// After the last endpoint failed: the first failure, `None` where there were no endpoints.
    pub fn finish(self) -> (r: Result<RpcInboundResponse, Option<HttpRelayError>>)
        ensures
            r == run_relay(self.first_error, seq![]),
            r == Err::<RpcInboundResponse, Option<HttpRelayError>>(self.first_error),
    {
        Err(self.first_error)
    }
}

/// What the client is answered after relaying a request of `request_id` on chain `chain_id`.
pub open spec fn http_relay_result(
    chain_id: ChainId,
    request_id: RpcRequestId,
    relayed: Result<RpcInboundResponse, Option<HttpRelayError>>,
) -> Result<RpcOutboundResponse, RpcOutboundError> {
    match relayed {
        Ok(resp) => Ok(outbound_response_of(resp)),
        Err(Some(e)) => Err(RpcOutboundError { kind: RpcOutboundErrorKind::HttpRelay(e), request_id }),
        Err(None) => Err(RpcOutboundError { kind: RpcOutboundErrorKind::TargetsNotConfigured(chain_id), request_id }),
    }
}

impl TargetEndpointsForChain {
    /// Turns the outcome of the relay loop into the answer for the client: the endpoint's
    /// response, or the first failure, or "targets not configured" when there was no endpoint.
    pub fn http_relay_outcome(
        &self,
        outbound: &RpcOutboundRequest,
        relayed: Result<RpcInboundResponse, Option<HttpRelayError>>,
    ) -> (r: Result<RpcOutboundResponse, RpcOutboundError>)
        ensures
            r == http_relay_result(self.chain.chain_id, outbound.0.id, relayed),
    {
        match relayed {
            Ok(inbound_response) => Ok(RpcOutboundResponse::from(inbound_response)),
            Err(Some(error)) => Err(
                RpcOutboundError { kind: RpcOutboundErrorKind::HttpRelay(error), request_id: outbound.0.id },
            ),
            Err(None) => Err(
                RpcOutboundError {
                    kind: RpcOutboundErrorKind::TargetsNotConfigured(self.chain.chain_id),
                    request_id: outbound.0.id,
                },
            ),
        }
    }
}

/// Why an HTTP request could not be read as a JSON-RPC request for a chain.
#[derive(Debug, Clone, Copy, PartialEq, Eq, Structural)]
pub enum InboundHttpRpcError {
    /// The body could not be collected.
    HyperBytes,
    /// The body is not a JSON-RPC request.
    Deserialization,
    /// The path is not `/<chain id>`.
    RouteFormat,
}

/// The error code an unreadable request is answered with.
pub open spec fn inbound_error_code(e: InboundHttpRpcError) -> i32 {
    if e == InboundHttpRpcError::Deserialization {
        -32700i32
    } else {
        -32600i32
    }
}

/// The error text an unreadable request is answered with.
pub open spec fn inbound_error_message(e: InboundHttpRpcError) -> Seq<char> {
    if e == InboundHttpRpcError::Deserialization {
        "Parse error"@
    } else {
        "Invalid request"@
    }
}

impl InboundHttpRpcError {
    /// The error object for this failure: "Parse error" for a body that is not a request,
    /// "Invalid request" otherwise.
    pub fn to_static_payload(&self) -> (p: StaticRpcOutboundErrorPayload)
        ensures
            p.code == inbound_error_code(*self),
            p.message@ == inbound_error_message(*self),
    {
        match self {
            InboundHttpRpcError::RouteFormat | InboundHttpRpcError::HyperBytes => invalid_request(),
            InboundHttpRpcError::Deserialization => parse_error(),
        }
    }

    /// The error response for this failure; it carries no id.
    pub fn into_error_response(self) -> (r: RpcOutboundErrorResponse)
        ensures
            is_static_error(r, None, inbound_error_code(self), inbound_error_message(self)),
    {
        RpcOutboundErrorResponse {
            error: RpcOutboundErrorPayload::Static(self.to_static_payload()),
            id: None,
            jsonrpc: JSON_RPC_VERSION,
        }
    }
}

/// What a regex finds: `None` where `pattern` does not compile or does not match `text`, else
/// the text of capture group `group` of the first match (`None` where that group took no part).
pub uninterp spec fn regex_capture(pattern: Seq<char>, text: Seq<char>, group: usize) -> Option<Seq<char>>;

/// Finds capture group `group` of the first match of `pattern` in `text` with the regex crate.
#[verifier::external_body]
fn capture_group(pattern: &str, text: &str, group: usize) -> (r: Option<String>)
    ensures
        match r {
            Some(s) => regex_capture(pattern@, text@, group) == Some(s@),
            None => regex_capture(pattern@, text@, group) is None,
        },
{
    match regex::Regex::new(pattern) {
        Err(_) => None,
        Ok(re) => match re.captures(text) {
            None => None,
            Some(caps) => caps.get(group).map(|m| m.as_str().to_string()),
        },
    }
}

/// The pattern of a chain route: a slash and the decimal chain id, nothing else.
pub open spec fn chain_route_pattern() -> Seq<char> {
    "^/(\\d+)$"@
}

/// The chain id a route capture names: a decimal `u64`, else a route format error.
pub open spec fn chain_id_of_capture(capture: Option<Seq<char>>) -> Result<ChainId, InboundHttpRpcError> {
    match capture {
        None => Err(InboundHttpRpcError::RouteFormat),
        Some(d) => match parse_u64(d) {
            Ok(n) => Ok(ChainId(n)),
            Err(_) => Err(InboundHttpRpcError::RouteFormat),
        },
    }
}

/// Reads the chain id out of the digits the route pattern captured.
pub fn chain_id_from_capture(capture: Option<String>) -> (r: Result<ChainId, InboundHttpRpcError>)
    ensures
        r == chain_id_of_capture(match capture {
            Some(s) => Some(s@),
            None => None,
        }),
{
    match capture {
        None => Err(InboundHttpRpcError::RouteFormat),
        Some(d) => match parse_u64_exec(d.as_str()) {
            Ok(n) => Ok(ChainId(n)),
            Err(_) => Err(InboundHttpRpcError::RouteFormat),
        },
    }
}

/// The chain id of a request path `/<chain id>`.
pub fn path_to_chain_id(path: &str) -> (r: Result<ChainId, InboundHttpRpcError>)
    ensures
        r == chain_id_of_capture(regex_capture(chain_route_pattern(), path@, 1)),
{
    let capture = capture_group("^/(\\d+)$", path, 1);
    chain_id_from_capture(capture)
}

/// What to do with a request that reached the route of a chain.
pub enum RouteDecision<'a> {
    /// Answer at once with this response.
    Respond(RpcOutboundResponse),
    /// Relay the request through these endpoints.
    Relay(&'a TargetEndpointsForChain, RpcInboundRequest),
}

/// Decides what to do with a request for chain `chain_id`: a body that could not be read is
/// answered with its error; a chain without endpoints with "Targets not configured"; any other
/// request is relayed through the chain's endpoints.
pub fn route_inbound<'a>(
    settings: &'a Settings,
    chain_id: ChainId,
    inbound: Result<RpcInboundRequest, InboundHttpRpcError>,
) -> (r: RouteDecision<'a>)
    ensures
        match inbound {
            Err(e) => match r {
                RouteDecision::Respond(resp) => is_static_error_response(resp, None, inbound_error_code(e), inbound_error_message(e)),
                RouteDecision::Relay(_, _) => false,
            },
            Ok(req) => if settings.chains_to_targets.0@.contains_key(chain_id.0) {
                r matches RouteDecision::Relay(targets, relayed) && *targets == settings.chains_to_targets.0@[chain_id.0]
                    && relayed == req
            } else {
                match r {
                    RouteDecision::Respond(resp) => is_static_error_response(resp, req.id, -33000i32, "Targets not configured"@),
                    RouteDecision::Relay(_, _) => false,
                }
            },
        },
{
    let inbound = match inbound {
        Ok(inbound) => inbound,
        Err(err) => return RouteDecision::Respond(RpcOutboundResponse::Error(err.into_error_response())),
    };
    match settings.chains_to_targets.get(&chain_id) {
        Some(targets) => RouteDecision::Relay(targets, inbound),
        None => {
            let error = RpcOutboundError {
                kind: RpcOutboundErrorKind::TargetsNotConfigured(chain_id),
                request_id: inbound.id,
            };
            RouteDecision::Respond(error.into_response())
        },
    }
}

} // verus!
