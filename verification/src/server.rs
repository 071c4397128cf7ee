use vstd::prelude::*;

use crate::digits::{digits_of, format_digits};
use crate::gateway::is_internal_error_response;
use crate::gateway_config::ProjectConfig;
use crate::response::{Response, RpcError};
use crate::settings::{parse_u64, parse_u64_exec};
use crate::text::{chars_of, string_from_chars};

verus! {

/// The labels an HTTP response of the gateway is counted under.
#[derive(Debug, Clone, PartialEq, Eq)]
pub struct HttpResponseLabels {
    /// The chain id in decimal.
    pub chain_id: String,
    pub gateway_project: String,
    pub response_category: &'static str,
}

/// The labels of an HTTP response for chain `chain_id`, sent under the project
/// `gateway_project`, of the category `response_category`; the caller records them with the
/// response's latency.
pub fn track_http_response(chain_id: u64, gateway_project: &String, response_category: &'static str) -> (r:
    HttpResponseLabels)
    ensures
        r.chain_id@ == digits_of(chain_id as nat, 10),
        r.gateway_project@ == gateway_project@,
        r.response_category == response_category,
{
    let digits = format_digits(chain_id as u128, 10);
    let project = string_from_chars(&chars_of(gateway_project.as_str()));
    HttpResponseLabels { chain_id: string_from_chars(&digits), gateway_project: project, response_category }
}

/// The category of the answer to a request the gateway handled: a single response, a batch,
/// or nothing to send back (only notifications).
pub open spec fn handled_category(response: Option<Response>) -> Seq<char> {
    match response {
        Some(Response::Single(_)) => "rpc_call_single"@,
        Some(Response::Batch(_)) => "rpc_call_batch"@,
        None => "notification_ack"@,
    }
}

/// The category a handled request is counted under.
pub fn response_category(response: &Option<Response>) -> (r: &'static str)
    ensures
        r@ == handled_category(*response),
{
    proof {
        reveal_strlit("rpc_call_single");
        reveal_strlit("rpc_call_batch");
        reveal_strlit("notification_ack");
    }
    match response {
        Some(Response::Single(_)) => "rpc_call_single",
        Some(Response::Batch(_)) => "rpc_call_batch",
        None => "notification_ack",
    }
}

/// The category of a request whose body is not a JSON-RPC request.
pub const INVALID_REQUEST_CATEGORY: &'static str = "invalid_request";

/// The category of a request naming a project that does not exist.
pub const PROJECT_NOT_FOUND_CATEGORY: &'static str = "proxy_project_not_found";

/// The answer to a body that is not a JSON-RPC request: an internal error without id.
pub fn invalid_request_body() -> (r: Response)
    ensures
        is_internal_error_response(r, "Invalid JSON-RPC request"@),
{
    Response::error(RpcError::internal_error_with("Invalid JSON-RPC request"))
}

/// The project a request is served under: the one found under its name, else the answer
/// "Project not found".
pub fn project_or_not_found(found: Option<ProjectConfig>) -> (r: Result<ProjectConfig, Response>)
    ensures
        match found {
            Some(p) => r == Ok::<ProjectConfig, Response>(p),
            None => r matches Err(resp) && is_internal_error_response(resp, "Project not found"@),
        },
{
    match found {
        Some(p) => Ok(p),
        None => Err(Response::error(RpcError::internal_error_with("Project not found"))),
    }
}

/// Where the gateway's HTTP server sends a request.
#[derive(Debug, Clone, PartialEq, Eq)]
pub enum ServerRoute {
    /// A liveness or readiness probe, answered `OK`.
    Health,
    /// Calls for chain `chain_id` under the project named `project`.
    ProjectChain { project: String, chain_id: u64 },
    /// Calls for chain `chain_id` under the default project.
    DefaultChain { chain_id: u64 },
    /// Anything else, answered 404.
    NotFound,
}

/// The path patterns the server registers, in the order they are tried.
pub open spec fn route_pattern(pattern: Seq<char>) -> bool {
    ||| pattern == "/health"@
    ||| pattern == "/health/liveness"@
    ||| pattern == "/health/readiness"@
    ||| pattern == "/{project_name}/{chain_id}"@
    ||| pattern == "/{chain_id}"@
}

/// The text that actix-router's `Quoter::requote` makes of `value` when the ASCII characters
/// of `protected` stay percent-encoded, read back as UTF-8 with invalid bytes replaced.
pub uninterp spec fn percent_decoded(value: Seq<char>, protected: Seq<char>) -> Seq<char>;

/// The raw values that actix-router's `ResourceDef::new(pattern)` captures from `path`, one
/// per dynamic segment in the pattern's order, or `None` where the pattern does not match.
pub uninterp spec fn resource_captures(pattern: Seq<char>, path: Seq<char>) -> Option<Seq<Seq<char>>>;

/// Percent-decodes `value` with actix-router's `Quoter`, keeping the escapes of the
/// characters of `protected`; the result is named `percent_decoded`.
#[verifier::external_body]
fn percent_decode(value: &str, protected: &str) -> (r: String)
    requires
        forall|i: int| 0 <= i < protected@.len() ==> (protected@[i] as int) < 128,
    ensures
        r@ == percent_decoded(value@, protected@),
{
    match actix_router::Quoter::new(b"", protected.as_bytes()).requote(value.as_bytes()) {
        Some(bytes) => String::from_utf8_lossy(&bytes).into_owned(),
        None => value.to_string(),
    }
}

/// Matches `path` against the actix-router resource `pattern` (`ResourceDef::new` and
/// `capture_match_info`) and hands out the captured values in order; the result is named
/// `resource_captures`. `ResourceDef::new` panics on a malformed pattern, so only the
/// server's own patterns are taken.
#[verifier::external_body]
fn capture_resource(pattern: &str, path: &str) -> (r: Option<Vec<String>>)
    requires
        route_pattern(pattern@),
    ensures
        match r {
            Some(v) => resource_captures(pattern@, path@) == Some(v@.map_values(|s: String| s@)),
            None => resource_captures(pattern@, path@) is None,
        },
{
    let mut matched = actix_router::Path::new(path);
    match actix_router::ResourceDef::new(pattern).capture_match_info(&mut matched) {
        true => Some(matched.iter().map(|(_, value)| value.to_string()).collect()),
        false => None,
    }
}

/// The request path as the router sees it: escapes decoded but for `%`, `/` and `+`.
pub open spec fn routed_path(path: Seq<char>) -> Seq<char> {
    percent_decoded(path, "%/+"@)
}

/// A captured value as a handler reads it: every escape decoded.
pub open spec fn segment_value(raw: Seq<char>) -> Seq<char> {
    percent_decoded(raw, ""@)
}

/// Whether `pattern` matches the routed form of `path`.
pub open spec fn path_matches(pattern: Seq<char>, path: Seq<char>) -> bool {
    resource_captures(pattern, routed_path(path)) is Some
}

/// The captures of `pattern` on the routed form of `path`.
pub open spec fn captures_of(pattern: Seq<char>, path: Seq<char>) -> Seq<Seq<char>> {
    resource_captures(pattern, routed_path(path))->Some_0
}

/// The chain id held by the capture at `index`, decoded and read as a decimal `u64`.
pub open spec fn captured_chain(c: Seq<Seq<char>>, index: int) -> Option<u64> {
    match parse_u64(segment_value(c[index])) {
        Ok(n) => Some(n),
        Err(_) => None,
    }
}

/// Whether `r` is where a request is sent. The routes are tried in order, each one only for
/// its method: `GET` on the three probe paths, `POST` on `/{project_name}/{chain_id}` and on
/// `/{chain_id}`; the first whose path matches takes the request. There a chain id that is
/// not a decimal `u64` is answered 404, as is a request that no route takes.
pub open spec fn routes_to(r: ServerRoute, is_get: bool, is_post: bool, path: Seq<char>) -> bool {
    if is_get && (path_matches("/health"@, path) || path_matches("/health/liveness"@, path)
        || path_matches("/health/readiness"@, path)) {
        r == ServerRoute::Health
    } else if is_post && path_matches("/{project_name}/{chain_id}"@, path) {
        let c = captures_of("/{project_name}/{chain_id}"@, path);
        if c.len() == 2 && captured_chain(c, 1) is Some {
            match r {
                ServerRoute::ProjectChain { project, chain_id } => project@ == segment_value(c[0])
                    && chain_id == captured_chain(c, 1)->Some_0,
                _ => false,
            }
        } else {
            r == ServerRoute::NotFound
        }
    } else if is_post && path_matches("/{chain_id}"@, path) {
        let c = captures_of("/{chain_id}"@, path);
        if c.len() == 1 && captured_chain(c, 0) is Some {
            r == ServerRoute::DefaultChain { chain_id: captured_chain(c, 0)->Some_0 }
        } else {
            r == ServerRoute::NotFound
        }
    } else {
        r == ServerRoute::NotFound
    }
}

/// The chain id held by `raw`, decoded, if it is a decimal `u64`.
fn chain_of_capture(raw: &String) -> (r: Option<u64>)
    ensures
        r == (match parse_u64(segment_value(raw@)) {
            Ok(n) => Some(n),
            Err(_) => None::<u64>,
        }),
{
    proof {
        reveal_strlit("");
    }
    let text = percent_decode(raw.as_str(), "");
    match parse_u64_exec(text.as_str()) {
        Ok(n) => Some(n),
        Err(_) => None,
    }
}

/// Decides where a request with this method and path is sent, matching the path with
/// actix-router as the server registers its routes.
pub fn route_path(is_get: bool, is_post: bool, path: &str) -> (r: ServerRoute)
    ensures
        routes_to(r, is_get, is_post, path@),
{
    proof {
        reveal_strlit("%/+");
        reveal_strlit("");
    }
    let p = percent_decode(path, "%/+");
    if is_get {
        let health = capture_resource("/health", p.as_str());
        let liveness = capture_resource("/health/liveness", p.as_str());
        let readiness = capture_resource("/health/readiness", p.as_str());
        if health.is_some() || liveness.is_some() || readiness.is_some() {
            return ServerRoute::Health;
        }
    }
    if is_post {
        match capture_resource("/{project_name}/{chain_id}", p.as_str()) {
            Some(c) => {
                if c.len() == 2 {
                    match chain_of_capture(&c[1]) {
                        Some(n) => {
                            let project = percent_decode(c[0].as_str(), "");
                            return ServerRoute::ProjectChain { project, chain_id: n };
                        },
                        None => {},
                    }
                }
                return ServerRoute::NotFound;
            },
            None => {},
        }
        match capture_resource("/{chain_id}", p.as_str()) {
            Some(c) => {
                if c.len() == 1 {
                    match chain_of_capture(&c[0]) {
                        Some(n) => return ServerRoute::DefaultChain { chain_id: n },
                        None => {},
                    }
                }
                return ServerRoute::NotFound;
            },
            None => {},
        }
    }
    ServerRoute::NotFound
}

} // verus!
