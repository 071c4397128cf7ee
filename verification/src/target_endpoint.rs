use vstd::prelude::*;

use crate::chain::Chain;

verus! {

#[verifier::external_type_specification]
#[verifier::external_body]
pub struct ExUrlParseError(url::ParseError);

/// The parts of a parsed URL that the gateway reads: its scheme and its full text.
#[derive(Clone, Debug, PartialEq, Eq)]
pub struct EndpointUrl {
    pub scheme: String,
    pub href: String,
}

/// What `url::Url::parse` makes of a text: the error it refuses it with, else the parsed
/// URL's scheme and serialization.
pub uninterp spec fn url_parse_result(s: Seq<char>) -> Result<(Seq<char>, Seq<char>), url::ParseError>;

/// Parses a URL with `url::Url::parse`: the result is the one `url_parse_result` names for the
/// text. What the url crate accepts and how it normalises is not stated here.
#[verifier::external_body]
pub(crate) fn parse_url(s: &str) -> (r: Result<EndpointUrl, url::ParseError>)
    ensures
        match r {
            Ok(u) => url_parse_result(s@) == Ok::<(Seq<char>, Seq<char>), url::ParseError>((u.scheme@, u.href@)),
            Err(e) => url_parse_result(s@) == Err::<(Seq<char>, Seq<char>), url::ParseError>(e),
        },
{
    match url::Url::parse(s) {
        Ok(u) => Ok(EndpointUrl { scheme: u.scheme().to_string(), href: u.as_str().to_string() }),
        Err(e) => Err(e),
    }
}

/// Whether a string equals a literal.
pub(crate) fn string_is(s: &String, lit: &str) -> (r: bool)
    ensures
        r == (s@ == lit@),
{
    let owned = lit.to_owned();
    s.eq(&owned)
}

/// A named target endpoint of a chain.
#[derive(Clone, Debug, PartialEq, Eq)]
pub struct TargetEndpointBase {
    pub name: String,
    pub chain: &'static Chain,
    pub url: EndpointUrl,
}

/// Why an endpoint could not be made a target of the kind asked for.
#[derive(Debug, Clone, Copy, PartialEq, Eq, Structural)]
pub enum InitTargetEndpointError {
    WrongScheme,
}

/// Schemes served over HTTP.
pub open spec fn is_http_scheme(s: Seq<char>) -> bool {
    s == seq!['h', 't', 't', 'p'] || s == seq!['h', 't', 't', 'p', 's']
}

/// Schemes served over WebSocket.
pub open spec fn is_web_socket_scheme(s: Seq<char>) -> bool {
    s == seq!['w', 's'] || s == seq!['w', 's', 's']
}

fn scheme_is_http(s: &String) -> (r: bool)
    ensures
        r == is_http_scheme(s@),
{
    proof {
        reveal_strlit("http");
        reveal_strlit("https");
        assert("http"@ =~= seq!['h', 't', 't', 'p']);
        assert("https"@ =~= seq!['h', 't', 't', 'p', 's']);
    }
    string_is(s, "http") || string_is(s, "https")
}

fn scheme_is_web_socket(s: &String) -> (r: bool)
    ensures
        r == is_web_socket_scheme(s@),
{
    proof {
        reveal_strlit("ws");
        reveal_strlit("wss");
        assert("ws"@ =~= seq!['w', 's']);
        assert("wss"@ =~= seq!['w', 's', 's']);
    }
    string_is(s, "ws") || string_is(s, "wss")
}

/// A target endpoint reached over HTTP(S).
#[derive(Debug, PartialEq, Eq)]
pub struct HttpTargetEndpoint(pub TargetEndpointBase);

/// A target endpoint reached over WebSocket.
#[derive(Debug, PartialEq, Eq, Clone)]
pub struct WebSocketTargetEndpoint(pub TargetEndpointBase);

/// A target endpoint of either kind.
#[derive(Debug, PartialEq, Eq)]
pub enum TargetEndpoint {
    Http(HttpTargetEndpoint),
    WebSocket(WebSocketTargetEndpoint),
}

impl HttpTargetEndpoint {
    /// An HTTP endpoint, if the URL's scheme is `http` or `https`.
    pub fn try_from_base(value: TargetEndpointBase) -> (r: Result<Self, InitTargetEndpointError>)
        ensures
            is_http_scheme(value.url.scheme@) ==> r == Ok::<Self, InitTargetEndpointError>(HttpTargetEndpoint(value)),
            !is_http_scheme(value.url.scheme@) ==> r == Err::<Self, InitTargetEndpointError>(InitTargetEndpointError::WrongScheme),
    {
        if scheme_is_http(&value.url.scheme) {
            Ok(HttpTargetEndpoint(value))
        } else {
            Err(InitTargetEndpointError::WrongScheme)
        }
    }

    /// The endpoint's name, chain and URL.
    pub fn base(&self) -> (r: &TargetEndpointBase)
        ensures
            *r == self.0,
    {
        &self.0
    }
}

impl WebSocketTargetEndpoint {
    /// A WebSocket endpoint, if the URL's scheme is `ws` or `wss`.
    pub fn try_from_base(value: TargetEndpointBase) -> (r: Result<Self, InitTargetEndpointError>)
        ensures
            is_web_socket_scheme(value.url.scheme@) ==> r == Ok::<Self, InitTargetEndpointError>(WebSocketTargetEndpoint(value)),
            !is_web_socket_scheme(value.url.scheme@) ==> r == Err::<Self, InitTargetEndpointError>(InitTargetEndpointError::WrongScheme),
    {
        if scheme_is_web_socket(&value.url.scheme) {
            Ok(WebSocketTargetEndpoint(value))
        } else {
            Err(InitTargetEndpointError::WrongScheme)
        }
    }

    /// The endpoint's name, chain and URL.
    pub fn base(&self) -> (r: &TargetEndpointBase)
        ensures
            *r == self.0,
    {
        &self.0
    }
}

/// The endpoint a base becomes: HTTP for `http(s)`, WebSocket for `ws(s)`, else no endpoint.
pub open spec fn classify_endpoint(value: TargetEndpointBase) -> Result<TargetEndpoint, InitTargetEndpointError> {
    if is_http_scheme(value.url.scheme@) {
        Ok(TargetEndpoint::Http(HttpTargetEndpoint(value)))
    } else if is_web_socket_scheme(value.url.scheme@) {
        Ok(TargetEndpoint::WebSocket(WebSocketTargetEndpoint(value)))
    } else {
        Err(InitTargetEndpointError::WrongScheme)
    }
}

impl TargetEndpoint {
    /// Sorts a base by its URL's scheme.
    pub fn try_from_base(value: TargetEndpointBase) -> (r: Result<Self, InitTargetEndpointError>)
        ensures
            r == classify_endpoint(value),
    {
        if scheme_is_http(&value.url.scheme) {
            match HttpTargetEndpoint::try_from_base(value) {
                Ok(e) => Ok(TargetEndpoint::Http(e)),
                Err(e) => Err(e),
            }
        } else if scheme_is_web_socket(&value.url.scheme) {
            match WebSocketTargetEndpoint::try_from_base(value) {
                Ok(e) => Ok(TargetEndpoint::WebSocket(e)),
                Err(e) => Err(e),
            }
        } else {
            Err(InitTargetEndpointError::WrongScheme)
        }
    }

    /// The base of the endpoint, whatever its kind.
    pub fn base(&self) -> (r: &TargetEndpointBase)
        ensures
            *r == self.base_spec(),
    {
        match self {
            TargetEndpoint::Http(e) => &e.0,
            TargetEndpoint::WebSocket(e) => &e.0,
        }
    }

    /// The base of the endpoint, whatever its kind.
    pub open spec fn base_spec(&self) -> TargetEndpointBase {
        match self {
            TargetEndpoint::Http(e) => e.0,
            TargetEndpoint::WebSocket(e) => e.0,
        }
    }
}

} // verus!
