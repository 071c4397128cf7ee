use vstd::prelude::*;

use crate::request::{Id, Version};

verus! {

#[verifier::external_type_specification]
#[verifier::external_body]
pub struct ExJsonValue(serde_json::Value);

/// serde_json's `Value` derives `Clone`: a clone is the same value.
pub assume_specification[ <serde_json::Value as Clone>::clone ](v: &serde_json::Value) -> (r: serde_json::Value)
    ensures
        r == *v,
;

/// A JSON string value of the given text (serde_json's `Value::String`).
pub uninterp spec fn json_string(s: Seq<char>) -> serde_json::Value;

/// Makes the JSON string value holding `s`.
#[verifier::external_body]
pub(crate) fn json_string_value(s: String) -> (v: serde_json::Value)
    ensures
        v == json_string(s@),
{
    serde_json::Value::String(s)
}

/// A JSON-RPC error object.
#[derive(Clone, Debug)]
pub struct RpcError {
    pub code: i64,
    pub message: String,
    pub data: Option<serde_json::Value>,
}

/// The result of a call: a JSON value or an error object.
#[derive(Clone, Debug)]
pub enum ResponseResult {
    Success(serde_json::Value),
    Error(RpcError),
}

/// The response to one call.
#[derive(Clone, Debug)]
pub struct RpcResponse {
    pub jsonrpc: Version,
    pub id: Id,
    pub result: ResponseResult,
}

/// The response to a request: one response, or the responses to a batch.
#[derive(Clone, Debug)]
pub enum Response {
    Single(RpcResponse),
    Batch(Vec<RpcResponse>),
}

impl RpcError {
    /// An internal error (-32603) with the given message.
    pub fn internal_error_with(message: &str) -> (e: Self)
        ensures
            e.code == -32603,
            e.message@ == message@,
            e.data is None,
    {
        RpcError { code: -32603, message: message.to_owned(), data: None }
    }

    /// The error for a method the gateway does not serve (-32601, "Method not found").
    pub fn method_not_found() -> (e: Self)
        ensures
            e.code == -32601,
            e.message@ == "Method not found"@,
            e.data is None,
    {
        RpcError { code: -32601, message: "Method not found".to_owned(), data: None }
    }

    /// The error for a call that is not a JSON-RPC call (-32600, "Invalid request").
    pub fn invalid_request() -> (e: Self)
        ensures
            e.code == -32600,
            e.message@ == "Invalid request"@,
            e.data is None,
    {
        RpcError { code: -32600, message: "Invalid request".to_owned(), data: None }
    }
}

impl RpcResponse {
    /// The response of version 2.0 with the given id and result.
    pub fn new(id: Id, result: ResponseResult) -> (r: Self)
        ensures
            r.id == id,
            r.result == result,
            r.jsonrpc == Version::V2,
    {
        RpcResponse { jsonrpc: Version::V2, id, result }
    }

    /// The response to an invalid call.
    pub fn invalid_request(id: Id) -> (r: Self)
        ensures
            r.id == id,
            r.jsonrpc == Version::V2,
            r.result matches ResponseResult::Error(e) && e.code == -32600 && e.message@ == "Invalid request"@ && e.data is None,
    {
        RpcResponse::new(id, ResponseResult::Error(RpcError::invalid_request()))
    }
}

impl Response {
    /// A single error response without an id.
    pub fn error(error: RpcError) -> (r: Self)
        ensures
            r == Response::Single(RpcResponse { jsonrpc: Version::V2, id: Id::Null, result: ResponseResult::Error(error) }),
    {
        Response::Single(RpcResponse::new(Id::Null, ResponseResult::Error(error)))
    }
}

} // verus!
