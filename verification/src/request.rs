use vstd::prelude::*;

use crate::digits::{digits_of, format_digits};
use crate::text::{chars_of, string_from_chars};

verus! {

#[verifier::external_type_specification]
#[verifier::external_body]
pub struct ExOwnedValue(simd_json::OwnedValue);

/// simd-json's owned `Value` derives `Clone`: a clone is the same value.
pub assume_specification[ <simd_json::OwnedValue as Clone>::clone ](v: &simd_json::OwnedValue) -> (r: simd_json::OwnedValue)
    ensures
        r == *v,
;

/// The version of the JSON-RPC protocol; only 2.0 is spoken.
#[derive(Clone, Copy, Debug, PartialEq, Eq, Structural)]
pub enum Version {
    V2,
}

/// The id of a JSON-RPC request: a string, a number or null.
#[derive(Clone, Debug, PartialEq, Eq)]
pub enum Id {
    String(String),
    Number(i64),
    Null,
}

/// Request parameters: none, an array of JSON values or a JSON object.
#[derive(Clone, Debug)]
pub enum RequestParams {
    NoParams,
    Array(Vec<simd_json::OwnedValue>),
    Object(simd_json::OwnedValue),
}

/// A JSON-RPC method call.
#[derive(Clone, Debug)]
pub struct RpcMethodCall {
    pub jsonrpc: Version,
    pub method: String,
    pub params: RequestParams,
    pub id: Id,
}

/// A JSON-RPC notification: a call without an id, which gets no response.
#[derive(Clone, Debug)]
pub struct RpcNotification {
    pub jsonrpc: Option<Version>,
    pub method: String,
    pub params: RequestParams,
}

/// One JSON-RPC call as received.
#[derive(Clone, Debug)]
pub enum RpcCall {
    MethodCall(RpcMethodCall),
    Notification(RpcNotification),
    Invalid { id: Id },
}

/// A JSON-RPC request: one call or a batch of calls.
#[derive(Clone, Debug)]
pub enum Request {
    Single(RpcCall),
    Batch(Vec<RpcCall>),
}

/// The parameters of a call that gives none.
pub fn no_params() -> (r: RequestParams)
    ensures
        r is NoParams,
{
    RequestParams::NoParams
}

/// The id of an invalid call that gives none.
pub fn null_id() -> (r: Id)
    ensures
        r is Null,
{
    Id::Null
}

impl RpcMethodCall {
    /// The id of this call.
    pub fn id(&self) -> (r: Id)
        ensures
            r == self.id,
    {
        match &self.id {
            Id::String(s) => Id::String(s.clone()),
            Id::Number(n) => Id::Number(*n),
            Id::Null => Id::Null,
        }
    }
}

/// The decimal text of a signed number.
pub open spec fn i64_text(n: i64) -> Seq<char> {
    if n < 0 {
        seq!['-'] + digits_of((-(n as int)) as nat, 10)
    } else {
        digits_of(n as nat, 10)
    }
}

/// How an id is displayed: a string as itself, a number in decimal, null as `null`.
pub open spec fn id_text(id: Id) -> Seq<char> {
    match id {
        Id::String(s) => s@,
        Id::Number(n) => i64_text(n),
        Id::Null => seq!['n', 'u', 'l', 'l'],
    }
}

impl Id {
    /// The id as displayed.
    pub fn to_display_string(&self) -> (s: String)
        ensures
            s@ == id_text(*self),
    {
        match self {
            Id::String(s) => s.clone(),
            Id::Number(n) => {
                let n: i64 = *n;
                let magnitude: u128 = if n < 0 {
                    (0i128 - n as i128) as u128
                } else {
                    n as u128
                };
                let digits = format_digits(magnitude, 10);
                if n < 0 {
                    let mut v: Vec<char> = Vec::new();
                    v.push('-');
                    let mut rest = digits.clone();
                    v.append(&mut rest);
                    assert(v@ =~= seq!['-'] + digits@);
                    string_from_chars(&v)
                } else {
                    string_from_chars(&digits)
                }
            },
            Id::Null => {
                let mut v: Vec<char> = Vec::new();
                v.push('n');
                v.push('u');
                v.push('l');
                v.push('l');
                assert(v@ =~= seq!['n', 'u', 'l', 'l']);
                string_from_chars(&v)
            },
        }
    }
}

} // verus!
