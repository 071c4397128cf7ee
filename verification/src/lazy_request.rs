use vstd::prelude::*;

use crate::request::{RpcCall, RpcMethodCall};

verus! {

#[verifier::external_type_specification]
#[verifier::external_body]
pub struct ExBytes(bytes::Bytes);

/// One call, kept with the bytes it was read from.
#[derive(Debug)]
pub struct PreservedSingleCall {
    pub raw: bytes::Bytes,
    pub deserialized: RpcCall,
}

/// One method call, kept with the bytes it was read from.
#[derive(Debug)]
pub struct PreservedMethodCall {
    pub raw: bytes::Bytes,
    pub deserialized: RpcMethodCall,
}

/// A request body read as one call or as a batch of calls.
#[derive(Debug)]
pub enum PreservedRequest {
    Single(PreservedSingleCall),
    Batch(Vec<PreservedSingleCall>),
}

/// The calls of a batch, or failure as soon as one of them failed to be read.
pub fn collect_calls(results: Vec<Result<PreservedSingleCall, ()>>) -> (r: Result<Vec<PreservedSingleCall>, ()>)
    ensures
        r is Ok <==> forall|i: int| 0 <= i < results@.len() ==> #[trigger] results@[i] is Ok,
        r matches Ok(calls) ==> calls@.len() == results@.len() && forall|i: int|
            0 <= i < results@.len() ==> results@[i] == Ok::<PreservedSingleCall, ()>(#[trigger] calls@[i]),
{
    let ghost all = results@;
    let mut calls: Vec<PreservedSingleCall> = Vec::new();
    for result in it: results.into_iter()
        invariant
            it.seq() == all,
            calls@.len() == it.index(),
            forall|j: int| 0 <= j < it.index() ==> all[j] == Ok::<PreservedSingleCall, ()>(#[trigger] calls@[j]),
    {
        match result {
            Ok(call) => calls.push(call),
            Err(()) => {
                assert(!(all[it.index() as int] is Ok));
                return Err(());
            },
        }
    }
    assert forall|i: int| 0 <= i < all.len() implies #[trigger] all[i] is Ok by {
        assert(all[i] == Ok::<PreservedSingleCall, ()>(calls@[i]));
    }
    Ok(calls)
}

impl PreservedRequest {
    /// A body is one call where it reads as one, else a batch where it reads as one, else
    /// nothing. `single` and `batch` are the two readings.
    pub fn from_attempts(
        single: Result<PreservedSingleCall, ()>,
        batch: Result<Vec<PreservedSingleCall>, ()>,
    ) -> (r: Result<Self, ()>)
        ensures
            match single {
                Ok(call) => r == Ok::<Self, ()>(PreservedRequest::Single(call)),
                Err(_) => match batch {
                    Ok(calls) => r == Ok::<Self, ()>(PreservedRequest::Batch(calls)),
                    Err(_) => r == Err::<Self, ()>(()),
                },
            },
    {
        if let Ok(single_call) = single {
            return Ok(PreservedRequest::Single(single_call));
        }
        if let Ok(batch_calls) = batch {
            return Ok(PreservedRequest::Batch(batch_calls));
        }
        Err(())
    }
}

} // verus!
