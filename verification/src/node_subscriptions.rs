use vstd::prelude::*;

use std::collections::HashMap;
use std::sync::Arc;

use crate::rpc::{
    subscription_id_text, RpcInboundRequest, RpcOutboundSubscriptionPayloadResponse,
    RpcOutboundSubscriptionPayloadResponseParams, RpcOutboundSuccessResponse, RpcRequestId,
    SubscriptionId, SubscriptionKind, JSON_RPC_VERSION,
};
use crate::target_endpoint::string_is;

verus! {

broadcast use {
    vstd::std_specs::hash::group_hash_axioms,
    vstd::hash_map::group_hash_map_axioms,
};

/// The kinds of WebSocket message.
#[derive(Debug, Clone, Copy, PartialEq, Eq, Structural)]
pub enum FrameKind {
    Text,
    Binary,
    Ping,
    Pong,
    Close,
    Frame,
}

/// Whether a message of this kind carries a JSON payload to decode (text and binary messages
/// do; control messages are passed over).
pub fn carries_payload(kind: FrameKind) -> (r: bool)
    ensures
        r == (kind == FrameKind::Text || kind == FrameKind::Binary),
{
    match kind {
        FrameKind::Text | FrameKind::Binary => true,
        _ => false,
    }
}

/// Why a node did not open the subscription it was asked for.
#[derive(Debug, Clone, Copy, PartialEq, Eq, Structural)]
pub enum SubscriptionInitError {
    /// The node's first answer was for another request.
    DifferentRequest,
    /// The request was not an `eth_subscribe` call.
    NotSubscription,
}

/// What a node's first answer, carrying the id `response_id`, says of the subscription `request`:
/// an answer to another request fails first, then a request other than `eth_subscribe`.
pub open spec fn subscription_init_outcome(request: RpcInboundRequest, response_id: RpcRequestId) -> Result<
    (),
    SubscriptionInitError,
> {
    if response_id != request.id {
        Err(SubscriptionInitError::DifferentRequest)
    } else if request.method@ != "eth_subscribe"@ {
        Err(SubscriptionInitError::NotSubscription)
    } else {
        Ok(())
    }
}

/// Checks a node's first answer to a subscription request.
pub fn check_subscription_init(request: &RpcInboundRequest, response_id: RpcRequestId) -> (r: Result<
    (),
    SubscriptionInitError,
>)
    ensures
        r == subscription_init_outcome(*request, response_id),
{
    let same_id = match (response_id, request.id) {
        (Some(a), Some(b)) => a == b,
        (None, None) => true,
        _ => false,
    };
    if !same_id {
        return Err(SubscriptionInitError::DifferentRequest);
    }
    if !string_is(&request.method, "eth_subscribe") {
        return Err(SubscriptionInitError::NotSubscription);
    }
    Ok(())
}

/// After opening a subscription on the endpoint at index `tried` (of `count`) failed: the next
/// endpoint to try, or `None` when none is left.
pub fn next_endpoint_after_failure(tried: usize, count: usize) -> (r: Option<usize>)
    requires
        tried < count,
    ensures
        r == (if tried + 1 < count {
            Some((tried + 1) as usize)
        } else {
            None::<usize>
        }),
{
    if tried + 1 < count {
        Some(tried + 1)
    } else {
        None
    }
}

/// What happened while relaying a node's subscription messages.
#[derive(Debug, Clone, Copy, PartialEq, Eq, Structural)]
pub enum BroadcastEvent {
    /// The node's socket has no more messages.
    StreamEnded,
    /// Reading from the node's socket failed.
    ReadFailed,
    /// A message of this kind came in.
    Received(FrameKind),
    /// The payload of the last message was not a subscription notification.
    DecodeFailed,
    /// The payload of the last message was a subscription notification.
    Decoded,
    /// Handing the notification to the subscribers failed (none is left).
    SendFailed,
    /// The notification was handed to the subscribers.
    Sent,
}

/// What the relay does next.
#[derive(Debug, Clone, Copy, PartialEq, Eq, Structural)]
pub enum BroadcastAction {
    /// Stop relaying; the subscription is over.
    Stop,
    /// Pass over this message and wait for the next.
    Skip,
    /// Decode the message as a subscription notification.
    Decode,
    /// Hand the notification's result to the subscribers.
    Publish,
    /// Wait for the next message.
    AwaitNext,
}

/// The relay of a node subscription: it stops when the socket ends or fails, when a payload is
/// no notification and when nobody listens any more; control messages are passed over.
pub open spec fn broadcast_action(event: BroadcastEvent) -> BroadcastAction {
    match event {
        BroadcastEvent::StreamEnded => BroadcastAction::Stop,
        BroadcastEvent::ReadFailed => BroadcastAction::Stop,
        BroadcastEvent::Received(kind) => if kind == FrameKind::Text || kind == FrameKind::Binary {
            BroadcastAction::Decode
        } else {
            BroadcastAction::Skip
        },
        BroadcastEvent::DecodeFailed => BroadcastAction::Stop,
        BroadcastEvent::Decoded => BroadcastAction::Publish,
        BroadcastEvent::SendFailed => BroadcastAction::Stop,
        BroadcastEvent::Sent => BroadcastAction::AwaitNext,
    }
}

/// The next step of the relay of a node subscription.
pub fn broadcast_step(event: BroadcastEvent) -> (r: BroadcastAction)
    ensures
        r == broadcast_action(event),
{
    match event {
        BroadcastEvent::StreamEnded => BroadcastAction::Stop,
        BroadcastEvent::ReadFailed => BroadcastAction::Stop,
        BroadcastEvent::Received(kind) => if carries_payload(kind) {
            BroadcastAction::Decode
        } else {
            BroadcastAction::Skip
        },
        BroadcastEvent::DecodeFailed => BroadcastAction::Stop,
        BroadcastEvent::Decoded => BroadcastAction::Publish,
        BroadcastEvent::SendFailed => BroadcastAction::Stop,
        BroadcastEvent::Sent => BroadcastAction::AwaitNext,
    }
}

/// The map key of a node subscription kind.
pub open spec fn subscription_kind_code(k: SubscriptionKind) -> u8 {
    match k {
        SubscriptionKind::NewHeads => 0,
        SubscriptionKind::NewPendingTransactions => 1,
    }
}

/// The map key of a node subscription kind.
pub fn kind_code(k: SubscriptionKind) -> (r: u8)
    ensures
        r == subscription_kind_code(k),
{
    match k {
        SubscriptionKind::NewHeads => 0,
        SubscriptionKind::NewPendingTransactions => 1,
    }
}

/// The cells after asking for the cell of the kind keyed `key` with `fresh` at hand, and the
/// cell given: the one already there, else `fresh`, which is then kept.
pub open spec fn cell_for<T>(m: Map<u8, Arc<T>>, key: u8, fresh: Arc<T>) -> (Map<u8, Arc<T>>, Arc<T>) {
    if m.contains_key(key) {
        (m, m[key])
    } else {
        (m.insert(key, fresh), fresh)
    }
}

/// Subscriptions of one kind share one upstream subscription: after the first request for a
/// kind, every later request gets the same cell, until the kind's relay ends and its cell is
/// removed.
pub proof fn lemma_one_cell_per_kind<T>(m: Map<u8, Arc<T>>, kind: SubscriptionKind, first: Arc<T>, later: Arc<T>)
    ensures
        cell_for(m, subscription_kind_code(kind), first).0.contains_key(subscription_kind_code(kind)),
        cell_for(cell_for(m, subscription_kind_code(kind), first).0, subscription_kind_code(kind), later) == (
            cell_for(m, subscription_kind_code(kind), first).0,
            cell_for(m, subscription_kind_code(kind), first).1,
        ),
        cell_for(
            cell_for(m, subscription_kind_code(kind), first).0.remove(subscription_kind_code(kind)),
            subscription_kind_code(kind),
            later,
        ).1 == later,
{
}

/// The node subscriptions that are open, at most one shared cell per kind.
pub struct ActiveSubscriptions<T> {
    pub cells: HashMap<u8, Arc<T>>,
}

impl<T> ActiveSubscriptions<T> {
    /// No subscription open.
    pub fn new() -> (r: Self)
        ensures
            r.cells@ == Map::<u8, Arc<T>>::empty(),
    {
        ActiveSubscriptions { cells: HashMap::new() }
    }

    /// The cell of `kind`: the one already there, else `fresh`, which is then kept for the kind.
    pub fn get_or_insert(&mut self, kind: SubscriptionKind, fresh: Arc<T>) -> (r: Arc<T>)
        ensures
            (final(self).cells@, r) == cell_for(old(self).cells@, subscription_kind_code(kind), fresh),
    {
        let key = kind_code(kind);
        match self.cells.get(&key) {
            Some(cell) => cell.clone(),
            None => {
                let kept = fresh.clone();
                self.cells.insert(key, kept);
                fresh
            },
        }
    }

    /// Forgets the subscription of `kind` (its relay has ended); tells whether there was one.
    pub fn remove(&mut self, kind: SubscriptionKind) -> (r: bool)
        ensures
            r == old(self).cells@.contains_key(subscription_kind_code(kind)),
            final(self).cells@ == old(self).cells@.remove(subscription_kind_code(kind)),
    {
        let key = kind_code(kind);
        match self.cells.remove(&key) {
            Some(_) => true,
            None => false,
        }
    }
}

/// The subscription kind named by a client's first parameter: `newHeads` or
/// `newPendingTransactions`.
pub open spec fn kind_named(params: Option<Vec<String>>) -> Option<SubscriptionKind> {
    match params {
        Some(v) => if v@.len() > 0 && v@[0]@ == "newHeads"@ {
            Some(SubscriptionKind::NewHeads)
        } else if v@.len() > 0 && v@[0]@ == "newPendingTransactions"@ {
            Some(SubscriptionKind::NewPendingTransactions)
        } else {
            None
        },
        None => None,
    }
}

/// The kind of subscription a client's request asks for, from its first parameter; `None` when
/// it names no kind the gateway serves.
pub fn subscription_kind_of(params: &Option<Vec<String>>) -> (r: Option<SubscriptionKind>)
    ensures
        r == kind_named(*params),
{
    match params {
        Some(v) => {
            if v.len() > 0 && string_is(&v[0], "newHeads") {
                Some(SubscriptionKind::NewHeads)
            } else if v.len() > 0 && string_is(&v[0], "newPendingTransactions") {
                Some(SubscriptionKind::NewPendingTransactions)
            } else {
                None
            }
        },
        None => None,
    }
}

/// The answer that confirms a subscription to the client: the request's id and, as result, the
/// subscription id in lower-case hex.
pub fn subscription_ack(id: RpcRequestId, subscription: &SubscriptionId) -> (r: RpcOutboundSuccessResponse)
    ensures
        r.id == id,
        r.jsonrpc == JSON_RPC_VERSION,
        r.result@ == subscription_id_text(subscription.0),
{
    RpcOutboundSuccessResponse { id, jsonrpc: JSON_RPC_VERSION, result: subscription.to_hex_string() }
}

/// The notification sent to a client for one result of its subscription.
pub fn subscription_payload(result: serde_json::Value, subscription: &SubscriptionId) -> (r:
    RpcOutboundSubscriptionPayloadResponse)
    ensures
        r.jsonrpc == JSON_RPC_VERSION,
        r.method@ == "eth_subscribe"@,
        r.params.result == result,
        r.params.subscription@ == subscription_id_text(subscription.0),
{
    RpcOutboundSubscriptionPayloadResponse {
        jsonrpc: JSON_RPC_VERSION,
        method: "eth_subscribe".to_owned(),
        params: RpcOutboundSubscriptionPayloadResponseParams {
            result,
            subscription: subscription.to_hex_string(),
        },
    }
}

} // verus!
