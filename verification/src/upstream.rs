use vstd::prelude::*;

use rand::Rng;

use crate::request_pool::UpstreamError;
use crate::response::{ResponseResult, RpcResponse};

verus! {

/// A random whole number of milliseconds below a second (rand's `random_range(0..1000)` on
/// the thread-local generator).
#[verifier::external_body]
fn random_jitter_ms() -> (r: u64)
    ensures
        r < 1000,
{
    rand::rng().random_range(0..1000u64)
}

/// Forwarding one call with retries, between two attempts: attempts are numbered from 0, and
/// there are at most `max_retries + 1` of them.
#[derive(Clone, Copy, Debug, PartialEq, Eq, Structural)]
pub struct RetryLoop {
    /// The number of the attempt that is under way or comes next.
    pub attempt: u64,
    pub max_retries: u32,
    /// The wait between attempts, in milliseconds.
    pub retry_delay_ms: u64,
    /// Whether up to a second of random wait is added.
    pub jitter: bool,
}

/// The retry loop is well formed: no attempt beyond the last.
pub open spec fn retry_loop_wf(l: RetryLoop) -> bool {
    l.attempt <= l.max_retries
}

impl RetryLoop {
    /// Before the first attempt.
    pub fn new(max_retries: u32, retry_delay_ms: u64, jitter: bool) -> (r: Self)
        ensures
            r == (RetryLoop { attempt: 0, max_retries, retry_delay_ms, jitter }),
            retry_loop_wf(r),
    {
        RetryLoop { attempt: 0, max_retries, retry_delay_ms, jitter }
    }

    /// After the attempt under way failed, with `jitter_ms` the random wait drawn for it:
    /// `Some((delay, extra))` to wait `delay` and then `extra` milliseconds (the jitter, 0
    /// without it) and try again, `None` to give up because that was the last attempt.
    pub fn after_failure_with(&mut self, jitter_ms: u64) -> (r: Option<(u64, u64)>)
        requires
            retry_loop_wf(*old(self)),
            jitter_ms < 1000,
        ensures
            final(self).attempt == old(self).attempt + 1,
            final(self).max_retries == old(self).max_retries,
            final(self).retry_delay_ms == old(self).retry_delay_ms,
            final(self).jitter == old(self).jitter,
            r == (if old(self).attempt < old(self).max_retries {
                Some((old(self).retry_delay_ms, if old(self).jitter { jitter_ms } else { 0 }))
            } else {
                None::<(u64, u64)>
            }),
            r is Some ==> retry_loop_wf(*final(self)),
    {
        let retry = self.attempt < self.max_retries as u64;
        self.attempt = self.attempt + 1;
        if retry {
            let extra = if self.jitter {
                jitter_ms
            } else {
                0
            };
            Some((self.retry_delay_ms, extra))
        } else {
            None
        }
    }

    /// After the attempt under way failed: draws the jitter and decides as
    /// [`RetryLoop::after_failure_with`] does.
    pub fn after_failure(&mut self) -> (r: Option<(u64, u64)>)
        requires
            retry_loop_wf(*old(self)),
        ensures
            final(self).attempt == old(self).attempt + 1,
            final(self).max_retries == old(self).max_retries,
            final(self).retry_delay_ms == old(self).retry_delay_ms,
            final(self).jitter == old(self).jitter,
            (r is Some) == (old(self).attempt < old(self).max_retries),
            r matches Some((d, extra)) ==> d == old(self).retry_delay_ms && extra < 1000,
            !old(self).jitter ==> (r matches Some((_, extra)) ==> extra == 0),
            r is Some ==> retry_loop_wf(*final(self)),
    {
        let jitter_ms = if self.jitter {
            random_jitter_ms()
        } else {
            0
        };
        self.after_failure_with(jitter_ms)
    }
}

/// How many attempts a loop that fails every time makes before giving up.
pub open spec fn attempts_until_give_up(l: RetryLoop) -> nat
    decreases l.max_retries - l.attempt,
{
    if l.attempt >= l.max_retries {
        1
    } else {
        1 + attempts_until_give_up(RetryLoop { attempt: (l.attempt + 1) as u64, ..l })
    }
}

/// A call that fails every time is attempted exactly `max_retries + 1` times.
pub proof fn lemma_retry_attempts(max_retries: u32, retry_delay_ms: u64, jitter: bool)
    ensures
        attempts_until_give_up(RetryLoop { attempt: 0, max_retries, retry_delay_ms, jitter }) == max_retries + 1,
{
    lemma_attempts_remaining(RetryLoop { attempt: 0, max_retries, retry_delay_ms, jitter });
}

proof fn lemma_attempts_remaining(l: RetryLoop)
    requires
        l.attempt <= l.max_retries,
    ensures
        attempts_until_give_up(l) == l.max_retries - l.attempt + 1,
    decreases l.max_retries - l.attempt,
{
    if l.attempt < l.max_retries {
        lemma_attempts_remaining(RetryLoop { attempt: (l.attempt + 1) as u64, ..l });
    }
}

/// Whether an upstream that answered the chain id `reported` serves the chain `expected`.
pub fn readiness_verdict(reported: Option<u64>, expected: u64) -> (r: bool)
    ensures
        r == (reported == Some(expected)),
{
    match reported {
        Some(chain_id) => chain_id == expected,
        None => false,
    }
}

/// What alloy's `U64` makes of a JSON value when deserialized from it (a `0x` hex string of a
/// number that fits), as a `u64`; `None` where it refuses the value.
pub uninterp spec fn json_quantity(v: serde_json::Value) -> Option<u64>;

/// Reads a JSON value as a 64-bit quantity by deserializing alloy's `U64` from it: the result
/// is the one `json_quantity` names for the value. Which values alloy accepts is not stated.
#[verifier::external_body]
fn quantity_from_json(v: &serde_json::Value) -> (r: Option<u64>)
    ensures
        r == json_quantity(*v),
{
    match serde_json::from_value::<alloy_primitives::U64>(v.clone()) {
        Ok(n) => Some(n.to::<u64>()),
        Err(_) => None,
    }
}

/// Whether the answer to an `eth_chainId` probe shows an upstream ready for chain `expected`:
/// only a success whose result reads as the quantity `expected` does.
pub fn readiness_from_response(response: &Result<RpcResponse, UpstreamError>, expected: u64) -> (r: bool)
    ensures
        r == match response {
            Ok(resp) => match resp.result {
                ResponseResult::Success(v) => json_quantity(v) == Some(expected),
                ResponseResult::Error(_) => false,
            },
            Err(_) => false,
        },
{
    match response {
        Err(_) => false,
        Ok(resp) => match &resp.result {
            ResponseResult::Error(_) => false,
            ResponseResult::Success(v) => readiness_verdict(quantity_from_json(v), expected),
        },
    }
}

} // verus!
