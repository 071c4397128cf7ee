use vstd::prelude::*;

use crate::target_endpoint::string_is;

verus! {

/// How the gateway reacts when an upstream fails.
#[derive(Clone, Copy, Debug, PartialEq, Eq, Structural)]
pub enum ErrorHandlingConfig {
    /// Try again up to `max_retries` times, waiting `retry_delay_ms` milliseconds (plus up to a
    /// second of random jitter where `jitter` is set) between attempts.
    Retry { max_retries: u32, retry_delay_ms: u64, jitter: bool },
    /// One attempt only.
    FailFast,
    /// Not implemented yet: one attempt only.
    CircuitBreaker,
}

/// Which methods the gateway answers itself.
#[derive(Clone, Copy, Debug, PartialEq, Eq, Structural)]
pub struct CannedResponseMethods {
    pub web3_client_version: bool,
    pub eth_chain_id: bool,
}

/// Whether the gateway answers some methods itself, and which.
#[derive(Clone, Copy, Debug, PartialEq, Eq, Structural)]
pub struct CannedResponseConfig {
    pub enabled: bool,
    pub methods: CannedResponseMethods,
}

/// Whether identical concurrent calls share one upstream request, and for which methods.
#[derive(Clone, Debug, PartialEq, Eq)]
pub struct RequestCoalescingConfig {
    pub enabled: bool,
    pub methods: Vec<String>,
}

/// Whether some entry of `methods` is `method`.
pub open spec fn lists_method(methods: Seq<String>, method: Seq<char>) -> bool {
    exists|i: int| 0 <= i < methods.len() && #[trigger] methods[i]@ == method
}

impl RequestCoalescingConfig {
    /// Whether calls of `method` are coalesced: coalescing is enabled and lists the method.
    pub fn should_coalesce(&self, method: &str) -> (r: bool)
        ensures
            r == (self.enabled && lists_method(self.methods@, method@)),
    {
        if !self.enabled {
            return false;
        }
        let mut i: usize = 0;
        while i < self.methods.len()
            invariant
                i <= self.methods.len(),
                self.enabled,
                forall|j: int| 0 <= j < i ==> self.methods@[j]@ != method@,
            decreases self.methods.len() - i,
        {
            if string_is(&self.methods[i], method) {
                assert(self.methods@[i as int]@ == method@);
                return true;
            }
            i = i + 1;
        }
        false
    }
}

/// Where cached responses are kept.
#[derive(Clone, Debug, PartialEq, Eq)]
pub enum CacheConfig {
    Disabled,
    Local { capacity: u64 },
    Redis { url: String, pool_size: u32, key_prefix: Option<String> },
}

/// One upstream node of a chain.
#[derive(Clone, Debug, PartialEq, Eq)]
pub struct UpstreamConfig {
    pub url: String,
    pub weight: u32,
}

/// A chain the gateway serves: its id, its block time in seconds where known, its upstreams.
#[derive(Clone, Debug, PartialEq, Eq)]
pub struct ChainConfig {
    pub chain_id: u64,
    pub block_time: Option<u64>,
    pub upstreams: Vec<UpstreamConfig>,
}

/// A project using the gateway: its name and the key its requests must carry.
#[derive(Clone, Debug, PartialEq, Eq)]
pub struct ProjectConfig {
    pub name: String,
    pub key: Option<String>,
}

} // verus!
