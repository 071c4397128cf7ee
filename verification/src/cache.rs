use vstd::prelude::*;

use crate::gateway_config::{CacheConfig, ChainConfig};
use crate::digits::{digits_of, format_digits};
use crate::text::{chars_of, string_from_chars};

verus! {

/// The cache backend a chain gets.
#[derive(Clone, Debug, PartialEq, Eq)]
pub enum CacheBackendPlan {
    Local { capacity: u64 },
    Redis { url: String, pool_size: u32, key_prefix: Option<String> },
}

/// The cache a chain gets: its backend and the block time its lifetimes are based on.
#[derive(Clone, Debug, PartialEq, Eq)]
pub struct CachePlan {
    pub backend: CacheBackendPlan,
    pub block_time: u64,
}

/// Decides the cache of a chain: none without a block time (lifetimes are based on it), none
/// where caching is disabled, else the configured backend.
pub fn plan_cache(cache_config: &CacheConfig, chain_config: &ChainConfig) -> (r: Option<CachePlan>)
    ensures
        chain_config.block_time is None ==> r is None,
        chain_config.block_time matches Some(bt) ==> match *cache_config {
            CacheConfig::Disabled => r is None,
            CacheConfig::Local { capacity } => r == Some(CachePlan { backend: CacheBackendPlan::Local { capacity }, block_time: bt }),
            CacheConfig::Redis { url, pool_size, key_prefix } => r == Some(
                CachePlan { backend: CacheBackendPlan::Redis { url, pool_size, key_prefix }, block_time: bt },
            ),
        },
{
    let block_time = match chain_config.block_time {
        Some(bt) => bt,
        None => return None,
    };
    match cache_config {
        CacheConfig::Disabled => None,
        CacheConfig::Local { capacity } => Some(CachePlan { backend: CacheBackendPlan::Local { capacity: *capacity }, block_time }),
        CacheConfig::Redis { url, pool_size, key_prefix } => Some(
            CachePlan {
                backend: CacheBackendPlan::Redis {
                    url: url.clone(),
                    pool_size: *pool_size,
                    key_prefix: match key_prefix {
                        Some(p) => Some(p.clone()),
                        None => None,
                    },
                },
                block_time,
            },
        ),
    }
}

/// The Redis key of a request on a chain: the chain id in decimal, a colon, the request's JSON.
pub fn redis_key(chain_id: u64, request_json: &String) -> (r: String)
    ensures
        r@ == digits_of(chain_id as nat, 10) + seq![':'] + request_json@,
{
    let mut v = format_digits(chain_id as u128, 10);
    v.push(':');
    let mut rest = chars_of(request_json.as_str());
    v.append(&mut rest);
    string_from_chars(&v)
}

/// A cached response and how long it may live, in seconds.
#[derive(Debug, Clone)]
pub struct CacheEntry {
    pub value: serde_json::Value,
    pub ttl: u64,
}

impl CacheEntry {
    /// An entry holding `value` for `ttl` seconds.
    pub fn new(value: serde_json::Value, ttl: u64) -> (r: Self)
        ensures
            r.value == value,
            r.ttl == ttl,
    {
        CacheEntry { value, ttl }
    }
}

/// The expiry policy of the local cache: every entry lives for its own time to live, counted
/// from when it was last written.
#[derive(Debug, Clone, Copy)]
pub struct TtlExpiry;

impl TtlExpiry {
    /// How long a new entry lives: its time to live.
    pub fn expire_after_create(&self, key: &String, value: &CacheEntry) -> (r: Option<u64>)
        ensures
            r == Some(value.ttl),
    {
        Some(value.ttl)
    }

    /// How long an overwritten entry lives: the new entry's time to live, as if it were new.
    pub fn expire_after_update(&self, key: &String, value: &CacheEntry) -> (r: Option<u64>)
        ensures
            r == Some(value.ttl),
    {
        self.expire_after_create(key, value)
    }
}

} // verus!
