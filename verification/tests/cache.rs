use rpc_gateway::cache::{plan_cache, redis_key, CacheBackendPlan, CacheEntry, CachePlan, TtlExpiry};
use rpc_gateway::gateway_config::{CacheConfig, ChainConfig};

fn chain(block_time: Option<u64>) -> ChainConfig {
    ChainConfig { chain_id: 1, block_time, upstreams: vec![] }
}

#[test]
fn no_block_time_means_no_cache() {
    assert_eq!(plan_cache(&CacheConfig::Local { capacity: 10 }, &chain(None)), None);
}

#[test]
fn disabled_cache() {
    assert_eq!(plan_cache(&CacheConfig::Disabled, &chain(Some(12))), None);
}

#[test]
fn configured_backends() {
    assert_eq!(
        plan_cache(&CacheConfig::Local { capacity: 10 }, &chain(Some(12))),
        Some(CachePlan { backend: CacheBackendPlan::Local { capacity: 10 }, block_time: 12 })
    );
    let redis = CacheConfig::Redis { url: "redis://x".to_string(), pool_size: 4, key_prefix: None };
    assert_eq!(
        plan_cache(&redis, &chain(Some(2))),
        Some(CachePlan {
            backend: CacheBackendPlan::Redis { url: "redis://x".to_string(), pool_size: 4, key_prefix: None },
            block_time: 2
        })
    );
}

#[test]
fn redis_keys() {
    assert_eq!(redis_key(8453, &"{\"method\":\"eth_blockNumber\"}".to_string()), "8453:{\"method\":\"eth_blockNumber\"}");
    assert_eq!(redis_key(0, &String::new()), "0:");
}

#[test]
fn entries_expire_after_their_own_ttl() {
    let entry = CacheEntry::new(serde_json::Value::Bool(true), 12);
    assert_eq!(TtlExpiry.expire_after_create(&"k".to_string(), &entry), Some(12));
    let later = CacheEntry::new(serde_json::Value::Null, 31536000);
    assert_eq!(TtlExpiry.expire_after_update(&"k".to_string(), &later), Some(31536000));
}
