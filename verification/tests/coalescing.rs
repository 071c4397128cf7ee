use std::sync::Arc;

use rpc_gateway::coalescing::InFlight;

#[test]
fn joiners_share_the_request_under_way() {
    let mut table: InFlight<&'static str> = InFlight::new();
    let (first, started) = table.join("eth_blockNumber:[]".to_string(), Arc::new("a"));
    assert!(started);
    assert_eq!(*first, "a");

    let (second, started) = table.join("eth_blockNumber:[]".to_string(), Arc::new("b"));
    assert!(!started);
    assert!(Arc::ptr_eq(&first, &second));

    let (other, started) = table.join("eth_chainId:[]".to_string(), Arc::new("c"));
    assert!(started);
    assert_eq!(*other, "c");
    assert_eq!(table.entries.len(), 2);
}

#[test]
fn a_finished_request_leaves_the_table() {
    let mut table: InFlight<u32> = InFlight::new();
    let key = "k".to_string();
    let _ = table.join(key.clone(), Arc::new(1));
    assert!(table.finish(&key));
    assert!(!table.finish(&key));
    assert!(table.entries.is_empty());

    let (next, started) = table.join(key.clone(), Arc::new(2));
    assert!(started);
    assert_eq!(*next, 2);
}
