use rpc_gateway::eth::{BlockId, BlockNumberOrTag, EthRequest, LenientBlockNumber};
use rpc_gateway::ttl::{ttl_for_request_given, ttl_for_tag_given, TTLManager, ONE_YEAR, SETTLED_DEPTH};

#[test]
fn one_year_in_seconds() {
    assert_eq!(ONE_YEAR, 365 * 24 * 60 * 60);
    assert_eq!(SETTLED_DEPTH, 50);
}

#[test]
fn tags() {
    assert_eq!(ttl_for_tag_given(12, &BlockNumberOrTag::Latest, 100), Some(12));
    assert_eq!(ttl_for_tag_given(12, &BlockNumberOrTag::Safe, 100), Some(12));
    assert_eq!(ttl_for_tag_given(12, &BlockNumberOrTag::Finalized, 100), Some(ONE_YEAR));
    assert_eq!(ttl_for_tag_given(12, &BlockNumberOrTag::Earliest, 100), Some(ONE_YEAR));
    assert_eq!(ttl_for_tag_given(12, &BlockNumberOrTag::Pending, 100), None);
}

#[test]
fn settled_blocks_are_cached_for_a_year() {
    // more than 50 blocks behind the latest
    assert_eq!(ttl_for_tag_given(12, &BlockNumberOrTag::Number(49), 100), Some(ONE_YEAR));
    // exactly 50 behind is not settled yet
    assert_eq!(ttl_for_tag_given(12, &BlockNumberOrTag::Number(50), 100), Some(12));
    assert_eq!(ttl_for_tag_given(12, &BlockNumberOrTag::Number(100), 100), Some(12));
    assert_eq!(ttl_for_tag_given(12, &BlockNumberOrTag::Number(150), 100), Some(12));
}

#[test]
fn requests() {
    assert_eq!(ttl_for_request_given(2, &EthRequest::EthNetworkId, 0), Some(ONE_YEAR));
    assert_eq!(ttl_for_request_given(2, &EthRequest::EthGasPrice, 0), Some(2));
    assert_eq!(ttl_for_request_given(2, &EthRequest::EthChainId, 0), None);
    assert_eq!(ttl_for_request_given(2, &EthRequest::Web3ClientVersion, 0), None);
    assert_eq!(ttl_for_request_given(2, &EthRequest::EthCall { block_id: None }, 0), Some(2));
    assert_eq!(
        ttl_for_request_given(2, &EthRequest::EthCall { block_id: Some(BlockId::Hash([7; 32])) }, 0),
        Some(ONE_YEAR)
    );
    // a block parameter that is not cached falls back to one block time
    assert_eq!(
        ttl_for_request_given(
            2,
            &EthRequest::EthGetBalance {
                address: [0; 20],
                block_id: Some(BlockId::Number(BlockNumberOrTag::Pending))
            },
            0
        ),
        Some(2)
    );
    assert_eq!(
        ttl_for_request_given(
            2,
            &EthRequest::EthGetBlockByNumber { block_number: BlockNumberOrTag::Pending, full: true },
            0
        ),
        None
    );
    assert_eq!(
        ttl_for_request_given(
            2,
            &EthRequest::EthGetBlockByNumber { block_number: BlockNumberOrTag::Number(1), full: true },
            1000
        ),
        Some(ONE_YEAR)
    );
}

#[test]
fn manager_uses_its_block_time() {
    let manager = TTLManager::new(12);
    assert_eq!(manager.get_ttl(&EthRequest::EthBlockNumber), Some(12));
    assert_eq!(manager.get_ttl_from_block_id(&BlockId::Hash([0; 32])), Some(ONE_YEAR));
    // no latest block is known yet: a numbered block is treated as recent
    assert_eq!(manager.get_ttl_from_block_number_or_tag(&BlockNumberOrTag::Number(1)), Some(12));
}

#[test]
fn lenient_block_numbers() {
    assert_eq!(LenientBlockNumber::Num(5).into_block_number_or_tag(), BlockNumberOrTag::Number(5));
    assert_eq!(
        LenientBlockNumber::BlockNumber(BlockNumberOrTag::Safe).into_block_number_or_tag(),
        BlockNumberOrTag::Safe
    );
}

#[test]
fn settled_blocks_stay_settled() {
    assert_eq!(ttl_for_tag_given(12, &BlockNumberOrTag::Number(10), 61), Some(ONE_YEAR));
    for later in [61u64, 62, 1000, u64::MAX] {
        assert_eq!(ttl_for_tag_given(12, &BlockNumberOrTag::Number(10), later), Some(ONE_YEAR));
    }
}

#[test]
fn manager_answers_agree_for_one_latest_block() {
    let manager = TTLManager::new(12);
    // the manager starts from latest block 0 and nothing moves it
    let latest = 0;
    for n in [0u64, 1, 51, 1000] {
        let tag = BlockNumberOrTag::Number(n);
        assert_eq!(
            manager.get_ttl(&EthRequest::EthGetBlockByNumber { block_number: tag, full: false }),
            manager.get_ttl_from_block_number_or_tag(&tag)
        );
        assert_eq!(manager.get_ttl_from_block_number_or_tag(&tag), ttl_for_tag_given(12, &tag, latest));
        assert_eq!(
            manager.get_ttl(&EthRequest::EthGetBalance { address: [0; 20], block_id: Some(BlockId::Number(tag)) }),
            manager.get_ttl_from_block_id(&BlockId::Number(tag))
        );
    }
    assert_eq!(
        manager.get_ttl(&EthRequest::EthGetBalance { address: [0; 20], block_id: None }),
        Some(12)
    );
}
