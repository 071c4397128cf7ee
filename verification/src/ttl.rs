use vstd::prelude::*;

use crate::eth::{BlockId, BlockNumberOrTag, EthRequest};

verus! {

/// The latest block number of a chain, held in an `arc_swap::ArcSwap` cell in a private field.
/// The cell is made by `new_latest_block_number` and read by `load_latest_block_number`;
/// `latest_value` names the number it holds. Nothing stores into the cell after it is made.
#[verifier::external_body]
#[derive(Debug)]
pub struct LatestBlockNumber {
    cell: arc_swap::ArcSwap<u64>,
}

/// How long, in seconds, responses about settled blocks may be cached: one year.
pub const ONE_YEAR: u64 = 31536000;

/// How many blocks behind the latest a block must be to count as settled.
pub const SETTLED_DEPTH: u64 = 50;

/// The cache lifetime, in seconds, of a response about the block `tag`, given the block time
/// and the latest block number: settled blocks, finalized and earliest keep a year; latest,
/// safe and recent numbers one block time; pending is not cached.
pub open spec fn ttl_for_tag(block_time: u64, tag: BlockNumberOrTag, latest: u64) -> Option<u64> {
    match tag {
        BlockNumberOrTag::Latest => Some(block_time),
        BlockNumberOrTag::Finalized => Some(ONE_YEAR),
        BlockNumberOrTag::Safe => Some(block_time),
        BlockNumberOrTag::Earliest => Some(ONE_YEAR),
        BlockNumberOrTag::Pending => None,
        BlockNumberOrTag::Number(n) => if n < latest && latest - n > SETTLED_DEPTH {
            Some(ONE_YEAR)
        } else {
            Some(block_time)
        },
    }
}

/// The cache lifetime of a response about the block `id`: a year for a block hash.
pub open spec fn ttl_for_block_id(block_time: u64, id: BlockId, latest: u64) -> Option<u64> {
    match id {
        BlockId::Hash(_) => Some(ONE_YEAR),
        BlockId::Number(tag) => ttl_for_tag(block_time, tag, latest),
    }
}

/// The cache lifetime of a response whose block parameter may be absent: one block time where
/// it is absent or names a block whose responses are not cached.
pub open spec fn ttl_for_optional_block(block_time: u64, id: Option<BlockId>, latest: u64) -> Option<u64> {
    match id {
        Some(b) => match ttl_for_block_id(block_time, b, latest) {
            Some(t) => Some(t),
            None => Some(block_time),
        },
        None => Some(block_time),
    }
}

/// The cache lifetime, in seconds, of the response to `req`; `None` where it is not cached.
pub open spec fn ttl_for_request(block_time: u64, req: EthRequest, latest: u64) -> Option<u64> {
    match req {
        EthRequest::EthNetworkId => Some(ONE_YEAR),
        EthRequest::EthGasPrice => Some(block_time),
        EthRequest::EthMaxPriorityFeePerGas => Some(block_time),
        EthRequest::EthBlobBaseFee => Some(block_time),
        EthRequest::EthBlockNumber => Some(block_time),
        EthRequest::EthGetBalance { block_id, .. } => ttl_for_optional_block(block_time, block_id, latest),
        EthRequest::EthGetStorageAt { block_id, .. } => ttl_for_optional_block(block_time, block_id, latest),
        EthRequest::EthGetBlockByHash { .. } => Some(ONE_YEAR),
        EthRequest::EthGetBlockByNumber { block_number, .. } => ttl_for_tag(block_time, block_number, latest),
        EthRequest::EthGetTransactionCount { block_id, .. } => ttl_for_optional_block(block_time, block_id, latest),
        EthRequest::EthGetCodeAt { block_id, .. } => ttl_for_optional_block(block_time, block_id, latest),
        EthRequest::EthCall { block_id } => ttl_for_optional_block(block_time, block_id, latest),
        EthRequest::EthEstimateGas { block_id } => ttl_for_optional_block(block_time, block_id, latest),
        EthRequest::EthGetTransactionReceipt { .. } => Some(block_time),
        EthRequest::EthGetLogs => Some(block_time),
        EthRequest::EthChainId => None,
        EthRequest::Web3ClientVersion => None,
    }
}

/// The block parameter of a request that may carry one (`eth_getBalance`, `eth_getStorageAt`,
/// `eth_getTransactionCount`, `eth_getCode`, `eth_call`, `eth_estimateGas`); `None` for the
/// other kinds.
pub open spec fn optional_block_of(req: EthRequest) -> Option<Option<BlockId>> {
    match req {
        EthRequest::EthGetBalance { block_id, .. } => Some(block_id),
        EthRequest::EthGetStorageAt { block_id, .. } => Some(block_id),
        EthRequest::EthGetTransactionCount { block_id, .. } => Some(block_id),
        EthRequest::EthGetCodeAt { block_id, .. } => Some(block_id),
        EthRequest::EthCall { block_id } => Some(block_id),
        EthRequest::EthEstimateGas { block_id } => Some(block_id),
        _ => None,
    }
}

/// A request with a block parameter is cached as long as a response about that block, and for
/// one block time where the parameter is absent or names a block whose responses are not
/// cached; so a request about the latest, safe or pending state, or with no block, is cached
/// for one block time.
pub proof fn lemma_block_parameter_decides(block_time: u64, req: EthRequest, latest: u64)
    ensures
        optional_block_of(req) matches Some(b) ==> ttl_for_request(block_time, req, latest) == match b {
            None => Some(block_time),
            Some(id) => if ttl_for_block_id(block_time, id, latest) is Some {
                ttl_for_block_id(block_time, id, latest)
            } else {
                Some(block_time)
            },
        },
        optional_block_of(req) matches Some(b) && (b is None || b == Some(BlockId::Number(BlockNumberOrTag::Latest))
            || b == Some(BlockId::Number(BlockNumberOrTag::Safe)) || b == Some(
            BlockId::Number(BlockNumberOrTag::Pending),
        )) ==> ttl_for_request(block_time, req, latest) == Some(block_time),
{
}

/// Once a block counts as settled it stays settled: as the chain grows, a response about it
/// keeps being cached for a year.
pub proof fn lemma_settled_stays_settled(block_time: u64, n: u64, latest: u64, later: u64)
    requires
        ttl_for_tag(block_time, BlockNumberOrTag::Number(n), latest) == Some(ONE_YEAR),
        latest <= later,
    ensures
        ttl_for_tag(block_time, BlockNumberOrTag::Number(n), later) == Some(ONE_YEAR),
{
}

/// Every cache lifetime is either a year or one block time.
pub proof fn lemma_ttl_bounded(block_time: u64, req: EthRequest, latest: u64)
    ensures
        ttl_for_request(block_time, req, latest) matches Some(t) ==> (t == ONE_YEAR || t == block_time),
{
}

/// The cache lifetime of a response about the block `tag`, given the latest block number.
pub fn ttl_for_tag_given(block_time: u64, tag: &BlockNumberOrTag, latest: u64) -> (r: Option<u64>)
    ensures
        r == ttl_for_tag(block_time, *tag, latest),
{
    match tag {
        BlockNumberOrTag::Latest => Some(block_time),
        BlockNumberOrTag::Finalized => Some(ONE_YEAR),
        BlockNumberOrTag::Safe => Some(block_time),
        BlockNumberOrTag::Earliest => Some(ONE_YEAR),
        BlockNumberOrTag::Pending => None,
        BlockNumberOrTag::Number(number) => {
            if *number < latest && latest - *number > SETTLED_DEPTH {
                Some(ONE_YEAR)
            } else {
                Some(block_time)
            }
        },
    }
}

/// The cache lifetime of a response about the block `id`, given the latest block number.
pub fn ttl_for_block_id_given(block_time: u64, id: &BlockId, latest: u64) -> (r: Option<u64>)
    ensures
        r == ttl_for_block_id(block_time, *id, latest),
{
    match id {
        BlockId::Hash(_) => Some(ONE_YEAR),
        BlockId::Number(tag) => ttl_for_tag_given(block_time, tag, latest),
    }
}

fn ttl_for_optional_block_given(block_time: u64, id: &Option<BlockId>, latest: u64) -> (r: Option<u64>)
    ensures
        r == ttl_for_optional_block(block_time, *id, latest),
{
    match id {
        Some(b) => match ttl_for_block_id_given(block_time, b, latest) {
            Some(t) => Some(t),
            None => Some(block_time),
        },
        None => Some(block_time),
    }
}

/// The cache lifetime of the response to `req`, given the latest block number.
pub fn ttl_for_request_given(block_time: u64, req: &EthRequest, latest: u64) -> (r: Option<u64>)
    ensures
        r == ttl_for_request(block_time, *req, latest),
{
    match req {
        EthRequest::EthNetworkId => Some(ONE_YEAR),
        EthRequest::EthGasPrice => Some(block_time),
        EthRequest::EthMaxPriorityFeePerGas => Some(block_time),
        EthRequest::EthBlobBaseFee => Some(block_time),
        EthRequest::EthBlockNumber => Some(block_time),
        EthRequest::EthGetBalance { block_id, .. } => ttl_for_optional_block_given(block_time, block_id, latest),
        EthRequest::EthGetStorageAt { block_id, .. } => ttl_for_optional_block_given(block_time, block_id, latest),
        EthRequest::EthGetBlockByHash { .. } => Some(ONE_YEAR),
        EthRequest::EthGetBlockByNumber { block_number, .. } => ttl_for_tag_given(block_time, block_number, latest),
        EthRequest::EthGetTransactionCount { block_id, .. } => ttl_for_optional_block_given(block_time, block_id, latest),
        EthRequest::EthGetCodeAt { block_id, .. } => ttl_for_optional_block_given(block_time, block_id, latest),
        EthRequest::EthCall { block_id } => ttl_for_optional_block_given(block_time, block_id, latest),
        EthRequest::EthEstimateGas { block_id } => ttl_for_optional_block_given(block_time, block_id, latest),
        EthRequest::EthGetTransactionReceipt { .. } => Some(block_time),
        EthRequest::EthGetLogs => Some(block_time),
        EthRequest::EthChainId => None,
        EthRequest::Web3ClientVersion => None,
    }
}

/// The block number a latest-block cell holds.
pub uninterp spec fn latest_value(l: LatestBlockNumber) -> u64;

/// A cell holding `value` (arc-swap's `ArcSwap::from_pointee`).
#[verifier::external_body]
fn new_latest_block_number(value: u64) -> (r: LatestBlockNumber)
    ensures
        latest_value(r) == value,
{
    LatestBlockNumber { cell: arc_swap::ArcSwap::from_pointee(value) }
}

/// The value the cell holds (arc-swap's `load`). The cell's field is private to this module and
/// no code stores into it, so the value is the one the cell was made with.
#[verifier::external_body]
fn load_latest_block_number(latest: &LatestBlockNumber) -> (r: u64)
    ensures
        r == latest_value(*latest),
{
    **latest.cell.load()
}

/// Decides how long responses of one chain may be cached.
#[derive(Debug)]
pub struct TTLManager {
    /// The chain's block time, in seconds.
    pub block_time: u64,
    pub latest_block_number: LatestBlockNumber,
}

impl TTLManager {
    /// A manager for a chain with the given block time (seconds), whose latest block number
    /// is 0.
    pub fn new(block_time: u64) -> (r: Self)
        ensures
            r.block_time == block_time,
            latest_value(r.latest_block_number) == 0,
    {
        TTLManager { block_time, latest_block_number: new_latest_block_number(0) }
    }

    fn get_latest_block_number(&self) -> (r: u64)
        ensures
            r == latest_value(self.latest_block_number),
    {
        load_latest_block_number(&self.latest_block_number)
    }

    /// The cache lifetime of a response about the block `tag`, against the latest block number
    /// the manager holds.
    pub fn get_ttl_from_block_number_or_tag(&self, tag: &BlockNumberOrTag) -> (r: Option<u64>)
        ensures
            r == ttl_for_tag(self.block_time, *tag, latest_value(self.latest_block_number)),
    {
        let latest = self.get_latest_block_number();
        ttl_for_tag_given(self.block_time, tag, latest)
    }

    /// The cache lifetime of a response about the block `id`.
    pub fn get_ttl_from_block_id(&self, id: &BlockId) -> (r: Option<u64>)
        ensures
            r == ttl_for_block_id(self.block_time, *id, latest_value(self.latest_block_number)),
    {
        let latest = self.get_latest_block_number();
        ttl_for_block_id_given(self.block_time, id, latest)
    }

    /// The cache lifetime of the response to `req`; `None` where it is not cached.
    pub fn get_ttl(&self, req: &EthRequest) -> (r: Option<u64>)
        ensures
            r == ttl_for_request(self.block_time, *req, latest_value(self.latest_block_number)),
    {
        let latest = self.get_latest_block_number();
        ttl_for_request_given(self.block_time, req, latest)
    }
}

} // verus!
