use vstd::prelude::*;

verus! {

/// A value carried under the name `params`; a missing one reads as the default value.
#[derive(Clone, Debug, PartialEq, Eq)]
pub struct Params<T: Default> {
    pub params: T,
}

/// A block named by number or by tag.
#[derive(Clone, Copy, Debug, PartialEq, Eq, Structural)]
pub enum BlockNumberOrTag {
    Latest,
    Finalized,
    Safe,
    Earliest,
    Pending,
    Number(u64),
}

/// A block named by hash or by number/tag.
#[derive(Clone, Copy, Debug, PartialEq, Eq)]
pub enum BlockId {
    Hash([u8; 32]),
    Number(BlockNumberOrTag),
}

/// The Ethereum JSON-RPC methods the gateway understands, with the parameters that decide
/// how long their responses may be cached.
#[derive(Clone, Copy, Debug, PartialEq, Eq)]
pub enum EthRequest {
    EthCall { block_id: Option<BlockId> },
    EthGetBalance { address: [u8; 20], block_id: Option<BlockId> },
    EthBlockNumber,
    EthGetLogs,
    EthGetTransactionReceipt { hash: [u8; 32] },
    EthGetBlockByNumber { block_number: BlockNumberOrTag, full: bool },
    EthGetCodeAt { address: [u8; 20], block_id: Option<BlockId> },
    EthGetTransactionCount { address: [u8; 20], block_id: Option<BlockId> },
    EthChainId,
    EthMaxPriorityFeePerGas,
    EthEstimateGas { block_id: Option<BlockId> },
    Web3ClientVersion,
    EthNetworkId,
    EthGasPrice,
    EthBlobBaseFee,
    EthGetStorageAt { address: [u8; 20], slot: [u8; 32], block_id: Option<BlockId> },
    EthGetBlockByHash { hash: [u8; 32], full: bool },
}

/// A block parameter given either as a block number or tag, or as a plain number.
#[derive(Clone, Copy, Debug, PartialEq, Eq, Structural)]
pub enum LenientBlockNumber {
    BlockNumber(BlockNumberOrTag),
    Num(u64),
}

impl LenientBlockNumber {
    /// The block this parameter names: a plain number names that block number.
    pub fn into_block_number_or_tag(self) -> (r: BlockNumberOrTag)
        ensures
            r == match self {
                LenientBlockNumber::BlockNumber(b) => b,
                LenientBlockNumber::Num(n) => BlockNumberOrTag::Number(n),
            },
    {
        match self {
            LenientBlockNumber::BlockNumber(b) => b,
            LenientBlockNumber::Num(n) => BlockNumberOrTag::Number(n),
        }
    }
}

} // verus!
