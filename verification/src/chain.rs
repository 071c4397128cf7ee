use vstd::prelude::*;

verus! {

/// The numeric identifier of a blockchain (1 for Ethereum mainnet, 8453 for Base, ...).
#[derive(PartialEq, Eq, Structural, Hash, Clone, Copy, Debug)]
pub struct ChainId(pub u64);

impl ChainId {
    /// The numeric value of this chain id.
    pub fn value(&self) -> (v: u64)
        ensures
            v == self.0,
    {
        self.0
    }
}

impl From<u64> for ChainId {
    fn from(chain_id: u64) -> (r: ChainId) {
        ChainId(chain_id)
    }
}

impl vstd::std_specs::convert::FromSpecImpl<u64> for ChainId {
    open spec fn obeys_from_spec() -> bool {
        true
    }

    open spec fn from_spec(chain_id: u64) -> ChainId {
        ChainId(chain_id)
    }
}

/// A chain the gateway serves: its id and, where known, its block time in seconds.
/// Two chains are the same chain when their ids agree.
#[derive(Clone, Copy, Debug)]
pub struct Chain {
    pub block_time: Option<u64>,
    pub chain_id: ChainId,
}

impl PartialEq for Chain {
    fn eq(&self, other: &Self) -> (r: bool) {
        self.chain_id == other.chain_id
    }
}

impl vstd::std_specs::cmp::PartialEqSpecImpl for Chain {
    open spec fn obeys_eq_spec() -> bool {
        true
    }

    open spec fn eq_spec(&self, other: &Self) -> bool {
        self.chain_id == other.chain_id
    }
}

impl Eq for Chain {}

impl From<ChainId> for Chain {
    fn from(value: ChainId) -> (r: Chain) {
        Chain::new(value, None)
    }
}

impl vstd::std_specs::convert::FromSpecImpl<ChainId> for Chain {
    open spec fn obeys_from_spec() -> bool {
        true
    }

    open spec fn from_spec(value: ChainId) -> Chain {
        Chain { chain_id: value, block_time: None }
    }
}

/// Moves a boxed value to the heap for the rest of the program (std's `Box::leak`).
#[verifier::external_body]
pub(crate) fn leak_box<T: 'static>(b: Box<T>) -> (r: &'static T)
    ensures
        *r == *b,
{
    Box::leak(b)
}

impl Chain {
    /// A chain with the given id and block time (in seconds).
    pub fn new(chain_id: ChainId, block_time: Option<u64>) -> (r: Self)
        ensures
            r.chain_id == chain_id,
            r.block_time == block_time,
    {
        Self { chain_id, block_time }
    }

    /// Keeps this chain alive for the rest of the program and hands out a shared reference to it.
    pub fn leak(self) -> (r: &'static Self)
        ensures
            *r == self,
    {
        leak_box(Box::new(self))
    }
}

} // verus!
