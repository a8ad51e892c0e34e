//! The chain that a builder puts together.

use crate::components::{BeaconChainTypes, Eth1Chain, ForkChoice};
use crate::hash256::Hash256;
use crate::types::{CheckPoint, EthSpec};
use parking_lot::RwLock;
use std::sync::Arc;
use vstd::prelude::*;

verus! {

/// A beacon chain, which writes to a logger of type `L`.
#[verifier::reject_recursive_types(T)]
pub struct BeaconChain<T: BeaconChainTypes, L> {
    pub spec: <T::EthSpec as EthSpec>::ChainSpec,
    /// The database.
    pub store: Arc<T::Store>,
    pub slot_clock: T::SlotClock,
    /// The operations that wait to be put in a block.
    pub op_pool: <T::EthSpec as EthSpec>::OperationPool,
    /// The eth1 chain, without which no blocks can be produced.
    pub eth1_chain: Option<Eth1Chain<T>>,
    /// The head of the chain.
    pub canonical_head: RwLock<CheckPoint<T::EthSpec>>,
    pub genesis_block_root: Hash256,
    pub fork_choice: ForkChoice<T>,
    pub event_handler: T::EventHandler,
    pub log: L,
}

} // verus!
