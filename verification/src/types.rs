//! The consensus types that a chain is built from.

use crate::errors::describe;
use crate::hash256::Hash256;
use core::fmt::Debug;
use vstd::prelude::*;

verus! {

/// A slot number.
#[derive(Clone, Copy, Debug, PartialEq, Eq, Structural)]
pub struct Slot(pub u64);

impl Slot {
    pub fn new(slot: u64) -> (result: Self)
        ensures
            result == Slot(slot),
    {
        Slot(slot)
    }
}

/// A preset of the consensus rules, with what the consensus types provide under it.
///
/// The parts of a state and of a block that building a chain does not look at are `StateBody`
/// and `BlockBody`. The methods carry no contract: whatever they return, the functions below say
/// what was handed to them and what became of the result.
pub trait EthSpec: Sized {
    type ChainSpec;
    type StateBody;
    type BlockBody;
    type StateError: Debug;
    type OperationPool;
    type PersistedOperationPool;

    /// The chain specification that the preset comes with.
    fn default_spec() -> Self::ChainSpec;

    /// A block with empty contents.
    fn empty_block(spec: &Self::ChainSpec) -> BeaconBlock<Self>;

    /// The tree hash root of a block.
    fn block_root(block: &BeaconBlock<Self>) -> Hash256;

    /// The tree hash root of a state.
    fn state_root(state: &BeaconState<Self>) -> Hash256;

    /// `state` with all its caches built.
    fn build_all_caches(state: BeaconState<Self>, spec: &Self::ChainSpec) -> Result<
        BeaconState<Self>,
        Self::StateError,
    >;

    /// An operation pool without operations.
    fn empty_operation_pool() -> Self::OperationPool;

    /// The operation pool that was persisted as `pool`, for a chain whose head is at `state`.
    fn restore_operation_pool(
        pool: Self::PersistedOperationPool,
        state: &BeaconState<Self>,
        spec: &Self::ChainSpec,
    ) -> Self::OperationPool;
}

/// A beacon state.
pub struct BeaconState<E: EthSpec> {
    pub genesis_time: u64,
    pub slot: Slot,
    pub body: E::StateBody,
}

impl<E: EthSpec> BeaconState<E> {
    /// `root` is what the preset returned as the root of this state.
    pub open spec fn has_root(self, root: Hash256) -> bool {
        call_ensures(E::state_root, (&self,), root)
    }

    /// `result` is what the preset returned when asked to build the caches of this state.
    pub open spec fn caches_to(
        self,
        spec: E::ChainSpec,
        result: Result<BeaconState<E>, E::StateError>,
    ) -> bool {
        call_ensures(E::build_all_caches, (self, &spec), result)
    }

    /// The root of the state.
    pub fn canonical_root(&self) -> (root: Hash256)
        ensures
            self.has_root(root),
    {
        E::state_root(self)
    }

    /// Builds all caches of the state.
    pub fn build_all_caches(self, spec: &E::ChainSpec) -> (result: Result<Self, E::StateError>)
        ensures
            self.caches_to(*spec, result),
    {
        E::build_all_caches(self, spec)
    }
}

/// A beacon block.
pub struct BeaconBlock<E: EthSpec> {
    pub slot: Slot,
    pub state_root: Hash256,
    pub body: E::BlockBody,
}

impl<E: EthSpec> BeaconBlock<E> {
    /// `root` is what the preset returned as the root of this block.
    pub open spec fn has_root(self, root: Hash256) -> bool {
        call_ensures(E::block_root, (&self,), root)
    }

    /// The block is what the preset returned as the empty block of `spec`.
    pub open spec fn is_empty_under(self, spec: E::ChainSpec) -> bool {
        call_ensures(E::empty_block, (&spec,), self)
    }

    /// The block is the empty block of `spec`, but for a root of `state` as its state root.
    pub open spec fn is_genesis_block(self, state: BeaconState<E>, spec: E::ChainSpec) -> bool {
        &&& state.has_root(self.state_root)
        &&& exists|empty: BeaconBlock<E>| #[trigger]
            empty.is_empty_under(spec) && self == (BeaconBlock {
                state_root: self.state_root,
                ..empty
            })
    }

    /// The empty block of `spec`.
    pub fn empty(spec: &E::ChainSpec) -> (block: Self)
        ensures
            block.is_empty_under(*spec),
    {
        E::empty_block(spec)
    }

    /// The root of the block.
    pub fn canonical_root(&self) -> (root: Hash256)
        ensures
            self.has_root(root),
    {
        E::block_root(self)
    }
}

/// A block and the state after it, each with its root.
pub struct CheckPoint<E: EthSpec> {
    pub beacon_block_root: Hash256,
    pub beacon_block: BeaconBlock<E>,
    pub beacon_state_root: Hash256,
    pub beacon_state: BeaconState<E>,
}

impl<E: EthSpec> CheckPoint<E> {
    /// The block commits to the state of the checkpoint.
    pub open spec fn consistent(self) -> bool {
        self.beacon_block.state_root == self.beacon_state_root
    }

    /// The checkpoint is the genesis of a chain that starts from `state` under `spec`: the state
    /// with its caches built, and the empty block that commits to that state, each with its root.
    pub open spec fn is_genesis_of(self, state: BeaconState<E>, spec: E::ChainSpec) -> bool {
        &&& state.caches_to(spec, Ok(self.beacon_state))
        &&& self.beacon_block.is_genesis_block(self.beacon_state, spec)
        &&& self.beacon_block.has_root(self.beacon_block_root)
        &&& self.beacon_block.state_root == self.beacon_state_root
    }
}

/// What a chain leaves in the store for the next run.
pub struct PersistedBeaconChain<E: EthSpec> {
    pub canonical_head: CheckPoint<E>,
    pub op_pool: E::PersistedOperationPool,
    pub genesis_block_root: Hash256,
}

impl<E: EthSpec> PersistedBeaconChain<E> {
    /// The chain that a read of the store found, or why there is none.
    pub fn from_read<X: Debug>(read: Result<Option<Self>, X>) -> (result: Result<Self, String>)
        ensures
            match read {
                Err(error) => result is Err && crate::errors::describes(
                    result->Err_0@,
                    "DB error when reading persisted beacon chain: "@,
                    error,
                ),
                Ok(None) => result is Err && result->Err_0@
                    == "No persisted beacon chain found in store"@,
                Ok(Some(chain)) => result == Ok::<Self, String>(chain),
            },
    {
        match read {
            Err(error) => Err(describe("DB error when reading persisted beacon chain: ", &error)),
            Ok(None) => Err("No persisted beacon chain found in store".to_owned()),
            Ok(Some(chain)) => Ok(chain),
        }
    }
}

/// The methods of the preset that starting and resuming a chain depend on give one result per
/// argument.
pub open spec fn one_result_each<E: EthSpec>() -> bool {
    &&& forall|spec: E::ChainSpec, a: BeaconBlock<E>, b: BeaconBlock<E>| #[trigger]
        a.is_empty_under(spec) && #[trigger] b.is_empty_under(spec) ==> a == b
    &&& forall|block: BeaconBlock<E>, a: Hash256, b: Hash256| #[trigger]
        block.has_root(a) && #[trigger] block.has_root(b) ==> a == b
    &&& forall|state: BeaconState<E>, a: Hash256, b: Hash256| #[trigger]
        state.has_root(a) && #[trigger] state.has_root(b) ==> a == b
    &&& forall|
        state: BeaconState<E>,
        spec: E::ChainSpec,
        a: Result<BeaconState<E>, E::StateError>,
        b: Result<BeaconState<E>, E::StateError>,
    | #[trigger]
        state.caches_to(spec, a) && #[trigger] state.caches_to(spec, b) ==> a == b
    &&& forall|a: E::OperationPool, b: E::OperationPool| #[trigger]
        is_empty_pool::<E>(a) && #[trigger] is_empty_pool::<E>(b) ==> a == b
    &&& forall|
        persisted: E::PersistedOperationPool,
        state: BeaconState<E>,
        spec: E::ChainSpec,
        a: E::OperationPool,
        b: E::OperationPool,
    | #[trigger]
        is_restored_pool(persisted, state, spec, a) && #[trigger] is_restored_pool(
            persisted,
            state,
            spec,
            b,
        ) ==> a == b
}

/// `pool` is what the preset returned as an empty operation pool.
pub open spec fn is_empty_pool<E: EthSpec>(pool: E::OperationPool) -> bool {
    call_ensures(E::empty_operation_pool, (), pool)
}

/// `pool` is what the preset returned when asked to restore `persisted`.
pub open spec fn is_restored_pool<E: EthSpec>(
    persisted: E::PersistedOperationPool,
    state: BeaconState<E>,
    spec: E::ChainSpec,
    pool: E::OperationPool,
) -> bool {
    call_ensures(E::restore_operation_pool, (persisted, &state, &spec), pool)
}

} // verus!
