//! The services that a chain is put together with.

use crate::hash256::Hash256;
use crate::types::{BeaconBlock, EthSpec, Slot};
use core::marker::PhantomData;
use std::sync::Arc;
use std::time::Duration;
use vstd::prelude::*;

verus! {

/// The types that a chain is put together with.
pub trait BeaconChainTypes {
    type Store;
    type SlotClock;
    type LmdGhost;
    type Eth1Chain;
    type EthSpec: EthSpec;
    type EventHandler;
}

/// An empty struct used to "witness" all the `BeaconChainTypes`. It has no user-facing
/// functionality and only exists to satisfy the type system.
pub struct Witness<TStore, TSlotClock, TLmdGhost, TEth1Backend, TEthSpec, TEventHandler>(
    PhantomData<(TStore, TSlotClock, TLmdGhost, TEth1Backend, TEthSpec, TEventHandler)>,
);

impl<TStore, TSlotClock, TLmdGhost, TEth1Backend, TEthSpec, TEventHandler> BeaconChainTypes
    for Witness<TStore, TSlotClock, TLmdGhost, TEth1Backend, TEthSpec, TEventHandler>
where
    TEthSpec: EthSpec,
{
    type Store = TStore;

    type SlotClock = TSlotClock;

    type LmdGhost = TLmdGhost;

    type Eth1Chain = TEth1Backend;

    type EthSpec = TEthSpec;

    type EventHandler = TEventHandler;
}

/// A fork choice back-end over a tree reduced to what the votes need.
pub trait ThreadSafeReducedTree<S, E: EthSpec>: Sized {
    /// A tree without votes that holds `finalized_block` alone.
    fn new(store: Arc<S>, finalized_block: &BeaconBlock<E>, finalized_root: Hash256) -> Self;
}

/// `tree` is what `ThreadSafeReducedTree::new` returned for these arguments.
pub open spec fn reduced_tree_of<S, E: EthSpec, G: ThreadSafeReducedTree<S, E>>(
    store: Arc<S>,
    finalized_block: BeaconBlock<E>,
    finalized_root: Hash256,
    tree: G,
) -> bool {
    call_ensures(
        <G as ThreadSafeReducedTree<S, E>>::new,
        (store, &finalized_block, finalized_root),
        tree,
    )
}

/// A slot clock whose time is set by hand.
pub trait TestingSlotClock: Sized {
    /// A clock for a chain whose `genesis_slot` starts `genesis_duration` after the UNIX epoch.
    fn new(genesis_slot: Slot, genesis_duration: Duration, slot_duration: Duration) -> Self;
}

/// `clock` is what `TestingSlotClock::new` returned for a chain that starts at slot 0,
/// `genesis_time` seconds after the UNIX epoch, with slots of `slot_duration`.
pub open spec fn testing_clock_of<C: TestingSlotClock>(
    genesis_time: u64,
    slot_duration: Duration,
    clock: C,
) -> bool {
    exists|genesis: Duration| #[trigger]
        call_ensures(C::new, (Slot(0), genesis, slot_duration), clock)
            && crate::external::duration_nanos(genesis) == genesis_time * 1_000_000_000
}

/// `TestingSlotClock::new` gives one result per argument. Two durations are the same argument when
/// they last equally long.
pub open spec fn one_clock_each<C: TestingSlotClock>() -> bool {
    forall|slot: Slot, g: Duration, h: Duration, slot_duration: Duration, a: C, b: C|
        #[trigger] call_ensures(C::new, (slot, g, slot_duration), a) && #[trigger] call_ensures(
            C::new,
            (slot, h, slot_duration),
            b,
        ) && crate::external::duration_nanos(g) == crate::external::duration_nanos(h) ==> a == b
}

/// An eth1 back-end that talks JSON-RPC and writes to a logger of type `L`.
pub trait JsonRpcEth1Backend<L>: Sized {
    type Config: Default;

    fn new(config: Self::Config, log: L) -> Self;
}

/// `backend` is what `JsonRpcEth1Backend::new` returned for the default configuration and a
/// clone of `log`.
pub open spec fn default_eth1_backend_of<L: Clone, B: JsonRpcEth1Backend<L>>(
    log: L,
    backend: B,
) -> bool {
    exists|config: B::Config, handle: L| #[trigger]
        call_ensures(<B as JsonRpcEth1Backend<L>>::new, (config, handle), backend)
            && call_ensures(<B::Config as Default>::default, (), config) && cloned(log, handle)
}

/// An event handler that drops every event.
pub struct NullEventHandler<E>(PhantomData<E>);

impl<E> NullEventHandler<E> {
    /// The one value of the type, for specifications.
    pub closed spec fn spec_default() -> Self {
        NullEventHandler(PhantomData)
    }
}

impl<E> Default for NullEventHandler<E> {
    fn default() -> (handler: Self)
        ensures
            handler == Self::spec_default(),
    {
        NullEventHandler(PhantomData)
    }
}

/// The fork choice of a chain.
#[verifier::reject_recursive_types(T)]
pub struct ForkChoice<T: BeaconChainTypes> {
    pub store: Arc<T::Store>,
    pub backend: T::LmdGhost,
    pub genesis_block_root: Hash256,
}

impl<T: BeaconChainTypes> ForkChoice<T> {
    /// A fork choice over `backend` for the chain that starts at `genesis_block_root`.
    pub fn new(store: Arc<T::Store>, backend: T::LmdGhost, genesis_block_root: Hash256) -> (result:
        Self)
        ensures
            result == (ForkChoice::<T> { store, backend, genesis_block_root }),
    {
        ForkChoice { store, backend, genesis_block_root }
    }
}

/// The view of the eth1 chain that blocks are produced with.
#[verifier::reject_recursive_types(T)]
pub struct Eth1Chain<T: BeaconChainTypes> {
    pub backend: T::Eth1Chain,
    /// Whether blocks carry predictable junk instead of what the back-end knows.
    pub use_dummy_backend: bool,
}

impl<T: BeaconChainTypes> Eth1Chain<T> {
    /// An eth1 chain that uses `backend`.
    pub fn new(backend: T::Eth1Chain) -> (result: Self)
        ensures
            result == (Eth1Chain::<T> { backend, use_dummy_backend: false }),
    {
        Eth1Chain { backend, use_dummy_backend: false }
    }
}

} // verus!
