//! The builder of a beacon chain.

use crate::chain::BeaconChain;
use crate::components::{
    BeaconChainTypes, Eth1Chain, ForkChoice, JsonRpcEth1Backend, NullEventHandler,
    TestingSlotClock, ThreadSafeReducedTree, Witness,
};
use crate::errors::describe;
use crate::external::{new_lock, whole_seconds};
use crate::hash256::Hash256;
use crate::store::{Put, Store};
use crate::types::{BeaconBlock, BeaconState, CheckPoint, EthSpec, PersistedBeaconChain, Slot};
use std::sync::Arc;
use std::time::Duration;
use vstd::prelude::*;

mod handle;

pub use handle::StoreHandle;

verus! {

/// Builds a `BeaconChain`, either creating anew from genesis or resuming from an existing chain
/// persisted to `store`.
///
/// Types may be elided and the compiler will infer them if all necessary builder methods have been
/// called. If type inference errors are being raised it is likely that not all sufficient methods
/// have been called.
#[verifier::reject_recursive_types(T)]
pub struct BeaconChainBuilder<T: BeaconChainTypes, L> {
    store: Option<StoreHandle<T::EthSpec, T::Store>>,
    /// The finalized checkpoint that will be used to start the chain. May be genesis or a higher
    /// checkpoint.
    pub finalized_checkpoint: Option<CheckPoint<T::EthSpec>>,
    genesis_block_root: Option<Hash256>,
    op_pool: Option<<T::EthSpec as EthSpec>::OperationPool>,
    fork_choice: Option<ForkChoice<T>>,
    eth1_chain: Option<Eth1Chain<T>>,
    event_handler: Option<T::EventHandler>,
    slot_clock: Option<T::SlotClock>,
    spec: <T::EthSpec as EthSpec>::ChainSpec,
    log: Option<L>,
}

/// The calls made on a store: the writes, and the keys read, each the earliest first.
pub struct Calls<E: EthSpec> {
    pub puts: Seq<Put<E>>,
    pub gets: Seq<Hash256>,
}

/// What a builder has been given so far.
#[verifier::reject_recursive_types(T)]
pub struct BuilderView<T: BeaconChainTypes, L> {
    pub store: Option<Arc<T::Store>>,
    pub finalized_checkpoint: Option<CheckPoint<T::EthSpec>>,
    pub genesis_block_root: Option<Hash256>,
    pub op_pool: Option<<T::EthSpec as EthSpec>::OperationPool>,
    pub fork_choice: Option<ForkChoice<T>>,
    pub eth1_chain: Option<Eth1Chain<T>>,
    pub event_handler: Option<T::EventHandler>,
    pub slot_clock: Option<T::SlotClock>,
    pub spec: <T::EthSpec as EthSpec>::ChainSpec,
    pub log: Option<L>,
}

impl<T: BeaconChainTypes, L> View for BeaconChainBuilder<T, L> {
    type V = BuilderView<T, L>;

    closed spec fn view(&self) -> BuilderView<T, L> {
        BuilderView {
            store: match self.store {
                Some(handle) => Some(handle.pointer()),
                None => None,
            },
            finalized_checkpoint: self.finalized_checkpoint,
            genesis_block_root: self.genesis_block_root,
            op_pool: self.op_pool,
            fork_choice: self.fork_choice,
            eth1_chain: self.eth1_chain,
            event_handler: self.event_handler,
            slot_clock: self.slot_clock,
            spec: self.spec,
            log: self.log,
        }
    }
}

impl<T: BeaconChainTypes, L> BuilderView<T, L> {
    /// The builder has been given nothing but a chain specification.
    pub open spec fn blank(self) -> bool {
        &&& self.store is None
        &&& self.finalized_checkpoint is None
        &&& self.genesis_block_root is None
        &&& self.op_pool is None
        &&& self.fork_choice is None
        &&& self.eth1_chain is None
        &&& self.event_handler is None
        &&& self.slot_clock is None
        &&& self.log is None
    }

    /// What holds of every builder: an operation pool comes with a chain that has a start, and a
    /// fork choice comes after the store and the start of the chain.
    pub open spec fn well_formed(self) -> bool {
        &&& self.op_pool is Some ==> self.genesis_block_root is Some
        &&& self.fork_choice is Some ==> self.store is Some && self.genesis_block_root is Some
    }

    pub open spec fn with_spec(self, spec: <T::EthSpec as EthSpec>::ChainSpec) -> Self {
        BuilderView { spec, ..self }
    }

    pub open spec fn with_store(self, store: Arc<T::Store>) -> Self {
        BuilderView { store: Some(store), ..self }
    }

    pub open spec fn with_log(self, log: L) -> Self {
        BuilderView { log: Some(log), ..self }
    }

    pub open spec fn with_op_pool(self, op_pool: <T::EthSpec as EthSpec>::OperationPool) -> Self {
        BuilderView { op_pool: Some(op_pool), ..self }
    }

    pub open spec fn with_eth1_backend(self, backend: Option<T::Eth1Chain>) -> Self {
        BuilderView {
            eth1_chain: match backend {
                Some(backend) => Some(Eth1Chain { backend, use_dummy_backend: false }),
                None => None,
            },
            ..self
        }
    }

    pub open spec fn with_dummy_eth1_backend(self, backend: T::Eth1Chain) -> Self {
        BuilderView {
            eth1_chain: Some(Eth1Chain { backend, use_dummy_backend: true }),
            ..self
        }
    }

    pub open spec fn with_event_handler(self, handler: T::EventHandler) -> Self {
        BuilderView { event_handler: Some(handler), ..self }
    }

    pub open spec fn with_slot_clock(self, clock: T::SlotClock) -> Self {
        BuilderView { slot_clock: Some(clock), ..self }
    }

    /// The builder of a chain that starts at `genesis`.
    pub open spec fn started_at(self, genesis: CheckPoint<T::EthSpec>) -> Self {
        BuilderView {
            finalized_checkpoint: Some(genesis),
            genesis_block_root: Some(genesis.beacon_block_root),
            ..self
        }
    }

    /// The builder of a chain that goes on from `head`.
    pub open spec fn resumed_at(
        self,
        head: CheckPoint<T::EthSpec>,
        genesis_block_root: Hash256,
        op_pool: <T::EthSpec as EthSpec>::OperationPool,
    ) -> Self {
        BuilderView {
            finalized_checkpoint: Some(head),
            genesis_block_root: Some(genesis_block_root),
            op_pool: Some(op_pool),
            ..self
        }
    }

    /// The builder with a fork choice over `backend`, or why there cannot be one yet.
    pub open spec fn set_fork_choice_backend(self, backend: T::LmdGhost) -> Result<
        Self,
        Seq<char>,
    > {
        match (self.store, self.genesis_block_root) {
            (None, _) => Err("reduced_tree_fork_choice requires a store"@),
            (Some(_), None) => Err("fork_choice_backend requires a genesis_block_root"@),
            (Some(store), Some(genesis_block_root)) => Ok(
                BuilderView {
                    fork_choice: Some(ForkChoice { store, backend, genesis_block_root }),
                    ..self
                },
            ),
        }
    }

    /// The builder has been given every part that a chain cannot do without, besides its head.
    pub open spec fn complete(self) -> bool {
        &&& self.log is Some
        &&& self.store is Some
        &&& self.slot_clock is Some
        &&& self.op_pool is Some
        &&& self.genesis_block_root is Some
        &&& self.fork_choice is Some
        &&& self.event_handler is Some
    }

    /// The first thing that stands in the way of a chain whose head is `head`.
    pub open spec fn build_obstacle(self, head: CheckPoint<T::EthSpec>) -> Option<Seq<char>> {
        if self.log is None {
            Some("Cannot build without a logger"@)
        } else if !head.consistent() {
            Some("beacon_block.state_root != beacon_state"@)
        } else if self.store is None {
            Some("Cannot build without store"@)
        } else if self.slot_clock is None {
            Some("Cannot build without slot clock"@)
        } else if self.op_pool is None {
            Some("Cannot build without op pool"@)
        } else if self.genesis_block_root is None {
            Some("Cannot build without a genesis block root"@)
        } else if self.fork_choice is None {
            Some("Cannot build without a fork choice"@)
        } else if self.event_handler is None {
            Some("Cannot build without an event handler"@)
        } else {
            None
        }
    }

    /// `chain` has the parts that this builder was given, and its head is `head`.
    pub open spec fn builds(self, head: CheckPoint<T::EthSpec>, chain: BeaconChain<T, L>) -> bool {
        &&& chain.spec == self.spec
        &&& Some(chain.store) == self.store
        &&& Some(chain.slot_clock) == self.slot_clock
        &&& Some(chain.op_pool) == self.op_pool
        &&& chain.eth1_chain == self.eth1_chain
        &&& crate::external::lock_made_from(chain.canonical_head, head)
        &&& Some(chain.genesis_block_root) == self.genesis_block_root
        &&& Some(chain.fork_choice) == self.fork_choice
        &&& Some(chain.event_handler) == self.event_handler
        &&& Some(chain.log) == self.log
    }

    /// `result` is what comes of putting the chain together around `head`.
    pub open spec fn assembles(
        self,
        head: CheckPoint<T::EthSpec>,
        result: Result<BeaconChain<T, L>, String>,
    ) -> bool {
        match self.build_obstacle(head) {
            Some(text) => result is Err && result->Err_0@ == text,
            None => result is Ok && self.builds(head, result->Ok_0),
        }
    }
}

/// `result` holds the builder or the error text of `expected`.
pub open spec fn gives<T: BeaconChainTypes, L>(
    result: Result<BeaconChainBuilder<T, L>, String>,
    expected: Result<BuilderView<T, L>, Seq<char>>,
) -> bool {
    match expected {
        Ok(builder) => result is Ok && result->Ok_0@ == builder,
        Err(text) => result is Err && result->Err_0@ == text,
    }
}

/// `after` is `before` with a new chain that starts from `state`: its genesis checkpoint is
/// written to the store, and its operation pool is empty.
pub open spec fn genesis_started<T: BeaconChainTypes, L>(
    before: BuilderView<T, L>,
    state: BeaconState<T::EthSpec>,
    after: BuilderView<T, L>,
) -> bool where T::Store: Store<BeaconState<T::EthSpec>> + Store<BeaconBlock<T::EthSpec>> {
    &&& before.store is Some
    &&& exists|
        genesis: CheckPoint<T::EthSpec>,
        op_pool: <T::EthSpec as EthSpec>::OperationPool,
    |
        #[trigger] genesis.is_genesis_of(state, before.spec)
            && crate::genesis::performed_in_order(
            *before.store->0,
            crate::genesis::genesis_plan(&genesis),
            Ok(()),
        ) && #[trigger] crate::types::is_empty_pool::<T::EthSpec>(op_pool) && after
            == before.started_at(genesis).with_op_pool(op_pool)
}

/// `after` is `before` with the persisted chain `chain`: its head, where it started, and its
/// operation pool, restored.
pub open spec fn chain_resumed<T: BeaconChainTypes, L>(
    before: BuilderView<T, L>,
    chain: PersistedBeaconChain<T::EthSpec>,
    after: BuilderView<T, L>,
) -> bool {
    exists|op_pool: <T::EthSpec as EthSpec>::OperationPool| #[trigger]
        crate::types::is_restored_pool(
            chain.op_pool,
            chain.canonical_head.beacon_state,
            before.spec,
            op_pool,
        ) && after == before.resumed_at(chain.canonical_head, chain.genesis_block_root, op_pool)
}

/// `after` is `before` with a testing clock for the genesis time of its checkpoint.
pub open spec fn testing_clock_set<T: BeaconChainTypes, L>(
    before: BuilderView<T, L>,
    slot_duration: Duration,
    after: BuilderView<T, L>,
) -> bool where T::SlotClock: TestingSlotClock {
    &&& before.finalized_checkpoint is Some
    &&& exists|clock: T::SlotClock| #[trigger]
        crate::components::testing_clock_of(
            before.finalized_checkpoint->0.beacon_state.genesis_time,
            slot_duration,
            clock,
        ) && after == before.with_slot_clock(clock)
}

impl<T: BeaconChainTypes, L> BeaconChainBuilder<T, L> {
    /// The calls that have been made on the store through this builder.
    pub closed spec fn calls(self) -> Calls<T::EthSpec> {
        match self.store {
            Some(handle) => Calls { puts: handle.writes(), gets: handle.reads() },
            None => Calls { puts: Seq::empty(), gets: Seq::empty() },
        }
    }

    /// The view shows the fields.
    proof fn lemma_view(self)
        ensures
            self.store is Some <==> self@.store is Some,
            self.store is Some ==> self@.store->0 == self.store->0.pointer(),
            self@.finalized_checkpoint == self.finalized_checkpoint,
            self@.genesis_block_root == self.genesis_block_root,
            self@.op_pool == self.op_pool,
            self@.fork_choice == self.fork_choice,
            self@.eth1_chain == self.eth1_chain,
            self@.event_handler == self.event_handler,
            self@.slot_clock == self.slot_clock,
            self@.spec == self.spec,
            self@.log == self.log,
    {
    }

    /// The calls are those that the handle on the store has recorded.
    proof fn lemma_calls(self)
        ensures
            self.store is Some ==> {
                &&& self.calls().puts == self.store->0.writes()
                &&& self.calls().gets == self.store->0.reads()
            },
            self.store is None ==> {
                &&& self.calls().puts.len() == 0
                &&& self.calls().gets.len() == 0
            },
    {
    }

    /// The builder without its store, and the store.
    pub(crate) fn part_from_store(self) -> (parts: (
        Self,
        Option<StoreHandle<T::EthSpec, T::Store>>,
    ))
        ensures
            parts.0@ == (BuilderView { store: None, ..self@ }),
            match (self@.store, parts.1) {
                (Some(store), Some(handle)) => {
                    &&& handle.pointer() == store
                    &&& handle.writes() == self.calls().puts
                    &&& handle.reads() == self.calls().gets
                },
                (None, None) => true,
                _ => false,
            },
    {
        let mut builder = self;
        let handle = builder.store.take();
        (builder, handle)
    }

    /// The builder with the store that it was parted from.
    pub(crate) fn rejoin_store(self, handle: StoreHandle<T::EthSpec, T::Store>) -> (builder: Self)
        ensures
            builder@ == self@.with_store(handle.pointer()),
            builder.calls().puts == handle.writes(),
            builder.calls().gets == handle.reads(),
    {
        let mut builder = self;
        builder.store = Some(handle);
        builder
    }

    /// The chain specification.
    pub(crate) fn spec(&self) -> (spec: &<T::EthSpec as EthSpec>::ChainSpec)
        ensures
            *spec == self@.spec,
    {
        &self.spec
    }

    /// The logger, if one has been set.
    pub fn log(&self) -> (log: Option<&L>)
        ensures
            match self@.log {
                Some(given) => log is Some && *log->0 == given,
                None => log is None,
            },
    {
        self.log.as_ref()
    }

    /// The finalized checkpoint, if there is one yet.
    pub fn finalized_checkpoint(&self) -> (checkpoint: &Option<CheckPoint<T::EthSpec>>)
        ensures
            *checkpoint == self@.finalized_checkpoint,
    {
        &self.finalized_checkpoint
    }

    /// Puts the chain together around `canonical_head`, a head whose caches are built.
    ///
    /// An error will be returned if a required part is missing, or if the block of the head does
    /// not commit to its state.
    pub fn assemble(self, canonical_head: CheckPoint<T::EthSpec>) -> (result: Result<
        BeaconChain<T, L>,
        String,
    >)
        ensures
            self@.assembles(canonical_head, result),
    {
        let log = match self.log {
            Some(log) => log,
            None => return Err("Cannot build without a logger".to_owned()),
        };
        if canonical_head.beacon_block.state_root != canonical_head.beacon_state_root {
            return Err("beacon_block.state_root != beacon_state".to_owned());
        }
        let store = match self.store {
            Some(handle) => handle.into_store(),
            None => return Err("Cannot build without store".to_owned()),
        };
        let slot_clock = match self.slot_clock {
            Some(slot_clock) => slot_clock,
            None => return Err("Cannot build without slot clock".to_owned()),
        };
        let op_pool = match self.op_pool {
            Some(op_pool) => op_pool,
            None => return Err("Cannot build without op pool".to_owned()),
        };
        let genesis_block_root = match self.genesis_block_root {
            Some(root) => root,
            None => return Err("Cannot build without a genesis block root".to_owned()),
        };
        let fork_choice = match self.fork_choice {
            Some(fork_choice) => fork_choice,
            None => return Err("Cannot build without a fork choice".to_owned()),
        };
        let event_handler = match self.event_handler {
            Some(event_handler) => event_handler,
            None => return Err("Cannot build without an event handler".to_owned()),
        };
        Ok(
            BeaconChain {
                spec: self.spec,
                store,
                slot_clock,
                op_pool,
                eth1_chain: self.eth1_chain,
                canonical_head: new_lock(canonical_head),
                genesis_block_root,
                fork_choice,
                event_handler,
                log,
            },
        )
    }
}

impl<TStore, TSlotClock, TLmdGhost, TEth1Backend, TEthSpec, TEventHandler, L> BeaconChainBuilder<
    Witness<TStore, TSlotClock, TLmdGhost, TEth1Backend, TEthSpec, TEventHandler>,
    L,
> where TEthSpec: EthSpec {
    /// Returns a new builder.
    ///
    /// The `_eth_spec_instance` parameter is only supplied to make concrete the `TEthSpec` trait.
    pub fn new(_eth_spec_instance: TEthSpec) -> (builder: Self)
        ensures
            builder@.blank(),
            builder.calls().puts.len() == 0 && builder.calls().gets.len() == 0,
            call_ensures(TEthSpec::default_spec, (), builder@.spec),
    {
        Self {
            store: None,
            finalized_checkpoint: None,
            genesis_block_root: None,
            op_pool: None,
            fork_choice: None,
            eth1_chain: None,
            event_handler: None,
            slot_clock: None,
            spec: TEthSpec::default_spec(),
            log: None,
        }
    }

    /// Override the default spec (as defined by `TEthSpec`).
    ///
    /// This method should generally be called immediately after `Self::new` to ensure components
    /// are started with a consistent spec.
    pub fn custom_spec(self, spec: TEthSpec::ChainSpec) -> (builder: Self)
        ensures
            builder@ == self@.with_spec(spec),
            builder.calls() == self.calls(),
    {
        let mut builder = self;
        builder.spec = spec;
        builder
    }

    /// Sets the store (database).
    ///
    /// Should generally be called early in the build chain.
    pub fn store(self, store: Arc<TStore>) -> (builder: Self)
        ensures
            builder@ == self@.with_store(store),
            builder.calls().puts.len() == 0 && builder.calls().gets.len() == 0,
    {
        let mut builder = self;
        builder.store = Some(StoreHandle::new(store));
        builder
    }

    /// Sets the logger.
    ///
    /// Should generally be called early in the build chain.
    pub fn logger(self, logger: L) -> (builder: Self)
        ensures
            builder@ == self@.with_log(logger),
            builder.calls() == self.calls(),
    {
        let mut builder = self;
        builder.log = Some(logger);
        builder
    }

    /// Sets the head of a chain that goes on, its operation pool and where it started.
    pub fn resume_at(
        self,
        head: CheckPoint<TEthSpec>,
        genesis_block_root: Hash256,
        op_pool: TEthSpec::OperationPool,
    ) -> (builder: Self)
        ensures
            builder@ == self@.resumed_at(head, genesis_block_root, op_pool),
            builder.calls() == self.calls(),
    {
        let mut builder = self;
        builder.op_pool = Some(op_pool);
        builder.finalized_checkpoint = Some(head);
        builder.genesis_block_root = Some(genesis_block_root);
        builder
    }

    /// Sets the checkpoint that a new chain starts at.
    pub fn start_at(self, genesis: CheckPoint<TEthSpec>) -> (builder: Self)
        ensures
            builder@ == self@.started_at(genesis),
            builder.calls() == self.calls(),
    {
        let mut builder = self;
        builder.genesis_block_root = Some(genesis.beacon_block_root);
        builder.finalized_checkpoint = Some(genesis);
        builder
    }

    /// Sets the `BeaconChain` fork choice back-end.
    ///
    /// Requires the store and state to have been specified earlier in the build chain.
    pub fn fork_choice_backend(self, backend: TLmdGhost) -> (result: Result<Self, String>)
        ensures
            gives(result, self@.set_fork_choice_backend(backend)),
            result is Ok ==> result->Ok_0.calls() == self.calls(),
    {
        let store = match &self.store {
            Some(handle) => handle.pointer_to_store(),
            None => return Err("reduced_tree_fork_choice requires a store".to_owned()),
        };
        let genesis_block_root = match self.genesis_block_root {
            Some(root) => root,
            None => return Err("fork_choice_backend requires a genesis_block_root".to_owned()),
        };
        let mut builder = self;
        builder.fork_choice = Some(ForkChoice::new(store, backend, genesis_block_root));
        Ok(builder)
    }

    /// Sets the `BeaconChain` eth1 back-end.
    pub fn eth1_backend(self, backend: Option<TEth1Backend>) -> (builder: Self)
        ensures
            builder@ == self@.with_eth1_backend(backend),
            builder.calls() == self.calls(),
    {
        let mut builder = self;
        builder.eth1_chain = match backend {
            Some(backend) => Some(Eth1Chain::new(backend)),
            None => None,
        };
        builder
    }

    /// Sets the `BeaconChain` event handler back-end.
    pub fn event_handler(self, handler: TEventHandler) -> (builder: Self)
        ensures
            builder@ == self@.with_event_handler(handler),
            builder.calls() == self.calls(),
    {
        let mut builder = self;
        builder.event_handler = Some(handler);
        builder
    }

    /// Sets the `BeaconChain` slot clock.
    pub fn slot_clock(self, clock: TSlotClock) -> (builder: Self)
        ensures
            builder@ == self@.with_slot_clock(clock),
            builder.calls() == self.calls(),
    {
        let mut builder = self;
        builder.slot_clock = Some(clock);
        builder
    }

    /// Creates a new, empty operation pool.
    pub(crate) fn empty_op_pool(self) -> (builder: Self)
        ensures
            builder.calls() == self.calls(),
            exists|op_pool: TEthSpec::OperationPool| #[trigger]
                crate::types::is_empty_pool::<TEthSpec>(op_pool) && builder@ == self@.with_op_pool(
                    op_pool,
                ),
    {
        let mut builder = self;
        let op_pool = TEthSpec::empty_operation_pool();
        assert(crate::types::is_empty_pool::<TEthSpec>(op_pool));
        builder.op_pool = Some(op_pool);
        builder
    }

    /// Consumes `self`, returning a `BeaconChain` if all required parameters have been supplied.
    ///
    /// An error will be returned at runtime if all required parameters have not been configured.
    /// Will also raise ambiguous type errors if some parameters have not been configured.
    pub fn build(self) -> (result: Result<
        BeaconChain<
            Witness<TStore, TSlotClock, TLmdGhost, TEth1Backend, TEthSpec, TEventHandler>,
            L,
        >,
        String,
    >)
        ensures
            match self@.finalized_checkpoint {
                None => result is Err && result->Err_0@ == "Cannot build without a state"@,
                Some(checkpoint) => exists|
                    caches: Result<BeaconState<TEthSpec>, TEthSpec::StateError>,
                | #[trigger]
                    checkpoint.beacon_state.caches_to(self@.spec, caches) && match caches {
                        Err(error) => result is Err && crate::errors::describes(
                            result->Err_0@,
                            "Failed to build state caches: "@,
                            error,
                        ),
                        Ok(beacon_state) => self@.assembles(
                            (CheckPoint { beacon_state, ..checkpoint }),
                            result,
                        ),
                    },
            },
    {
        let mut builder = self;
        let checkpoint = match builder.finalized_checkpoint.take() {
            Some(checkpoint) => checkpoint,
            None => return Err("Cannot build without a state".to_owned()),
        };
        let ghost given = checkpoint;
        let caches = checkpoint.beacon_state.build_all_caches(&builder.spec);
        assert(given.beacon_state.caches_to(self@.spec, caches));
        match caches {
            Err(error) => Err(describe("Failed to build state caches: ", &error)),
            Ok(beacon_state) => builder.assemble(CheckPoint { beacon_state, ..checkpoint }),
        }
    }
}

impl<TStore, TSlotClock, TLmdGhost, TEth1Backend, TEthSpec, TEventHandler, L> BeaconChainBuilder<
    Witness<TStore, TSlotClock, TLmdGhost, TEth1Backend, TEthSpec, TEventHandler>,
    L,
> where TEthSpec: EthSpec, TLmdGhost: ThreadSafeReducedTree<TStore, TEthSpec> {
    /// Initializes a new, empty (no recorded votes or blocks) fork choice, using the
    /// `ThreadSafeReducedTree` backend.
    ///
    /// Equivalent to calling `Self::fork_choice_backend` with a new `ThreadSafeReducedTree`
    /// instance.
    ///
    /// Requires the store and state to be initialized.
    pub fn empty_reduced_tree_fork_choice(self) -> (result: Result<Self, String>)
        requires
            self@.store is Some ==> self@.finalized_checkpoint is Some,
        ensures
            match (self@.store, self@.finalized_checkpoint) {
                (Some(store), Some(checkpoint)) => exists|backend: TLmdGhost| #[trigger]
                    crate::components::reduced_tree_of(
                        store,
                        checkpoint.beacon_block,
                        checkpoint.beacon_block_root,
                        backend,
                    ) && gives(result, self@.set_fork_choice_backend(backend)),
                _ => result is Err && result->Err_0@
                    == "reduced_tree_fork_choice requires a store"@,
            },
            result is Ok ==> result->Ok_0.calls() == self.calls(),
    {
        let store = match &self.store {
            Some(handle) => handle.pointer_to_store(),
            None => return Err("reduced_tree_fork_choice requires a store".to_owned()),
        };
        let finalized_checkpoint = self.finalized_checkpoint.as_ref().expect(
            "should have finalized checkpoint",
        );
        let backend: TLmdGhost = ThreadSafeReducedTree::new(
            store,
            &finalized_checkpoint.beacon_block,
            finalized_checkpoint.beacon_block_root,
        );
        assert(crate::components::reduced_tree_of(
            store,
            finalized_checkpoint.beacon_block,
            finalized_checkpoint.beacon_block_root,
            backend,
        ));
        self.fork_choice_backend(backend)
    }
}

impl<TStore, TSlotClock, TLmdGhost, TEth1Backend, TEthSpec, TEventHandler, L> BeaconChainBuilder<
    Witness<TStore, TSlotClock, TLmdGhost, TEth1Backend, TEthSpec, TEventHandler>,
    L,
> where TEthSpec: EthSpec, TEth1Backend: JsonRpcEth1Backend<L> {
    /// Sets the `BeaconChain` eth1 back-end to a `JsonRpcEth1Backend`.
    ///
    /// Equivalent to calling `Self::eth1_backend` with `Some(backend)`.
    pub fn json_rpc_eth1_backend(self, backend: TEth1Backend) -> (builder: Self)
        ensures
            builder@ == self@.with_eth1_backend(Some(backend)),
            builder.calls() == self.calls(),
    {
        self.eth1_backend(Some(backend))
    }

    /// Do not use any eth1 backend. The client will not be able to produce beacon blocks.
    pub fn no_eth1_backend(self) -> (builder: Self)
        ensures
            builder@ == self@.with_eth1_backend(None),
            builder.calls() == self.calls(),
    {
        self.eth1_backend(None)
    }

    /// Sets the `BeaconChain` eth1 back-end to produce predictably junk data when producing blocks.
    pub fn dummy_eth1_backend(self) -> (result: Result<Self, String>) where L: Clone
        ensures
            match self@.log {
                None => result is Err && result->Err_0@ == "dummy_eth1_backend requires a log"@,
                Some(log) => exists|backend: TEth1Backend| #[trigger]
                    crate::components::default_eth1_backend_of(log, backend) && gives(
                        result,
                        Ok(self@.with_dummy_eth1_backend(backend)),
                    ),
            },
            result is Ok ==> result->Ok_0.calls() == self.calls(),
    {
        let log = match &self.log {
            Some(log) => log.clone(),
            None => return Err("dummy_eth1_backend requires a log".to_owned()),
        };
        let config: TEth1Backend::Config = Default::default();
        let backend: TEth1Backend = JsonRpcEth1Backend::new(config, log);
        assert(crate::components::default_eth1_backend_of(self@.log->0, backend));
        let mut eth1_chain = Eth1Chain::new(backend);
        eth1_chain.use_dummy_backend = true;
        let mut builder = self;
        builder.eth1_chain = Some(eth1_chain);
        Ok(builder)
    }
}

impl<TStore, TSlotClock, TLmdGhost, TEth1Backend, TEthSpec, TEventHandler, L> BeaconChainBuilder<
    Witness<TStore, TSlotClock, TLmdGhost, TEth1Backend, TEthSpec, TEventHandler>,
    L,
> where TEthSpec: EthSpec, TSlotClock: TestingSlotClock {
    /// Sets the `BeaconChain` slot clock to a `TestingSlotClock`.
    ///
    /// Equivalent to calling `Self::slot_clock` with the `TestingSlotClock`.
    ///
    /// Requires the state to be initialized.
    pub fn testing_slot_clock(self, slot_duration: Duration) -> (result: Result<Self, String>)
        ensures
            match self@.finalized_checkpoint {
                None => result is Err && result->Err_0@
                    == "testing_slot_clock requires an initialized state"@,
                Some(_) => result is Ok && testing_clock_set(
                    self@,
                    slot_duration,
                    result->Ok_0@,
                ),
            },
            result is Ok ==> result->Ok_0.calls() == self.calls(),
    {
        let genesis_time = match &self.finalized_checkpoint {
            Some(checkpoint) => checkpoint.beacon_state.genesis_time,
            None => return Err("testing_slot_clock requires an initialized state".to_owned()),
        };
        let clock: TSlotClock = TestingSlotClock::new(
            Slot::new(0),
            whole_seconds(genesis_time),
            slot_duration,
        );
        assert(crate::components::testing_clock_of(genesis_time, slot_duration, clock));
        Ok(self.slot_clock(clock))
    }
}

impl<TStore, TSlotClock, TLmdGhost, TEth1Backend, TEthSpec, L> BeaconChainBuilder<
    Witness<TStore, TSlotClock, TLmdGhost, TEth1Backend, TEthSpec, NullEventHandler<TEthSpec>>,
    L,
> where TEthSpec: EthSpec {
    /// Sets the `BeaconChain` event handler to `NullEventHandler`.
    ///
    /// Equivalent to calling `Self::event_handler` with `NullEventHandler`.
    pub fn null_event_handler(self) -> (builder: Self)
        ensures
            builder@ == self@.with_event_handler(NullEventHandler::spec_default()),
            builder.calls() == self.calls(),
    {
        let handler = NullEventHandler::default();
        self.event_handler(handler)
    }
}

} // verus!
