//! What holds of building a chain as a whole.

use crate::builder::BuilderView;
use crate::components::{BeaconChainTypes, TestingSlotClock};
use crate::genesis::GenesisWrite;
use crate::hash256::Hash256;
use crate::store::{Contents, Put, Store};
use crate::types::{BeaconBlock, BeaconState, CheckPoint, EthSpec, PersistedBeaconChain};
use std::sync::Arc;
use std::time::Duration;
use vstd::prelude::*;

verus! {

/// The block of a genesis checkpoint commits to the state of the checkpoint, by a root that is
/// the root of that state.
pub proof fn genesis_block_commits_to_its_state<E: EthSpec>(
    genesis: CheckPoint<E>,
    state: BeaconState<E>,
    spec: E::ChainSpec,
)
    requires
        genesis.is_genesis_of(state, spec),
    ensures
        genesis.consistent(),
        genesis.beacon_state.has_root(genesis.beacon_block.state_root),
        genesis.beacon_block.has_root(genesis.beacon_block_root),
{
}

/// When the writes that start a chain succeed, the store has answered that it keeps the genesis
/// state under its root, and the genesis block under its root and under the zero hash.
pub proof fn genesis_is_kept<E: EthSpec, S: Store<BeaconState<E>> + Store<BeaconBlock<E>>>(
    store: S,
    genesis: CheckPoint<E>,
)
    requires
        crate::genesis::performed_in_order(store, crate::genesis::genesis_plan(&genesis), Ok(())),
    ensures
        crate::store::store_put(store, genesis.beacon_state_root, genesis.beacon_state, Ok(())),
        crate::store::store_put(store, genesis.beacon_block_root, genesis.beacon_block, Ok(())),
        crate::store::store_put(store, Hash256::spec_zero(), genesis.beacon_block, Ok(())),
{
    let plan = crate::genesis::genesis_plan(&genesis);
    assert(crate::genesis::performed(store, plan[0], Ok(())));
    assert(crate::genesis::performed(store, plan[1], Ok(())));
    assert(crate::genesis::performed(store, plan[2], Ok(())));
}

/// After the calls that starting a chain makes on the store, a store that gives back what was last
/// put under a key gives back the genesis state under its root, and the genesis block under its
/// root and under the zero hash. Under every other key it gives back what it did before.
pub proof fn genesis_reads_back<E: EthSpec>(genesis: CheckPoint<E>, before: Contents<E>)
    ensures
        ({
            let after = before.after_all(crate::genesis::genesis_puts(genesis));
            &&& after.states == before.states.insert(
                genesis.beacon_state_root,
                genesis.beacon_state,
            )
            &&& after.blocks == before.blocks.insert(
                genesis.beacon_block_root,
                genesis.beacon_block,
            ).insert(Hash256::spec_zero(), genesis.beacon_block)
            &&& after.states[genesis.beacon_state_root] == genesis.beacon_state
            &&& after.blocks[genesis.beacon_block_root] == genesis.beacon_block
            &&& after.blocks[Hash256::spec_zero()] == genesis.beacon_block
        }),
{
    reveal_with_fuel(Contents::after_all, 4);
}

/// When a write of a list fails, the store is left with what the writes before it put there: no
/// write follows the one that failed, and none is taken back.
pub proof fn failed_write_is_the_last<E: EthSpec, S: Store<BeaconState<E>> + Store<BeaconBlock<E>>>(
    store: S,
    writes: Seq<GenesisWrite<'_, E>>,
    puts: Seq<Put<E>>,
    text: String,
    before: Contents<E>,
)
    requires
        crate::genesis::performed_exactly(store, writes, puts, Err(text)),
    ensures
        0 < puts.len() <= writes.len(),
        crate::genesis::performed(store, writes[puts.len() - 1], Err(text)),
        !puts.last().succeeded,
        puts.drop_last() == crate::genesis::puts_of(writes, (puts.len() - 1) as nat, true),
        before.after_all(puts) == before.after_all(puts.drop_last()),
{
}

/// Starting a chain depends on the state and the chain specification alone. If the preset gives
/// one result per argument, then two builders with the same specification that start from the same
/// state get the same checkpoint, genesis block root and operation pool, and write the same to
/// their stores, whatever else they hold.
pub proof fn genesis_depends_on_state_and_spec<T: BeaconChainTypes, L>(
    a: BuilderView<T, L>,
    b: BuilderView<T, L>,
    state: BeaconState<T::EthSpec>,
    started_a: BuilderView<T, L>,
    started_b: BuilderView<T, L>,
) where T::Store: Store<BeaconState<T::EthSpec>> + Store<BeaconBlock<T::EthSpec>>
    requires
        crate::types::one_result_each::<T::EthSpec>(),
        a.spec == b.spec,
        crate::builder::genesis_started(a, state, started_a),
        crate::builder::genesis_started(b, state, started_b),
    ensures
        started_a.finalized_checkpoint == started_b.finalized_checkpoint,
        started_a.genesis_block_root == started_b.genesis_block_root,
        started_a.op_pool == started_b.op_pool,
        started_a.finalized_checkpoint matches Some(genesis) && {
            let plan = crate::genesis::genesis_plan(&genesis);
            &&& crate::genesis::performed_in_order(*a.store->0, plan, Ok(()))
            &&& crate::genesis::performed_in_order(*b.store->0, plan, Ok(()))
        },
{
}

/// Starting a chain from the same state once more changes nothing, if the preset gives one result
/// per argument.
pub proof fn starting_again_changes_nothing<T: BeaconChainTypes, L>(
    builder: BuilderView<T, L>,
    state: BeaconState<T::EthSpec>,
    once: BuilderView<T, L>,
    twice: BuilderView<T, L>,
) where T::Store: Store<BeaconState<T::EthSpec>> + Store<BeaconBlock<T::EthSpec>>
    requires
        crate::types::one_result_each::<T::EthSpec>(),
        crate::builder::genesis_started(builder, state, once),
        crate::builder::genesis_started(once, state, twice),
    ensures
        twice == once,
{
    genesis_depends_on_state_and_spec(builder, once, state, once, twice);
}

/// Resuming depends on the persisted chain and the chain specification alone. If the preset gives
/// one result per argument, then two builders with the same specification that resume the same
/// chain get the same checkpoint, genesis block root and operation pool, whatever else they hold.
pub proof fn resuming_depends_on_chain_and_spec<T: BeaconChainTypes, L>(
    a: BuilderView<T, L>,
    b: BuilderView<T, L>,
    chain: PersistedBeaconChain<T::EthSpec>,
    resumed_a: BuilderView<T, L>,
    resumed_b: BuilderView<T, L>,
)
    requires
        crate::types::one_result_each::<T::EthSpec>(),
        a.spec == b.spec,
        crate::builder::chain_resumed(a, chain, resumed_a),
        crate::builder::chain_resumed(b, chain, resumed_b),
    ensures
        resumed_a.finalized_checkpoint == resumed_b.finalized_checkpoint,
        resumed_a.genesis_block_root == resumed_b.genesis_block_root,
        resumed_a.op_pool == resumed_b.op_pool,
{
}

/// A resumed chain replaces a started one entirely: resuming after a chain was started gives what
/// resuming alone gives, if the preset gives one result per argument.
pub proof fn resuming_replaces_a_started_chain<T: BeaconChainTypes, L>(
    builder: BuilderView<T, L>,
    state: BeaconState<T::EthSpec>,
    started: BuilderView<T, L>,
    chain: PersistedBeaconChain<T::EthSpec>,
    resumed: BuilderView<T, L>,
    resumed_after_start: BuilderView<T, L>,
) where T::Store: Store<BeaconState<T::EthSpec>> + Store<BeaconBlock<T::EthSpec>>
    requires
        crate::types::one_result_each::<T::EthSpec>(),
        crate::builder::genesis_started(builder, state, started),
        crate::builder::chain_resumed(builder, chain, resumed),
        crate::builder::chain_resumed(started, chain, resumed_after_start),
    ensures
        resumed_after_start == resumed,
{
    resuming_depends_on_chain_and_spec(builder, started, chain, resumed, resumed_after_start);
}

/// A testing clock depends on the genesis time and the slot duration alone. If the clock type
/// gives one clock per argument, then two builders whose checkpoints have the same genesis time
/// get equal clocks, whatever the slots, blocks and roots of the checkpoints.
pub proof fn testing_clock_depends_on_genesis_time<T: BeaconChainTypes, L>(
    a: BuilderView<T, L>,
    b: BuilderView<T, L>,
    slot_duration: Duration,
    set_a: BuilderView<T, L>,
    set_b: BuilderView<T, L>,
) where T::SlotClock: TestingSlotClock
    requires
        crate::components::one_clock_each::<T::SlotClock>(),
        crate::builder::testing_clock_set(a, slot_duration, set_a),
        crate::builder::testing_clock_set(b, slot_duration, set_b),
        a.finalized_checkpoint->0.beacon_state.genesis_time
            == b.finalized_checkpoint->0.beacon_state.genesis_time,
    ensures
        set_a.slot_clock is Some,
        set_a.slot_clock == set_b.slot_clock,
{
}

/// A state enters its genesis block through its root alone. If the preset gives one result per
/// argument, then the genesis blocks of two states under one specification differ in the state
/// root alone, and they are equal exactly when the roots of the states are.
pub proof fn genesis_block_depends_on_state_root<E: EthSpec>(
    spec: E::ChainSpec,
    s: BeaconState<E>,
    t: BeaconState<E>,
    root_s: Hash256,
    root_t: Hash256,
    block_s: BeaconBlock<E>,
    block_t: BeaconBlock<E>,
)
    requires
        crate::types::one_result_each::<E>(),
        s.has_root(root_s),
        t.has_root(root_t),
        block_s.is_genesis_block(s, spec),
        block_t.is_genesis_block(t, spec),
    ensures
        block_s == block_t <==> root_s == root_t,
        block_t == (BeaconBlock { state_root: block_t.state_root, ..block_s }),
{
}

/// A chain can be built around a head exactly when every required part has been supplied and the
/// block of the head commits to its state.
pub proof fn build_succeeds_iff_complete<T: BeaconChainTypes, L>(
    builder: BuilderView<T, L>,
    head: CheckPoint<T::EthSpec>,
)
    ensures
        builder.build_obstacle(head) is None <==> builder.complete() && head.consistent(),
{
}

/// Whether a chain can be built does not depend on the eth1 back-end.
pub proof fn eth1_backend_is_optional<T: BeaconChainTypes, L>(
    builder: BuilderView<T, L>,
    backend: Option<T::Eth1Chain>,
    dummy: T::Eth1Chain,
    head: CheckPoint<T::EthSpec>,
)
    ensures
        builder.with_eth1_backend(backend).build_obstacle(head) == builder.build_obstacle(head),
        builder.with_dummy_eth1_backend(dummy).build_obstacle(head) == builder.build_obstacle(head),
{
}

/// Once a new chain has been started on a builder with a logger and a store, and it has an event
/// handler and a slot clock, it can be given a fork choice, and then it can be built around the
/// genesis checkpoint, whatever state comes of building its caches anew. The parts agree on the
/// store and on where the chain starts.
pub proof fn started_chain_can_be_built<T: BeaconChainTypes, L>(
    builder: BuilderView<T, L>,
    log: L,
    store: Arc<T::Store>,
    state: BeaconState<T::EthSpec>,
    genesis: CheckPoint<T::EthSpec>,
    op_pool: <T::EthSpec as EthSpec>::OperationPool,
    eth1_backend: T::Eth1Chain,
    handler: T::EventHandler,
    clock: T::SlotClock,
    backend: T::LmdGhost,
    cached: BeaconState<T::EthSpec>,
)
    requires
        genesis.is_genesis_of(state, builder.spec),
    ensures
        ({
            let ready = builder.with_log(log).with_store(store).started_at(genesis).with_op_pool(
                op_pool,
            ).with_dummy_eth1_backend(eth1_backend).with_event_handler(handler).with_slot_clock(
                clock,
            );
            &&& ready.finalized_checkpoint == Some(genesis)
            &&& ready.set_fork_choice_backend(backend) matches Ok(done)
            &&& done.finalized_checkpoint == Some(genesis)
            &&& done.build_obstacle(CheckPoint { beacon_state: cached, ..genesis }) is None
            &&& done.genesis_block_root == Some(genesis.beacon_block_root)
            &&& done.fork_choice matches Some(fork_choice)
            &&& fork_choice.store == store
            &&& fork_choice.genesis_block_root == genesis.beacon_block_root
        }),
{
}

/// Once a persisted chain has been resumed on a builder with a logger and a store, and it has an
/// event handler and a slot clock, it can be given a fork choice, and then it can be built around
/// its head exactly when the block of the head commits to its state. The parts agree on the store
/// and on where the chain started.
pub proof fn resumed_chain_can_be_built<T: BeaconChainTypes, L>(
    builder: BuilderView<T, L>,
    log: L,
    store: Arc<T::Store>,
    head: CheckPoint<T::EthSpec>,
    genesis_block_root: Hash256,
    op_pool: <T::EthSpec as EthSpec>::OperationPool,
    handler: T::EventHandler,
    clock: T::SlotClock,
    backend: T::LmdGhost,
    cached: BeaconState<T::EthSpec>,
)
    ensures
        ({
            let ready = builder.with_log(log).with_store(store).resumed_at(
                head,
                genesis_block_root,
                op_pool,
            ).with_event_handler(handler).with_slot_clock(clock);
            &&& ready.finalized_checkpoint == Some(head)
            &&& ready.set_fork_choice_backend(backend) matches Ok(done)
            &&& done.finalized_checkpoint == Some(head)
            &&& (done.build_obstacle(CheckPoint { beacon_state: cached, ..head }) is None
                <==> head.consistent())
            &&& done.genesis_block_root == Some(genesis_block_root)
            &&& done.fork_choice matches Some(fork_choice)
            &&& fork_choice.store == store
            &&& fork_choice.genesis_block_root == genesis_block_root
        }),
{
}

/// A builder is well formed at first, and each step keeps it so: the settings, starting a chain,
/// resuming one, and setting a fork choice.
pub proof fn every_step_keeps_well_formed<T: BeaconChainTypes, L>(
    builder: BuilderView<T, L>,
    spec: <T::EthSpec as EthSpec>::ChainSpec,
    store: Arc<T::Store>,
    log: L,
    eth1_backend: Option<T::Eth1Chain>,
    dummy: T::Eth1Chain,
    handler: T::EventHandler,
    clock: T::SlotClock,
    checkpoint: CheckPoint<T::EthSpec>,
    genesis_block_root: Hash256,
    op_pool: <T::EthSpec as EthSpec>::OperationPool,
    backend: T::LmdGhost,
)
    ensures
        builder.blank() ==> builder.well_formed(),
        builder.well_formed() ==> {
            &&& builder.with_spec(spec).well_formed()
            &&& builder.with_store(store).well_formed()
            &&& builder.with_log(log).well_formed()
            &&& builder.with_eth1_backend(eth1_backend).well_formed()
            &&& builder.with_dummy_eth1_backend(dummy).well_formed()
            &&& builder.with_event_handler(handler).well_formed()
            &&& builder.with_slot_clock(clock).well_formed()
            &&& builder.started_at(checkpoint).well_formed()
            &&& builder.started_at(checkpoint).with_op_pool(op_pool).well_formed()
            &&& builder.resumed_at(checkpoint, genesis_block_root, op_pool).well_formed()
            &&& builder.set_fork_choice_backend(backend) matches Ok(next) ==> next.well_formed()
        },
{
}

/// A missing genesis block root is never what stops a well-formed builder: whatever is reported
/// would be reported with a root as well.
pub proof fn genesis_block_root_is_never_first_missing<T: BeaconChainTypes, L>(
    builder: BuilderView<T, L>,
    genesis_block_root: Hash256,
    head: CheckPoint<T::EthSpec>,
)
    requires
        builder.well_formed(),
    ensures
        builder.build_obstacle(head) == (BuilderView {
            genesis_block_root: Some(genesis_block_root),
            ..builder
        }).build_obstacle(head),
{
}

/// What is supplied last counts: whatever a builder was given for a part before is forgotten.
pub proof fn last_setting_counts<T: BeaconChainTypes, L>(
    builder: BuilderView<T, L>,
    spec: (<T::EthSpec as EthSpec>::ChainSpec, <T::EthSpec as EthSpec>::ChainSpec),
    store: (Arc<T::Store>, Arc<T::Store>),
    log: (L, L),
    backend: (Option<T::Eth1Chain>, Option<T::Eth1Chain>),
    handler: (T::EventHandler, T::EventHandler),
    clock: (T::SlotClock, T::SlotClock),
    genesis: (CheckPoint<T::EthSpec>, CheckPoint<T::EthSpec>),
    genesis_block_root: (Hash256, Hash256),
    op_pool: (<T::EthSpec as EthSpec>::OperationPool, <T::EthSpec as EthSpec>::OperationPool),
)
    ensures
        builder.with_spec(spec.0).with_spec(spec.1) == builder.with_spec(spec.1),
        builder.with_store(store.0).with_store(store.1) == builder.with_store(store.1),
        builder.with_log(log.0).with_log(log.1) == builder.with_log(log.1),
        builder.with_eth1_backend(backend.0).with_eth1_backend(backend.1)
            == builder.with_eth1_backend(backend.1),
        builder.with_event_handler(handler.0).with_event_handler(handler.1)
            == builder.with_event_handler(handler.1),
        builder.with_slot_clock(clock.0).with_slot_clock(clock.1) == builder.with_slot_clock(
            clock.1,
        ),
        builder.started_at(genesis.0).with_op_pool(op_pool.0).started_at(genesis.1).with_op_pool(
            op_pool.1,
        ) == builder.started_at(genesis.1).with_op_pool(op_pool.1),
        builder.resumed_at(genesis.0, genesis_block_root.0, op_pool.0).resumed_at(
            genesis.1,
            genesis_block_root.1,
            op_pool.1,
        ) == builder.resumed_at(genesis.1, genesis_block_root.1, op_pool.1),
        builder.resumed_at(genesis.0, genesis_block_root.0, op_pool.0).started_at(
            genesis.1,
        ).with_op_pool(op_pool.1) == builder.started_at(genesis.1).with_op_pool(op_pool.1),
        builder.started_at(genesis.0).with_op_pool(op_pool.0).resumed_at(
            genesis.1,
            genesis_block_root.1,
            op_pool.1,
        ) == builder.resumed_at(genesis.1, genesis_block_root.1, op_pool.1),
{
}

/// The logger, the store, the eth1 back-end, the event handler and the slot clock can be supplied
/// in any order: any two of them can change places.
pub proof fn settings_change_places<T: BeaconChainTypes, L>(
    builder: BuilderView<T, L>,
    store: Arc<T::Store>,
    log: L,
    backend: Option<T::Eth1Chain>,
    handler: T::EventHandler,
    clock: T::SlotClock,
)
    ensures
        builder.with_store(store).with_log(log) == builder.with_log(log).with_store(store),
        builder.with_store(store).with_eth1_backend(backend) == builder.with_eth1_backend(
            backend,
        ).with_store(store),
        builder.with_store(store).with_event_handler(handler) == builder.with_event_handler(
            handler,
        ).with_store(store),
        builder.with_store(store).with_slot_clock(clock) == builder.with_slot_clock(
            clock,
        ).with_store(store),
        builder.with_log(log).with_eth1_backend(backend) == builder.with_eth1_backend(
            backend,
        ).with_log(log),
        builder.with_log(log).with_event_handler(handler) == builder.with_event_handler(
            handler,
        ).with_log(log),
        builder.with_log(log).with_slot_clock(clock) == builder.with_slot_clock(clock).with_log(
            log,
        ),
        builder.with_eth1_backend(backend).with_event_handler(handler)
            == builder.with_event_handler(handler).with_eth1_backend(backend),
        builder.with_eth1_backend(backend).with_slot_clock(clock) == builder.with_slot_clock(
            clock,
        ).with_eth1_backend(backend),
        builder.with_event_handler(handler).with_slot_clock(clock) == builder.with_slot_clock(
            clock,
        ).with_event_handler(handler),
{
}

/// A fork choice can be set exactly when the builder knows its store and where the chain starts.
pub proof fn fork_choice_needs_store_and_start<T: BeaconChainTypes, L>(
    builder: BuilderView<T, L>,
    backend: T::LmdGhost,
)
    ensures
        builder.set_fork_choice_backend(backend) is Ok <==> builder.store is Some
            && builder.genesis_block_root is Some,
{
}

} // verus!
