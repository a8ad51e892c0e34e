//! What each step of building a chain does, told by fields, calls and texts.

use crate::builder::{BeaconChainBuilder, BuilderView};
use crate::chain::BeaconChain;
use crate::components::{
    BeaconChainTypes, JsonRpcEth1Backend, TestingSlotClock, ThreadSafeReducedTree,
};
use crate::genesis::{GenesisItem, GenesisWrite, WriteStep};
use crate::hash256::Hash256;
use crate::store::{Contents, Put, Source, Store, StoredItem};
use crate::types::{BeaconBlock, BeaconState, CheckPoint, EthSpec, PersistedBeaconChain, Slot};
use core::fmt::Debug;
use std::sync::Arc;
use std::time::Duration;
use vstd::prelude::*;

verus! {

/// Starting a chain leaves a checkpoint whose state is the given one with its caches built, and
/// whose block has the slot and the body of the preset's empty block and the root of that state.
/// The roots of both are what the preset returned for them. The genesis block root is the root of
/// the block, the operation pool is an empty one, and the rest is as before.
pub proof fn started_chain_field_by_field<T: BeaconChainTypes, L>(
    before: BuilderView<T, L>,
    state: BeaconState<T::EthSpec>,
    after: BuilderView<T, L>,
) where T::Store: Store<BeaconState<T::EthSpec>> + Store<BeaconBlock<T::EthSpec>>
    requires
        crate::builder::genesis_started(before, state, after),
    ensures
        before.store is Some,
        after.finalized_checkpoint is Some,
        ({
            let genesis = after.finalized_checkpoint->0;
            let block = genesis.beacon_block;
            &&& exists|e: BeaconBlock<T::EthSpec>| #[trigger]
                call_ensures(<T::EthSpec as EthSpec>::empty_block, (&before.spec,), e)
                    && block.slot == e.slot && block.body == e.body
            &&& call_ensures(
                <T::EthSpec as EthSpec>::build_all_caches,
                (state, &before.spec),
                Ok(genesis.beacon_state),
            )
            &&& call_ensures(
                <T::EthSpec as EthSpec>::state_root,
                (&genesis.beacon_state,),
                genesis.beacon_state_root,
            )
            &&& block.state_root == genesis.beacon_state_root
            &&& call_ensures(
                <T::EthSpec as EthSpec>::block_root,
                (&block,),
                genesis.beacon_block_root,
            )
            &&& after.genesis_block_root == Some(genesis.beacon_block_root)
        }),
        exists|pool: <T::EthSpec as EthSpec>::OperationPool| #[trigger]
            call_ensures(<T::EthSpec as EthSpec>::empty_operation_pool, (), pool) && after.op_pool
                == Some(pool),
        after == (BuilderView {
            finalized_checkpoint: after.finalized_checkpoint,
            genesis_block_root: after.genesis_block_root,
            op_pool: after.op_pool,
            ..before
        }),
{
    let genesis = after.finalized_checkpoint->0;
    let e = choose|e: BeaconBlock<T::EthSpec>| #[trigger]
        e.is_empty_under(before.spec) && genesis.beacon_block == (BeaconBlock {
            state_root: genesis.beacon_block.state_root,
            ..e
        });
    assert(call_ensures(<T::EthSpec as EthSpec>::empty_block, (&before.spec,), e));
    let pool = after.op_pool->0;
    assert(crate::types::is_empty_pool::<T::EthSpec>(pool));
    assert(call_ensures(<T::EthSpec as EthSpec>::empty_operation_pool, (), pool));
}

/// Starting a chain has the store answer with success to three writes: the state under its root,
/// the block under its root, and the block under the hash of 32 zero bytes.
pub proof fn started_chain_is_written<T: BeaconChainTypes, L>(
    before: BuilderView<T, L>,
    state: BeaconState<T::EthSpec>,
    after: BuilderView<T, L>,
    zero: Hash256,
) where T::Store: Store<BeaconState<T::EthSpec>> + Store<BeaconBlock<T::EthSpec>>
    requires
        crate::builder::genesis_started(before, state, after),
        forall|i: int| 0 <= i < 32 ==> #[trigger] zero.0[i] == 0u8,
    ensures
        before.store is Some,
        after.finalized_checkpoint is Some,
        ({
            let store = before.store->0;
            let genesis = after.finalized_checkpoint->0;
            &&& call_ensures(
                <T::Store as Store<BeaconState<T::EthSpec>>>::put,
                (&*store, &genesis.beacon_state_root, &genesis.beacon_state),
                Ok(()),
            )
            &&& call_ensures(
                <T::Store as Store<BeaconBlock<T::EthSpec>>>::put,
                (&*store, &genesis.beacon_block_root, &genesis.beacon_block),
                Ok(()),
            )
            &&& call_ensures(
                <T::Store as Store<BeaconBlock<T::EthSpec>>>::put,
                (&*store, &zero, &genesis.beacon_block),
                Ok(()),
            )
        }),
{
    let genesis = after.finalized_checkpoint->0;
    let plan = crate::genesis::genesis_plan(&genesis);
    genesis_plan_one_by_one(&genesis, zero);
    assert(crate::genesis::performed(*before.store->0, plan[0], Ok(())));
    assert(crate::genesis::performed(*before.store->0, plan[1], Ok(())));
    assert(crate::genesis::performed(*before.store->0, plan[2], Ok(())));
}

/// The writes that start a chain, one by one: what is written, under which key, and how the error
/// text starts if it fails.
pub proof fn genesis_plan_one_by_one<'a, E: EthSpec>(genesis: &'a CheckPoint<E>, zero: Hash256)
    requires
        forall|i: int| 0 <= i < 32 ==> #[trigger] zero.0[i] == 0u8,
    ensures
        ({
            let plan = crate::genesis::genesis_plan(genesis);
            &&& plan.len() == 3
            &&& plan[0].key == genesis.beacon_state_root
            &&& plan[0].item == GenesisItem::State(&genesis.beacon_state)
            &&& plan[0].failure@ == "Failed to store genesis state: "@
            &&& plan[1].key == genesis.beacon_block_root
            &&& plan[1].item == GenesisItem::Block(&genesis.beacon_block)
            &&& plan[1].failure@ == "Failed to store genesis block: "@
            &&& plan[2].key == zero
            &&& plan[2].item == GenesisItem::Block(&genesis.beacon_block)
            &&& plan[2].failure@ == "Failed to store genesis block under 0x00..00 alias: "@
        }),
        ({
            let puts = crate::genesis::genesis_puts(*genesis);
            &&& puts.len() == 3
            &&& puts[0] == (Put {
                key: genesis.beacon_state_root,
                item: StoredItem::State(genesis.beacon_state),
                succeeded: true,
            })
            &&& puts[1] == (Put {
                key: genesis.beacon_block_root,
                item: StoredItem::Block(genesis.beacon_block),
                succeeded: true,
            })
            &&& puts[2] == (Put {
                key: zero,
                item: StoredItem::Block(genesis.beacon_block),
                succeeded: true,
            })
        }),
{
    zero_hash_is_all_zero(zero);
}

/// The zero hash is the one whose 32 bytes are all zero.
pub proof fn zero_hash_is_all_zero(hash: Hash256)
    ensures
        hash == Hash256::spec_zero() <==> (forall|i: int|
            0 <= i < 32 ==> #[trigger] hash.0[i] == 0u8),
{
    let zero = Hash256::spec_zero();
    assert forall|i: int| 0 <= i < 32 implies #[trigger] zero.0[i] == 0u8 by {
        assert(zero.0@[i] == 0u8);
    }
    if forall|i: int| 0 <= i < 32 ==> #[trigger] hash.0[i] == 0u8 {
        assert(hash.0 =~= zero.0);
    }
}

/// When the writes of a list succeed, each was answered with success under its own key, and the
/// record shows them once each, in the order of the list, and nothing else.
pub proof fn successful_writes_one_by_one<
    E: EthSpec,
    S: Store<BeaconState<E>> + Store<BeaconBlock<E>>,
>(
    store: S,
    writes: Seq<GenesisWrite<'_, E>>,
    puts: Seq<Put<E>>,
    i: int,
)
    requires
        crate::genesis::performed_exactly(store, writes, puts, Ok(())),
        0 <= i < writes.len(),
    ensures
        puts.len() == writes.len(),
        puts[i].key == writes[i].key,
        puts[i].succeeded,
        match writes[i].item {
            GenesisItem::State(state) => {
                &&& puts[i].item == StoredItem::State(*state)
                &&& call_ensures(
                    <S as Store<BeaconState<E>>>::put,
                    (&store, &writes[i].key, state),
                    Ok(()),
                )
            },
            GenesisItem::Block(block) => {
                &&& puts[i].item == StoredItem::Block(*block)
                &&& call_ensures(
                    <S as Store<BeaconBlock<E>>>::put,
                    (&store, &writes[i].key, block),
                    Ok(()),
                )
            },
        },
{
    assert(crate::genesis::performed(store, writes[i], Ok(())));
}

/// When a write of a list fails, the record shows the writes up to it, once each and in order. The
/// earlier ones succeeded; the last is the one that failed, and the error text is its own start
/// followed by what `{:?}` prints for the error of the store.
pub proof fn failed_write_one_by_one<E: EthSpec, S: Store<BeaconState<E>> + Store<BeaconBlock<E>>>(
    store: S,
    writes: Seq<GenesisWrite<'_, E>>,
    puts: Seq<Put<E>>,
    text: String,
    i: int,
)
    requires
        crate::genesis::performed_exactly(store, writes, puts, Err(text)),
        0 <= i < puts.len(),
    ensures
        puts.len() <= writes.len(),
        puts[i].key == writes[i].key,
        puts[i].succeeded <==> i + 1 < puts.len(),
        match writes[i].item {
            GenesisItem::State(state) => {
                &&& puts[i].item == StoredItem::State(*state)
                &&& i + 1 < puts.len() ==> call_ensures(
                    <S as Store<BeaconState<E>>>::put,
                    (&store, &writes[i].key, state),
                    Ok(()),
                )
                &&& i + 1 == puts.len() ==> exists|
                    error: <S as Store<BeaconState<E>>>::Error,
                    shown: Seq<char>,
                | #[trigger]
                    call_ensures(
                        <S as Store<BeaconState<E>>>::put,
                        (&store, &writes[i].key, state),
                        Err(error),
                    ) && #[trigger] crate::external::debug_prints(error, shown) && text@
                        == writes[i].failure@ + shown
            },
            GenesisItem::Block(block) => {
                &&& puts[i].item == StoredItem::Block(*block)
                &&& i + 1 < puts.len() ==> call_ensures(
                    <S as Store<BeaconBlock<E>>>::put,
                    (&store, &writes[i].key, block),
                    Ok(()),
                )
                &&& i + 1 == puts.len() ==> exists|
                    error: <S as Store<BeaconBlock<E>>>::Error,
                    shown: Seq<char>,
                | #[trigger]
                    call_ensures(
                        <S as Store<BeaconBlock<E>>>::put,
                        (&store, &writes[i].key, block),
                        Err(error),
                    ) && #[trigger] crate::external::debug_prints(error, shown) && text@
                        == writes[i].failure@ + shown
            },
        },
{
    let failed = choose|failed: int|
        {
            &&& 0 <= failed < writes.len()
            &&& puts == crate::genesis::puts_of(writes, (failed + 1) as nat, false)
            &&& #[trigger] crate::genesis::performed(store, writes[failed], Err(text))
            &&& forall|i: int|
                0 <= i < failed ==> #[trigger] crate::genesis::performed(store, writes[i], Ok(()))
        };
    if i < failed {
        assert(crate::genesis::performed(store, writes[i], Ok(())));
    } else {
        match writes[i].item {
            GenesisItem::State(state) => {
                let error = choose|error: <S as Store<BeaconState<E>>>::Error| #[trigger]
                    crate::store::store_put(store, writes[i].key, *state, Err(error))
                        && crate::errors::describes(text@, writes[i].failure@, error);
                assert(call_ensures(
                    <S as Store<BeaconState<E>>>::put,
                    (&store, &writes[i].key, state),
                    Err(error),
                ));
            },
            GenesisItem::Block(block) => {
                let error = choose|error: <S as Store<BeaconBlock<E>>>::Error| #[trigger]
                    crate::store::store_put(store, writes[i].key, *block, Err(error))
                        && crate::errors::describes(text@, writes[i].failure@, error);
                assert(call_ensures(
                    <S as Store<BeaconBlock<E>>>::put,
                    (&store, &writes[i].key, block),
                    Err(error),
                ));
            },
        }
    }
}

/// Making a list of writes fails only where one of them was made and failed. So it succeeds on an
/// empty list.
pub proof fn failure_is_that_of_a_write<
    E: EthSpec,
    S: Store<BeaconState<E>> + Store<BeaconBlock<E>>,
>(
    store: S,
    writes: Seq<GenesisWrite<'_, E>>,
    puts: Seq<Put<E>>,
    result: Result<(), String>,
)
    requires
        crate::genesis::performed_exactly(store, writes, puts, result),
    ensures
        result is Err ==> 0 < puts.len() <= writes.len() && !puts.last().succeeded,
        result is Ok ==> puts.len() == writes.len(),
        writes.len() == 0 ==> result is Ok,
{
}

/// A put that succeeded is read back under its key by its type, and changes nothing under another
/// key or of the other type. One that failed changes nothing. A list of puts takes effect one after
/// the other.
pub proof fn put_is_read_back<E: EthSpec>(before: Contents<E>, puts: Seq<Put<E>>, put: Put<E>)
    ensures
        before.after_all(Seq::empty()) == before,
        before.after_all(puts.push(put)) == before.after_all(puts).after(put),
        !put.succeeded ==> before.after(put) == before,
        put.succeeded ==> match put.item {
            StoredItem::State(state) => {
                &&& before.after(put).states == before.states.insert(put.key, state)
                &&& before.after(put).blocks == before.blocks
            },
            StoredItem::Block(block) => {
                &&& before.after(put).blocks == before.blocks.insert(put.key, block)
                &&& before.after(put).states == before.states
            },
        },
{
    assert(puts.push(put).drop_last() =~= puts);
}

/// After a write that succeeded the next one is made, until there is none.
pub proof fn writing_goes_on(index: usize, count: usize)
    requires
        index < count,
    ensures
        index + 1 < count ==> WriteStep::forward(index, count) == WriteStep::Next(
            (index + 1) as usize,
        ),
        index + 1 == count ==> WriteStep::forward(index, count) == WriteStep::Done,
        WriteStep::forward(index, count).outcome() is Ok,
{
}

/// Resuming takes over the head and the genesis block root of the persisted chain, and the pool
/// that the preset restores for that head. The rest is as before.
pub proof fn resumed_chain_field_by_field<T: BeaconChainTypes, L>(
    before: BuilderView<T, L>,
    chain: PersistedBeaconChain<T::EthSpec>,
    after: BuilderView<T, L>,
)
    requires
        crate::builder::chain_resumed(before, chain, after),
    ensures
        after.finalized_checkpoint == Some(chain.canonical_head),
        after.genesis_block_root == Some(chain.genesis_block_root),
        exists|pool: <T::EthSpec as EthSpec>::OperationPool| #[trigger]
            call_ensures(
                <T::EthSpec as EthSpec>::restore_operation_pool,
                (chain.op_pool, &chain.canonical_head.beacon_state, &before.spec),
                pool,
            ) && after.op_pool == Some(pool),
        after == (BuilderView {
            finalized_checkpoint: after.finalized_checkpoint,
            genesis_block_root: after.genesis_block_root,
            op_pool: after.op_pool,
            ..before
        }),
{
    let pool = after.op_pool->0;
    assert(crate::types::is_restored_pool(
        chain.op_pool,
        chain.canonical_head.beacon_state,
        before.spec,
        pool,
    ));
    assert(call_ensures(
        <T::EthSpec as EthSpec>::restore_operation_pool,
        (chain.op_pool, &chain.canonical_head.beacon_state, &before.spec),
        pool,
    ));
}

/// What is read through a `Source` is what the store's `get` answers.
pub proof fn source_reads_with_get<I, S: Store<I>>(
    store: S,
    key: Hash256,
    result: Result<Option<I>, <S as Source<I>>::Error>,
)
    requires
        store.answers(key, result),
    ensures
        call_ensures(<S as Store<I>>::get, (&store, &key), result),
{
}

/// If a store that is read through `get` answers a key with one chain, then what is resumed from
/// an answer is that chain: its head, its genesis block root and its pool.
pub proof fn resumed_chain_is_the_one_held<T: BeaconChainTypes, L>(
    before: BuilderView<T, L>,
    key: Hash256,
    read: PersistedBeaconChain<T::EthSpec>,
    held: PersistedBeaconChain<T::EthSpec>,
    after: BuilderView<T, L>,
) where T::Store: Store<PersistedBeaconChain<T::EthSpec>>
    requires
        before.store is Some,
        forall|
            answer: Result<
                Option<PersistedBeaconChain<T::EthSpec>>,
                <T::Store as Store<PersistedBeaconChain<T::EthSpec>>>::Error,
            >,
        | #[trigger]
            call_ensures(
                <T::Store as Store<PersistedBeaconChain<T::EthSpec>>>::get,
                (&*before.store->0, &key),
                answer,
            ) ==> answer == Ok::<
                Option<PersistedBeaconChain<T::EthSpec>>,
                <T::Store as Store<PersistedBeaconChain<T::EthSpec>>>::Error,
            >(Some(held)),
        (*before.store->0).answers(key, Ok(Some(read))),
        crate::builder::chain_resumed(before, read, after),
    ensures
        after.finalized_checkpoint == Some(held.canonical_head),
        after.genesis_block_root == Some(held.genesis_block_root),
        after.store == before.store,
{
}

/// A testing clock is what `TestingSlotClock::new` returns for slot 0, a duration of as many
/// seconds as the genesis time of the checkpoint has, and the given slot duration.
pub proof fn testing_clock_starts_at_genesis_time<T: BeaconChainTypes, L>(
    before: BuilderView<T, L>,
    slot_duration: Duration,
    after: BuilderView<T, L>,
) where T::SlotClock: TestingSlotClock
    requires
        crate::builder::testing_clock_set(before, slot_duration, after),
    ensures
        before.finalized_checkpoint is Some,
        after.slot_clock is Some,
        exists|g: Duration| #[trigger]
            call_ensures(
                <T::SlotClock as TestingSlotClock>::new,
                (Slot(0), g, slot_duration),
                after.slot_clock->0,
            ) && crate::external::duration_nanos(g)
                == before.finalized_checkpoint->0.beacon_state.genesis_time * 1_000_000_000,
        after == (BuilderView { slot_clock: after.slot_clock, ..before }),
{
    let genesis_time = before.finalized_checkpoint->0.beacon_state.genesis_time;
    let clock = after.slot_clock->0;
    assert(crate::components::testing_clock_of(genesis_time, slot_duration, clock));
    let g = choose|g: Duration| #[trigger]
        call_ensures(
            <T::SlotClock as TestingSlotClock>::new,
            (Slot(0), g, slot_duration),
            clock,
        ) && crate::external::duration_nanos(g) == genesis_time * 1_000_000_000;
    assert(call_ensures(
        <T::SlotClock as TestingSlotClock>::new,
        (Slot(0), g, slot_duration),
        clock,
    ));
}

/// A chain that was built has the parts that the builder holds, each in its place.
pub proof fn built_chain_field_by_field<T: BeaconChainTypes, L>(
    builder: BuilderView<T, L>,
    head: CheckPoint<T::EthSpec>,
    chain: BeaconChain<T, L>,
)
    requires
        builder.assembles(head, Ok(chain)),
    ensures
        chain.spec == builder.spec,
        builder.store == Some(chain.store),
        builder.slot_clock == Some(chain.slot_clock),
        builder.op_pool == Some(chain.op_pool),
        builder.eth1_chain == chain.eth1_chain,
        builder.genesis_block_root == Some(chain.genesis_block_root),
        builder.fork_choice == Some(chain.fork_choice),
        builder.event_handler == Some(chain.event_handler),
        builder.log == Some(chain.log),
        crate::external::lock_made_from(chain.canonical_head, head),
        head.beacon_block.state_root == head.beacon_state_root,
{
}

/// A chain that was built has what was supplied last: the specification, the store, the logger, the
/// event handler, the slot clock and the eth1 back-end, in whatever order.
pub proof fn built_chain_has_what_was_given<T: BeaconChainTypes, L>(
    builder: BuilderView<T, L>,
    spec: <T::EthSpec as EthSpec>::ChainSpec,
    store: Arc<T::Store>,
    log: L,
    backend: Option<T::Eth1Chain>,
    handler: T::EventHandler,
    clock: T::SlotClock,
    head: CheckPoint<T::EthSpec>,
    chain: BeaconChain<T, L>,
)
    ensures
        builder.with_spec(spec).assembles(head, Ok(chain)) ==> chain.spec == spec,
        builder.with_store(store).assembles(head, Ok(chain)) ==> chain.store == store,
        builder.with_log(log).assembles(head, Ok(chain)) ==> chain.log == log,
        builder.with_event_handler(handler).assembles(head, Ok(chain)) ==> chain.event_handler
            == handler,
        builder.with_slot_clock(clock).assembles(head, Ok(chain)) ==> chain.slot_clock == clock,
        builder.with_eth1_backend(backend).assembles(head, Ok(chain)) ==> match backend {
            Some(backend) => {
                &&& chain.eth1_chain is Some
                &&& chain.eth1_chain->0.backend == backend
                &&& !chain.eth1_chain->0.use_dummy_backend
            },
            None => chain.eth1_chain is None,
        },
{
}

/// A chain is built exactly when no part is missing and the state root in the block of the head is
/// the root of its state. Otherwise the first of these is reported, in this order: the logger, the
/// state root, the store, the slot clock, the operation pool, the genesis block root, the fork
/// choice, the event handler.
pub proof fn build_reports_the_first_obstacle<T: BeaconChainTypes, L>(
    builder: BuilderView<T, L>,
    head: CheckPoint<T::EthSpec>,
    result: Result<BeaconChain<T, L>, String>,
)
    requires
        builder.assembles(head, result),
    ensures
        ({
            let log = builder.log is Some;
            let root = log && head.beacon_block.state_root == head.beacon_state_root;
            let store = root && builder.store is Some;
            let clock = store && builder.slot_clock is Some;
            let pool = clock && builder.op_pool is Some;
            let start = pool && builder.genesis_block_root is Some;
            let fork = start && builder.fork_choice is Some;
            let events = fork && builder.event_handler is Some;
            &&& result is Ok <==> events
            &&& !log ==> result->Err_0@ == "Cannot build without a logger"@
            &&& log && !root ==> result->Err_0@ == "beacon_block.state_root != beacon_state"@
            &&& root && !store ==> result->Err_0@ == "Cannot build without store"@
            &&& store && !clock ==> result->Err_0@ == "Cannot build without slot clock"@
            &&& clock && !pool ==> result->Err_0@ == "Cannot build without op pool"@
            &&& pool && !start ==> result->Err_0@ == "Cannot build without a genesis block root"@
            &&& start && !fork ==> result->Err_0@ == "Cannot build without a fork choice"@
            &&& fork && !events ==> result->Err_0@ == "Cannot build without an event handler"@
        }),
{
}

/// A real eth1 back-end is used as it is, a dummy one is marked as such, and no back-end leaves no
/// eth1 chain. Nothing else changes.
pub proof fn eth1_backend_is_used_as_given<T: BeaconChainTypes, L>(
    builder: BuilderView<T, L>,
    backend: T::Eth1Chain,
)
    ensures
        ({
            let given = builder.with_eth1_backend(Some(backend));
            &&& given.eth1_chain is Some
            &&& given.eth1_chain->0.backend == backend
            &&& !given.eth1_chain->0.use_dummy_backend
            &&& given == (BuilderView { eth1_chain: given.eth1_chain, ..builder })
        }),
        ({
            let dummy = builder.with_dummy_eth1_backend(backend);
            &&& dummy.eth1_chain is Some
            &&& dummy.eth1_chain->0.backend == backend
            &&& dummy.eth1_chain->0.use_dummy_backend
            &&& dummy == (BuilderView { eth1_chain: dummy.eth1_chain, ..builder })
        }),
        builder.with_eth1_backend(None) == (BuilderView { eth1_chain: None, ..builder }),
{
}

/// Setting an eth1 back-end changes places with starting a chain, resuming one, setting an
/// operation pool and setting the fork choice.
pub proof fn eth1_backend_changes_places<T: BeaconChainTypes, L>(
    builder: BuilderView<T, L>,
    eth1_backend: Option<T::Eth1Chain>,
    checkpoint: CheckPoint<T::EthSpec>,
    genesis_block_root: Hash256,
    op_pool: <T::EthSpec as EthSpec>::OperationPool,
    backend: T::LmdGhost,
)
    ensures
        builder.with_eth1_backend(eth1_backend).started_at(checkpoint) == builder.started_at(
            checkpoint,
        ).with_eth1_backend(eth1_backend),
        builder.with_eth1_backend(eth1_backend).with_op_pool(op_pool) == builder.with_op_pool(
            op_pool,
        ).with_eth1_backend(eth1_backend),
        builder.with_eth1_backend(eth1_backend).resumed_at(checkpoint, genesis_block_root, op_pool)
            == builder.resumed_at(checkpoint, genesis_block_root, op_pool).with_eth1_backend(
            eth1_backend,
        ),
        match builder.set_fork_choice_backend(backend) {
            Ok(chosen) => builder.with_eth1_backend(eth1_backend).set_fork_choice_backend(backend)
                == Ok::<BuilderView<T, L>, Seq<char>>(chosen.with_eth1_backend(eth1_backend)),
            Err(text) => builder.with_eth1_backend(eth1_backend).set_fork_choice_backend(backend)
                == Err::<BuilderView<T, L>, Seq<char>>(text),
        },
{
}

/// A setting sets its own field to the given value and leaves every other field as it was.
pub proof fn each_setting_sets_its_field<T: BeaconChainTypes, L>(
    builder: BuilderView<T, L>,
    spec: <T::EthSpec as EthSpec>::ChainSpec,
    store: Arc<T::Store>,
    log: L,
    op_pool: <T::EthSpec as EthSpec>::OperationPool,
    handler: T::EventHandler,
    clock: T::SlotClock,
)
    ensures
        builder.with_spec(spec) == (BuilderView { spec: spec, ..builder }),
        builder.with_store(store) == (BuilderView { store: Some(store), ..builder }),
        builder.with_log(log) == (BuilderView { log: Some(log), ..builder }),
        builder.with_op_pool(op_pool) == (BuilderView { op_pool: Some(op_pool), ..builder }),
        builder.with_event_handler(handler) == (BuilderView {
            event_handler: Some(handler),
            ..builder
        }),
        builder.with_slot_clock(clock) == (BuilderView { slot_clock: Some(clock), ..builder }),
{
}

/// Setting where a chain starts, or goes on from, sets the checkpoint and the genesis block root,
/// for a chain that goes on also the pool, and leaves every other field as it was.
pub proof fn start_and_resumption_set_their_fields<T: BeaconChainTypes, L>(
    builder: BuilderView<T, L>,
    checkpoint: CheckPoint<T::EthSpec>,
    genesis_block_root: Hash256,
    op_pool: <T::EthSpec as EthSpec>::OperationPool,
)
    ensures
        builder.started_at(checkpoint) == (BuilderView {
            finalized_checkpoint: Some(checkpoint),
            genesis_block_root: Some(checkpoint.beacon_block_root),
            ..builder
        }),
        builder.resumed_at(checkpoint, genesis_block_root, op_pool) == (BuilderView {
            finalized_checkpoint: Some(checkpoint),
            genesis_block_root: Some(genesis_block_root),
            op_pool: Some(op_pool),
            ..builder
        }),
{
}

/// A fork choice is made of the builder's store, the given back-end and the builder's genesis block
/// root, and is all that changes. A missing store is reported first, then a missing root.
pub proof fn fork_choice_field_by_field<T: BeaconChainTypes, L>(
    builder: BuilderView<T, L>,
    backend: T::LmdGhost,
)
    ensures
        match builder.set_fork_choice_backend(backend) {
            Ok(chosen) => {
                &&& chosen.fork_choice is Some
                &&& builder.store == Some(chosen.fork_choice->0.store)
                &&& chosen.fork_choice->0.backend == backend
                &&& builder.genesis_block_root == Some(chosen.fork_choice->0.genesis_block_root)
                &&& chosen == (BuilderView { fork_choice: chosen.fork_choice, ..builder })
            },
            Err(text) => {
                ||| builder.store is None && text == "reduced_tree_fork_choice requires a store"@
                ||| builder.store is Some && builder.genesis_block_root is None && text
                    == "fork_choice_backend requires a genesis_block_root"@
            },
        },
{
}

/// A blank builder holds nothing but its specification.
pub proof fn blank_builder_field_by_field<T: BeaconChainTypes, L>(builder: BuilderView<T, L>)
    ensures
        builder.blank() <==> builder == (BuilderView::<T, L> {
            store: None,
            finalized_checkpoint: None,
            genesis_block_root: None,
            op_pool: None,
            fork_choice: None,
            eth1_chain: None,
            event_handler: None,
            slot_clock: None,
            spec: builder.spec,
            log: None,
        }),
{
}

/// A step that gives a builder returns it, and one that gives a text returns that text.
pub proof fn what_a_step_gives<T: BeaconChainTypes, L>(
    result: Result<BeaconChainBuilder<T, L>, String>,
    builder: BuilderView<T, L>,
    text: Seq<char>,
)
    ensures
        crate::builder::gives(result, Ok(builder)) <==> (result matches Ok(given) && given@
            == builder),
        crate::builder::gives(result, Err(text)) <==> (result matches Err(given) && given@ == text),
{
}

/// The relations on states, blocks and pools are the calls of the preset, with these arguments.
pub proof fn preset_relations_are_its_calls<E: EthSpec>(
    state: BeaconState<E>,
    block: BeaconBlock<E>,
    spec: E::ChainSpec,
    root: Hash256,
    caches: Result<BeaconState<E>, E::StateError>,
    persisted: E::PersistedOperationPool,
    pool: E::OperationPool,
)
    ensures
        state.has_root(root) <==> call_ensures(E::state_root, (&state,), root),
        state.caches_to(spec, caches) <==> call_ensures(
            E::build_all_caches,
            (state, &spec),
            caches,
        ),
        block.has_root(root) <==> call_ensures(E::block_root, (&block,), root),
        block.is_empty_under(spec) <==> call_ensures(E::empty_block, (&spec,), block),
        crate::types::is_empty_pool::<E>(pool) <==> call_ensures(
            E::empty_operation_pool,
            (),
            pool,
        ),
        crate::types::is_restored_pool(persisted, state, spec, pool) <==> call_ensures(
            E::restore_operation_pool,
            (persisted, &state, &spec),
            pool,
        ),
{
}

/// A reduced tree is what `ThreadSafeReducedTree::new` returns for the store, the block and its
/// root; a default eth1 back-end what `JsonRpcEth1Backend::new` returns for the default
/// configuration and a clone of the logger.
pub proof fn backend_relations_are_their_calls<
    S,
    E: EthSpec,
    G: ThreadSafeReducedTree<S, E>,
    L: Clone,
    B: JsonRpcEth1Backend<L>,
>(store: Arc<S>, block: BeaconBlock<E>, root: Hash256, tree: G, log: L, backend: B)
    ensures
        crate::components::reduced_tree_of(store, block, root, tree) <==> call_ensures(
            <G as ThreadSafeReducedTree<S, E>>::new,
            (store, &block, root),
            tree,
        ),
        crate::components::default_eth1_backend_of(log, backend) ==> exists|
            config: B::Config,
            handle: L,
        | #[trigger]
            call_ensures(<B as JsonRpcEth1Backend<L>>::new, (config, handle), backend)
                && call_ensures(<B::Config as Default>::default, (), config) && cloned(log, handle),
{
}

/// An error text is its prefix followed by what `{:?}` prints for the error.
pub proof fn error_text_is_prefix_and_error<X: Debug>(
    text: Seq<char>,
    prefix: Seq<char>,
    error: X,
)
    requires
        crate::errors::describes(text, prefix, error),
    ensures
        text.len() >= prefix.len(),
        text.take(prefix.len() as int) == prefix,
        crate::external::debug_prints(error, text.skip(prefix.len() as int)),
{
    let shown = choose|shown: Seq<char>| #[trigger]
        crate::external::debug_prints(error, shown) && text == prefix + shown;
    assert(text.skip(prefix.len() as int) =~= shown);
    assert(text.take(prefix.len() as int) =~= prefix);
}

/// Two hashes compare equal exactly when all their bytes are.
pub proof fn equal_hashes_have_equal_bytes(a: Hash256, b: Hash256)
    ensures
        vstd::std_specs::cmp::PartialEqSpec::eq_spec(&a, &b) <==> (forall|i: int|
            0 <= i < 32 ==> #[trigger] a.0[i] == b.0[i]),
{
    if forall|i: int| 0 <= i < 32 ==> #[trigger] a.0[i] == b.0[i] {
        assert(a.0 =~= b.0);
    }
}

/// The hexadecimal text of a hash shows each byte by two digits, the high one first, and each digit
/// stands for its place in "0123456789abcdef".
pub proof fn hexadecimal_shows_each_byte(hash: Hash256, i: int)
    requires
        0 <= i < 32,
    ensures
        hash.hex_digits(32).len() == 64,
        hash.hex_digits(32)[2 * i] == "0123456789abcdef"@[hash.0[i] as int / 16],
        hash.hex_digits(32)[2 * i + 1] == "0123456789abcdef"@[hash.0[i] as int % 16],
{
    reveal_strlit("0123456789abcdef");
    assert((2 * i) / 2 == i && (2 * i) % 2 == 0 && (2 * i + 1) / 2 == i && (2 * i + 1) % 2 == 1);
    assert(hash@[i] == hash.0[i]);
}

} // verus!
