//! What each operation returns, told by what goes in and what comes out.

use crate::builder::{BeaconChainBuilder, BuilderView};
use crate::chain::BeaconChain;
use crate::components::{
    BeaconChainTypes, Eth1Chain, ForkChoice, JsonRpcEth1Backend, NullEventHandler,
    TestingSlotClock, ThreadSafeReducedTree, Witness,
};
use crate::genesis::{GenesisItem, GenesisWrite, WriteStep};
use crate::hash256::Hash256;
use crate::store::{Contents, Put, Store, StoredItem};
use crate::types::{BeaconBlock, BeaconState, CheckPoint, EthSpec, PersistedBeaconChain, Slot};
use core::fmt::Debug;
use std::sync::Arc;
use std::time::Duration;
use vstd::prelude::*;

verus! {

/// A new builder has the default specification of the preset and nothing else, and has made no call
/// on a store.
pub proof fn new_builder_has_only_the_default_spec<S, C, G, B, E: EthSpec, H, L>(
    preset: E,
    builder: BeaconChainBuilder<Witness<S, C, G, B, E, H>, L>,
)
    requires
        call_ensures(
            BeaconChainBuilder::<Witness<S, C, G, B, E, H>, L>::new,
            (preset,),
            builder,
        ),
    ensures
        call_ensures(E::default_spec, (), builder@.spec),
        builder@.store is None,
        builder@.finalized_checkpoint is None,
        builder@.genesis_block_root is None,
        builder@.op_pool is None,
        builder@.fork_choice is None,
        builder@.eth1_chain is None,
        builder@.event_handler is None,
        builder@.slot_clock is None,
        builder@.log is None,
        builder.calls().puts.len() == 0,
        builder.calls().gets.len() == 0,
{
}

/// `custom_spec`, `logger`, `event_handler` and `slot_clock` each set one part to what was given,
/// leave the other parts alone, and make no call on the store.
pub proof fn setting_a_part_sets_that_part<S, C, G, B, E: EthSpec, H, L>(
    before: BeaconChainBuilder<Witness<S, C, G, B, E, H>, L>,
    spec: E::ChainSpec,
    log: L,
    handler: H,
    clock: C,
    after: BeaconChainBuilder<Witness<S, C, G, B, E, H>, L>,
)
    ensures
        call_ensures(
            BeaconChainBuilder::<Witness<S, C, G, B, E, H>, L>::custom_spec,
            (before, spec),
            after,
        ) ==> after@ == (BuilderView { spec: spec, ..before@ }) && after.calls()
            == before.calls(),
        call_ensures(
            BeaconChainBuilder::<Witness<S, C, G, B, E, H>, L>::logger,
            (before, log),
            after,
        ) ==> after@ == (BuilderView { log: Some(log), ..before@ }) && after.calls()
            == before.calls(),
        call_ensures(
            BeaconChainBuilder::<Witness<S, C, G, B, E, H>, L>::event_handler,
            (before, handler),
            after,
        ) ==> after@ == (BuilderView { event_handler: Some(handler), ..before@ })
            && after.calls() == before.calls(),
        call_ensures(
            BeaconChainBuilder::<Witness<S, C, G, B, E, H>, L>::slot_clock,
            (before, clock),
            after,
        ) ==> after@ == (BuilderView { slot_clock: Some(clock), ..before@ }) && after.calls()
            == before.calls(),
{
}

/// `store` sets the store and leaves the other parts alone. No call has been made on it.
pub proof fn setting_the_store_sets_the_store<S, C, G, B, E: EthSpec, H, L>(
    before: BeaconChainBuilder<Witness<S, C, G, B, E, H>, L>,
    store: Arc<S>,
    after: BeaconChainBuilder<Witness<S, C, G, B, E, H>, L>,
)
    requires
        call_ensures(
            BeaconChainBuilder::<Witness<S, C, G, B, E, H>, L>::store,
            (before, store),
            after,
        ),
    ensures
        after@ == (BuilderView { store: Some(store), ..before@ }),
        after.calls().puts.len() == 0,
        after.calls().gets.len() == 0,
{
}

/// `null_event_handler` sets the event handler to the null handler that `default` makes.
pub proof fn null_event_handler_is_the_default_one<S, C, G, B, E: EthSpec, L>(
    before: BeaconChainBuilder<Witness<S, C, G, B, E, NullEventHandler<E>>, L>,
    handler: NullEventHandler<E>,
    after: BeaconChainBuilder<Witness<S, C, G, B, E, NullEventHandler<E>>, L>,
)
    requires
        call_ensures(
            BeaconChainBuilder::<
                Witness<S, C, G, B, E, NullEventHandler<E>>,
                L,
            >::null_event_handler,
            (before,),
            after,
        ),
        call_ensures(<NullEventHandler<E> as Default>::default, (), handler),
    ensures
        after@ == (BuilderView { event_handler: Some(handler), ..before@ }),
        after.calls() == before.calls(),
{
}

/// `start_at` sets the checkpoint, and the root of its block as the genesis block root. `resume_at`
/// sets the checkpoint, the genesis block root and the operation pool to what was given.
pub proof fn setting_a_start_or_a_head<S, C, G, B, E: EthSpec, H, L>(
    before: BeaconChainBuilder<Witness<S, C, G, B, E, H>, L>,
    checkpoint: CheckPoint<E>,
    genesis_block_root: Hash256,
    op_pool: E::OperationPool,
    after: BeaconChainBuilder<Witness<S, C, G, B, E, H>, L>,
)
    ensures
        call_ensures(
            BeaconChainBuilder::<Witness<S, C, G, B, E, H>, L>::start_at,
            (before, checkpoint),
            after,
        ) ==> after@ == (BuilderView {
            finalized_checkpoint: Some(checkpoint),
            genesis_block_root: Some(checkpoint.beacon_block_root),
            ..before@
        }) && after.calls() == before.calls(),
        call_ensures(
            BeaconChainBuilder::<Witness<S, C, G, B, E, H>, L>::resume_at,
            (before, checkpoint, genesis_block_root, op_pool),
            after,
        ) ==> after@ == (BuilderView {
            finalized_checkpoint: Some(checkpoint),
            genesis_block_root: Some(genesis_block_root),
            op_pool: Some(op_pool),
            ..before@
        }) && after.calls() == before.calls(),
{
}

/// A given eth1 back-end becomes the eth1 chain, not marked as a dummy, whatever else the builder
/// has. Without one there is no eth1 chain.
pub proof fn given_eth1_backend_is_no_dummy<S, C, G, B: JsonRpcEth1Backend<L>, E: EthSpec, H, L>(
    before: BeaconChainBuilder<Witness<S, C, G, B, E, H>, L>,
    backend: B,
    after: BeaconChainBuilder<Witness<S, C, G, B, E, H>, L>,
)
    ensures
        call_ensures(
            BeaconChainBuilder::<Witness<S, C, G, B, E, H>, L>::eth1_backend,
            (before, Some(backend)),
            after,
        ) || call_ensures(
            BeaconChainBuilder::<Witness<S, C, G, B, E, H>, L>::json_rpc_eth1_backend,
            (before, backend),
            after,
        ) ==> {
            &&& after@.eth1_chain is Some
            &&& after@.eth1_chain->0.backend == backend
            &&& !after@.eth1_chain->0.use_dummy_backend
            &&& after@ == (BuilderView { eth1_chain: after@.eth1_chain, ..before@ })
            &&& after.calls() == before.calls()
        },
        call_ensures(
            BeaconChainBuilder::<Witness<S, C, G, B, E, H>, L>::eth1_backend,
            (before, None),
            after,
        ) || call_ensures(
            BeaconChainBuilder::<Witness<S, C, G, B, E, H>, L>::no_eth1_backend,
            (before,),
            after,
        ) ==> after@ == (BuilderView { eth1_chain: None, ..before@ }) && after.calls()
            == before.calls(),
{
}

/// `dummy_eth1_backend` makes a back-end from the default configuration and a clone of the logger
/// and marks it as a dummy. It fails exactly when there is no logger.
pub proof fn dummy_eth1_backend_is_marked<
    S,
    C,
    G,
    B: JsonRpcEth1Backend<L>,
    E: EthSpec,
    H,
    L: Clone,
>(
    before: BeaconChainBuilder<Witness<S, C, G, B, E, H>, L>,
    result: Result<BeaconChainBuilder<Witness<S, C, G, B, E, H>, L>, String>,
)
    requires
        call_ensures(
            BeaconChainBuilder::<Witness<S, C, G, B, E, H>, L>::dummy_eth1_backend,
            (before,),
            result,
        ),
    ensures
        result is Ok <==> before@.log is Some,
        result is Err ==> result->Err_0@ == "dummy_eth1_backend requires a log"@,
        result is Ok ==> {
            let after = result->Ok_0;
            &&& after@.eth1_chain is Some
            &&& after@.eth1_chain->0.use_dummy_backend
            &&& exists|config: B::Config, log: L| #[trigger]
                call_ensures(
                    <B as JsonRpcEth1Backend<L>>::new,
                    (config, log),
                    after@.eth1_chain->0.backend,
                ) && call_ensures(<B::Config as Default>::default, (), config) && cloned(
                    before@.log->0,
                    log,
                )
            &&& after@ == (BuilderView { eth1_chain: after@.eth1_chain, ..before@ })
            &&& after.calls() == before.calls()
        },
{
    if before@.log is Some {
        let backend = result->Ok_0@.eth1_chain->0.backend;
        assert(crate::components::default_eth1_backend_of(before@.log->0, backend));
    }
}

/// `fork_choice_backend` makes a fork choice of the store, the back-end and the genesis block root.
/// It fails exactly when there is no store, or else no genesis block root.
pub proof fn fork_choice_is_over_the_given_backend<S, C, G, B, E: EthSpec, H, L>(
    before: BeaconChainBuilder<Witness<S, C, G, B, E, H>, L>,
    backend: G,
    result: Result<BeaconChainBuilder<Witness<S, C, G, B, E, H>, L>, String>,
)
    requires
        call_ensures(
            BeaconChainBuilder::<Witness<S, C, G, B, E, H>, L>::fork_choice_backend,
            (before, backend),
            result,
        ),
    ensures
        result is Ok <==> before@.store is Some && before@.genesis_block_root is Some,
        before@.store is None ==> result->Err_0@ == "reduced_tree_fork_choice requires a store"@,
        before@.store is Some && before@.genesis_block_root is None ==> result->Err_0@
            == "fork_choice_backend requires a genesis_block_root"@,
        result is Ok ==> {
            let after = result->Ok_0;
            &&& after@.fork_choice is Some
            &&& before@.store == Some(after@.fork_choice->0.store)
            &&& after@.fork_choice->0.backend == backend
            &&& before@.genesis_block_root == Some(after@.fork_choice->0.genesis_block_root)
            &&& after@ == (BuilderView { fork_choice: after@.fork_choice, ..before@ })
            &&& after.calls() == before.calls()
        },
{
}

/// `empty_reduced_tree_fork_choice` makes the back-end from the store and the block of the
/// checkpoint with its root, and is otherwise `fork_choice_backend`.
pub proof fn reduced_tree_holds_the_finalized_block<
    S,
    C,
    G: ThreadSafeReducedTree<S, E>,
    B,
    E: EthSpec,
    H,
    L,
>(
    before: BeaconChainBuilder<Witness<S, C, G, B, E, H>, L>,
    result: Result<BeaconChainBuilder<Witness<S, C, G, B, E, H>, L>, String>,
)
    requires
        before@.store is Some ==> before@.finalized_checkpoint is Some,
        call_ensures(
            BeaconChainBuilder::<
                Witness<S, C, G, B, E, H>,
                L,
            >::empty_reduced_tree_fork_choice,
            (before,),
            result,
        ),
    ensures
        result is Ok <==> before@.store is Some && before@.genesis_block_root is Some,
        before@.store is None ==> result->Err_0@ == "reduced_tree_fork_choice requires a store"@,
        before@.store is Some && before@.genesis_block_root is None ==> result->Err_0@
            == "fork_choice_backend requires a genesis_block_root"@,
        result is Ok ==> {
            let after = result->Ok_0;
            let checkpoint = before@.finalized_checkpoint->0;
            &&& after@.fork_choice is Some
            &&& before@.store == Some(after@.fork_choice->0.store)
            &&& before@.genesis_block_root == Some(after@.fork_choice->0.genesis_block_root)
            &&& call_ensures(
                <G as ThreadSafeReducedTree<S, E>>::new,
                (before@.store->0, &checkpoint.beacon_block, checkpoint.beacon_block_root),
                after@.fork_choice->0.backend,
            )
            &&& after@ == (BuilderView { fork_choice: after@.fork_choice, ..before@ })
            &&& after.calls() == before.calls()
        },
{
}

/// `testing_slot_clock` sets the clock that `TestingSlotClock::new` returns for slot 0, a duration
/// of as many seconds as the genesis time of the checkpoint has, and the given slot duration. It
/// fails exactly when there is no checkpoint.
pub proof fn testing_clock_is_set_to_the_genesis_time<
    S,
    C: TestingSlotClock,
    G,
    B,
    E: EthSpec,
    H,
    L,
>(
    before: BeaconChainBuilder<Witness<S, C, G, B, E, H>, L>,
    slot_duration: Duration,
    result: Result<BeaconChainBuilder<Witness<S, C, G, B, E, H>, L>, String>,
)
    requires
        call_ensures(
            BeaconChainBuilder::<Witness<S, C, G, B, E, H>, L>::testing_slot_clock,
            (before, slot_duration),
            result,
        ),
    ensures
        result is Ok <==> before@.finalized_checkpoint is Some,
        result is Err ==> result->Err_0@ == "testing_slot_clock requires an initialized state"@,
        result is Ok ==> {
            let after = result->Ok_0;
            &&& after@.slot_clock is Some
            &&& exists|g: Duration| #[trigger]
                call_ensures(
                    <C as TestingSlotClock>::new,
                    (Slot(0), g, slot_duration),
                    after@.slot_clock->0,
                ) && crate::external::duration_nanos(g)
                    == before@.finalized_checkpoint->0.beacon_state.genesis_time * 1_000_000_000
            &&& after@ == (BuilderView { slot_clock: after@.slot_clock, ..before@ })
            &&& after.calls() == before.calls()
        },
{
    if result is Ok {
        crate::effects::testing_clock_starts_at_genesis_time(
            before@,
            slot_duration,
            result->Ok_0@,
        );
    }
}

/// `genesis_state` leaves the genesis of a new chain, field by field, having put the state under
/// its root, the block under its root and the block under the hash of 32 zero bytes, in this
/// order, and having made no other call on the store.
pub proof fn starting_a_chain_makes_its_genesis<S, C, G, B, E: EthSpec, H, L>(
    before: BeaconChainBuilder<Witness<S, C, G, B, E, H>, L>,
    state: BeaconState<E>,
    after: BeaconChainBuilder<Witness<S, C, G, B, E, H>, L>,
    zero: Hash256,
) where S: Store<BeaconState<E>> + Store<BeaconBlock<E>>
    requires
        call_ensures(
            BeaconChainBuilder::<Witness<S, C, G, B, E, H>, L>::genesis_state,
            (before, state),
            Ok(after),
        ),
        forall|i: int| 0 <= i < 32 ==> #[trigger] zero.0[i] == 0u8,
    ensures
        before@.store is Some,
        after@.finalized_checkpoint is Some,
        ({
            let genesis = after@.finalized_checkpoint->0;
            let block = genesis.beacon_block;
            &&& exists|e: BeaconBlock<E>| #[trigger]
                call_ensures(E::empty_block, (&before@.spec,), e) && block.slot == e.slot
                    && block.body == e.body
            &&& call_ensures(
                E::build_all_caches,
                (state, &before@.spec),
                Ok(genesis.beacon_state),
            )
            &&& call_ensures(E::state_root, (&genesis.beacon_state,), genesis.beacon_state_root)
            &&& block.state_root == genesis.beacon_state_root
            &&& call_ensures(E::block_root, (&block,), genesis.beacon_block_root)
            &&& after@.genesis_block_root == Some(genesis.beacon_block_root)
            &&& call_ensures(
                <S as Store<BeaconState<E>>>::put,
                (&*before@.store->0, &genesis.beacon_state_root, &genesis.beacon_state),
                Ok(()),
            )
            &&& call_ensures(
                <S as Store<BeaconBlock<E>>>::put,
                (&*before@.store->0, &genesis.beacon_block_root, &block),
                Ok(()),
            )
            &&& call_ensures(
                <S as Store<BeaconBlock<E>>>::put,
                (&*before@.store->0, &zero, &block),
                Ok(()),
            )
            &&& after.calls().puts == before.calls().puts.push(
                (Put {
                    key: genesis.beacon_state_root,
                    item: StoredItem::State(genesis.beacon_state),
                    succeeded: true,
                }),
            ).push(
                (Put {
                    key: genesis.beacon_block_root,
                    item: StoredItem::Block(block),
                    succeeded: true,
                }),
            ).push((Put { key: zero, item: StoredItem::Block(block), succeeded: true }))
            &&& after.calls().gets == before.calls().gets
        }),
        exists|pool: E::OperationPool| #[trigger]
            call_ensures(E::empty_operation_pool, (), pool) && after@.op_pool == Some(pool),
        after@ == (BuilderView {
            finalized_checkpoint: after@.finalized_checkpoint,
            genesis_block_root: after@.genesis_block_root,
            op_pool: after@.op_pool,
            ..before@
        }),
{
    crate::effects::started_chain_field_by_field(before@, state, after@);
    crate::effects::started_chain_is_written(before@, state, after@, zero);
    let genesis = after@.finalized_checkpoint->0;
    crate::effects::genesis_plan_one_by_one(&genesis, zero);
    assert(after.calls().puts =~= before.calls().puts.push(
        (Put {
            key: genesis.beacon_state_root,
            item: StoredItem::State(genesis.beacon_state),
            succeeded: true,
        }),
    ).push(
        (Put {
            key: genesis.beacon_block_root,
            item: StoredItem::Block(genesis.beacon_block),
            succeeded: true,
        }),
    ).push((Put { key: zero, item: StoredItem::Block(genesis.beacon_block), succeeded: true })));
}

/// `genesis_state` without a store fails with its own text. With one, it succeeds where the preset
/// can only answer that it built the caches, and the store only that it kept what it was given.
pub proof fn starting_a_chain_succeeds_if_its_parts_do<S, C, G, B, E: EthSpec, H, L>(
    before: BeaconChainBuilder<Witness<S, C, G, B, E, H>, L>,
    state: BeaconState<E>,
    result: Result<BeaconChainBuilder<Witness<S, C, G, B, E, H>, L>, String>,
) where S: Store<BeaconState<E>> + Store<BeaconBlock<E>>
    requires
        call_ensures(
            BeaconChainBuilder::<Witness<S, C, G, B, E, H>, L>::genesis_state,
            (before, state),
            result,
        ),
    ensures
        before@.store is None ==> result is Err && result->Err_0@
            == "genesis_state requires a store"@,
        before@.store is Some && (forall|e: E::StateError|
            !#[trigger] call_ensures(E::build_all_caches, (state, &before@.spec), Err(e))) && (
        forall|key: Hash256, item: BeaconState<E>, e: <S as Store<BeaconState<E>>>::Error|
            !#[trigger] call_ensures(
                <S as Store<BeaconState<E>>>::put,
                (&*before@.store->0, &key, &item),
                Err(e),
            )) && (forall|
            key: Hash256,
            item: BeaconBlock<E>,
            e: <S as Store<BeaconBlock<E>>>::Error,
        |
            !#[trigger] call_ensures(
                <S as Store<BeaconBlock<E>>>::put,
                (&*before@.store->0, &key, &item),
                Err(e),
            )) ==> result is Ok,
{
}

/// `genesis_state` that fails with a store reports either that the preset could not build the
/// caches, or the first write of the genesis that failed, those before it having succeeded. Each
/// text has its own start, and ends with what `{:?}` prints for the error.
pub proof fn failing_to_start_a_chain_says_why<S, C, G, B, E: EthSpec, H, L>(
    before: BeaconChainBuilder<Witness<S, C, G, B, E, H>, L>,
    state: BeaconState<E>,
    text: String,
    zero: Hash256,
) where S: Store<BeaconState<E>> + Store<BeaconBlock<E>>
    requires
        before@.store is Some,
        call_ensures(
            BeaconChainBuilder::<Witness<S, C, G, B, E, H>, L>::genesis_state,
            (before, state),
            Err(text),
        ),
        forall|i: int| 0 <= i < 32 ==> #[trigger] zero.0[i] == 0u8,
    ensures
        ({
            ||| exists|e: E::StateError, shown: Seq<char>| #[trigger]
                call_ensures(E::build_all_caches, (state, &before@.spec), Err(e)) && #[trigger]
                crate::external::debug_prints(e, shown) && text@
                    == "Failed to build genesis state caches: "@ + shown
            ||| exists|genesis: CheckPoint<E>, empty: BeaconBlock<E>| #[trigger]
                call_ensures(
                    E::block_root,
                    (&genesis.beacon_block,),
                    genesis.beacon_block_root,
                ) && #[trigger] call_ensures(E::empty_block, (&before@.spec,), empty) && {
                    let store = before@.store->0;
                    let state_put = call_ensures(
                        <S as Store<BeaconState<E>>>::put,
                        (&*store, &genesis.beacon_state_root, &genesis.beacon_state),
                        Ok(()),
                    );
                    let block_put = call_ensures(
                        <S as Store<BeaconBlock<E>>>::put,
                        (&*store, &genesis.beacon_block_root, &genesis.beacon_block),
                        Ok(()),
                    );
                    &&& genesis.beacon_block.slot == empty.slot
                    &&& genesis.beacon_block.body == empty.body
                    &&& genesis.beacon_block.state_root == genesis.beacon_state_root
                    &&& call_ensures(
                        E::state_root,
                        (&genesis.beacon_state,),
                        genesis.beacon_state_root,
                    )
                    &&& call_ensures(
                        E::build_all_caches,
                        (state, &before@.spec),
                        Ok(genesis.beacon_state),
                    )
                    &&& {
                        ||| exists|e: <S as Store<BeaconState<E>>>::Error, shown: Seq<char>|
                            #[trigger] call_ensures(
                                <S as Store<BeaconState<E>>>::put,
                                (&*store, &genesis.beacon_state_root, &genesis.beacon_state),
                                Err(e),
                            ) && #[trigger] crate::external::debug_prints(e, shown) && text@
                                == "Failed to store genesis state: "@ + shown
                        ||| state_put && exists|
                            e: <S as Store<BeaconBlock<E>>>::Error,
                            shown: Seq<char>,
                        | #[trigger]
                            call_ensures(
                                <S as Store<BeaconBlock<E>>>::put,
                                (&*store, &genesis.beacon_block_root, &genesis.beacon_block),
                                Err(e),
                            ) && #[trigger] crate::external::debug_prints(e, shown) && text@
                                == "Failed to store genesis block: "@ + shown
                        ||| state_put && block_put && exists|
                            e: <S as Store<BeaconBlock<E>>>::Error,
                            shown: Seq<char>,
                        | #[trigger]
                            call_ensures(
                                <S as Store<BeaconBlock<E>>>::put,
                                (&*store, &zero, &genesis.beacon_block),
                                Err(e),
                            ) && #[trigger] crate::external::debug_prints(e, shown) && text@
                                == "Failed to store genesis block under 0x00..00 alias: "@ + shown
                    }
                }
        }),
{
    crate::effects::zero_hash_is_all_zero(zero);
    let store = before@.store->0;
    if exists|e: E::StateError| #[trigger]
        state.caches_to(before@.spec, Err(e)) && crate::errors::describes(
            text@,
            "Failed to build genesis state caches: "@,
            e,
        ) {
        let e = choose|e: E::StateError| #[trigger]
            state.caches_to(before@.spec, Err(e)) && crate::errors::describes(
                text@,
                "Failed to build genesis state caches: "@,
                e,
            );
        assert(call_ensures(E::build_all_caches, (state, &before@.spec), Err(e)));
    } else {
        let genesis = choose|genesis: CheckPoint<E>| #[trigger]
            genesis.is_genesis_of(state, before@.spec) && crate::genesis::performed_in_order(
                *store,
                crate::genesis::genesis_plan(&genesis),
                Err(text),
            );
        let empty = choose|empty: BeaconBlock<E>| #[trigger]
            empty.is_empty_under(before@.spec) && genesis.beacon_block == (BeaconBlock {
                state_root: genesis.beacon_block.state_root,
                ..empty
            });
        assert(call_ensures(E::empty_block, (&before@.spec,), empty));
        assert(call_ensures(
            E::block_root,
            (&genesis.beacon_block,),
            genesis.beacon_block_root,
        ));
        let plan = crate::genesis::genesis_plan(&genesis);
        let failed = choose|failed: int|
            0 <= failed < plan.len() && #[trigger] crate::genesis::performed(
                *store,
                plan[failed],
                Err(text),
            ) && forall|i: int|
                0 <= i < failed ==> #[trigger] crate::genesis::performed(*store, plan[i], Ok(()));
        if failed > 0 {
            assert(crate::genesis::performed(*store, plan[0], Ok(())));
        }
        if failed > 1 {
            assert(crate::genesis::performed(*store, plan[1], Ok(())));
        }
        if failed == 0 {
            let e = choose|e: <S as Store<BeaconState<E>>>::Error| #[trigger]
                crate::store::store_put(
                    *store,
                    genesis.beacon_state_root,
                    genesis.beacon_state,
                    Err(e),
                ) && crate::errors::describes(text@, plan[failed].failure@, e);
            assert(call_ensures(
                <S as Store<BeaconState<E>>>::put,
                (&*store, &genesis.beacon_state_root, &genesis.beacon_state),
                Err(e),
            ));
        } else {
            let e = choose|e: <S as Store<BeaconBlock<E>>>::Error| #[trigger]
                crate::store::store_put(*store, plan[failed].key, genesis.beacon_block, Err(e))
                    && crate::errors::describes(text@, plan[failed].failure@, e);
            assert(call_ensures(
                <S as Store<BeaconBlock<E>>>::put,
                (&*store, &plan[failed].key, &genesis.beacon_block),
                Err(e),
            ));
        }
    }
}

/// `resume_from_db` fails first without a logger, then without a store, each with its own text.
pub proof fn resuming_needs_a_logger_and_a_store<S, C, G, B, E: EthSpec, H, L>(
    before: BeaconChainBuilder<Witness<S, C, G, B, E, H>, L>,
    db_key: &str,
    result: Result<BeaconChainBuilder<Witness<S, C, G, B, E, H>, L>, String>,
) where S: Store<PersistedBeaconChain<E>>
    requires
        before@.log is None || before@.store is None,
        call_ensures(
            BeaconChainBuilder::<Witness<S, C, G, B, E, H>, L>::resume_from_db,
            (before, db_key),
            result,
        ),
    ensures
        result is Err,
        before@.log is None ==> result->Err_0@ == "resume_from_db requires a log"@,
        before@.log is Some ==> result->Err_0@ == "load_from_store requires a store."@,
{
}

/// What `resume_from_db` gives is what one `get` of the key answered: the head and the genesis
/// block root of the chain that came back, and the pool that the preset restores for it. The key
/// is the UTF-8 of the text. That `get` is the one call made on the store; nothing is written, so
/// a store that gives back what was last put holds the same as before.
pub proof fn resuming_only_reads<S, C, G, B, E: EthSpec, H, L>(
    before: BeaconChainBuilder<Witness<S, C, G, B, E, H>, L>,
    db_key: &str,
    after: BeaconChainBuilder<Witness<S, C, G, B, E, H>, L>,
    contents: Contents<E>,
) where S: Store<PersistedBeaconChain<E>>
    requires
        before@.log is Some && before@.store is Some ==> vstd::utf8::encode_utf8(db_key@).len()
            == 32,
        call_ensures(
            BeaconChainBuilder::<Witness<S, C, G, B, E, H>, L>::resume_from_db,
            (before, db_key),
            Ok(after),
        ),
    ensures
        before@.log is Some,
        before@.store is Some,
        exists|key: Hash256, chain: PersistedBeaconChain<E>, pool: E::OperationPool|
            #[trigger] call_ensures(
                <S as Store<PersistedBeaconChain<E>>>::get,
                (&*before@.store->0, &key),
                Ok(Some(chain)),
            ) && #[trigger] call_ensures(
                E::restore_operation_pool,
                (chain.op_pool, &chain.canonical_head.beacon_state, &before@.spec),
                pool,
            ) && key.0@ == vstd::utf8::encode_utf8(db_key@) && after@ == (BuilderView {
                finalized_checkpoint: Some(chain.canonical_head),
                genesis_block_root: Some(chain.genesis_block_root),
                op_pool: Some(pool),
                ..before@
            }) && after.calls().gets == before.calls().gets.push(key),
        after.calls().puts == before.calls().puts,
        contents.after_all(after.calls().puts) == contents.after_all(before.calls().puts),
{
    let (key, chain) = choose|key: Hash256, chain: PersistedBeaconChain<E>|
        key@ == vstd::utf8::encode_utf8(db_key@) && #[trigger] crate::store::store_get::<
            PersistedBeaconChain<E>,
            S,
        >(*before@.store->0, key, Ok(Some(chain))) && crate::builder::chain_resumed(
            before@,
            chain,
            after@,
        ) && after.calls().gets == before.calls().gets.push(key);
    assert(call_ensures(
        <S as Store<PersistedBeaconChain<E>>>::get,
        (&*before@.store->0, &key),
        Ok(Some(chain)),
    ));
    let pool = after@.op_pool->0;
    assert(call_ensures(
        E::restore_operation_pool,
        (chain.op_pool, &chain.canonical_head.beacon_state, &before@.spec),
        pool,
    ));
}

/// If all that the store answers for the key is one chain, `resume_from_db` resumes that chain. If
/// it is that there is none, or an error, `resume_from_db` says so.
pub proof fn resuming_takes_what_the_store_holds<S, C, G, B, E: EthSpec, H, L>(
    before: BeaconChainBuilder<Witness<S, C, G, B, E, H>, L>,
    db_key: &str,
    key: Hash256,
    held: Result<
        Option<PersistedBeaconChain<E>>,
        <S as Store<PersistedBeaconChain<E>>>::Error,
    >,
    result: Result<BeaconChainBuilder<Witness<S, C, G, B, E, H>, L>, String>,
) where S: Store<PersistedBeaconChain<E>>
    requires
        before@.log is Some,
        before@.store is Some,
        key.0@ == vstd::utf8::encode_utf8(db_key@),
        forall|
            answer: Result<
                Option<PersistedBeaconChain<E>>,
                <S as Store<PersistedBeaconChain<E>>>::Error,
            >,
        | #[trigger]
            call_ensures(
                <S as Store<PersistedBeaconChain<E>>>::get,
                (&*before@.store->0, &key),
                answer,
            ) ==> answer == held,
        call_ensures(
            BeaconChainBuilder::<Witness<S, C, G, B, E, H>, L>::resume_from_db,
            (before, db_key),
            result,
        ),
    ensures
        match held {
            Ok(Some(chain)) => {
                &&& result is Ok
                &&& result->Ok_0@.finalized_checkpoint == Some(chain.canonical_head)
                &&& result->Ok_0@.genesis_block_root == Some(chain.genesis_block_root)
                &&& exists|pool: E::OperationPool| #[trigger]
                    call_ensures(
                        E::restore_operation_pool,
                        (chain.op_pool, &chain.canonical_head.beacon_state, &before@.spec),
                        pool,
                    ) && result->Ok_0@.op_pool == Some(pool)
                &&& result->Ok_0.calls().puts == before.calls().puts
                &&& result->Ok_0.calls().gets == before.calls().gets.push(key)
            },
            Ok(None) => result is Err && result->Err_0@
                == "No persisted beacon chain found in store"@,
            Err(error) => result is Err && exists|shown: Seq<char>| #[trigger]
                crate::external::debug_prints(error, shown) && result->Err_0@
                    == "DB error when reading persisted beacon chain: "@ + shown,
        },
{
    assert forall|k: Hash256| k@ == key@ implies k == key by {
        assert forall|i: int| 0 <= i < 32 implies #[trigger] k.0[i] == key.0[i] by {
            assert(k.0@[i] == key.0@[i]);
        }
        assert(k.0 =~= key.0);
    }
}

/// `assemble` puts together a chain from the parts that the builder holds, each in its place,
/// around a lock made from the given head. It fails exactly when a part is missing or the state
/// root in the block of the head is not the root of its state, with the text for the first of
/// these.
pub proof fn assembling_puts_each_part_in_its_place<T: BeaconChainTypes, L>(
    builder: BeaconChainBuilder<T, L>,
    head: CheckPoint<T::EthSpec>,
    result: Result<BeaconChain<T, L>, String>,
)
    requires
        call_ensures(BeaconChainBuilder::<T, L>::assemble, (builder, head), result),
    ensures
        match result {
            Ok(chain) => {
                &&& chain.spec == builder@.spec
                &&& builder@.store == Some(chain.store)
                &&& builder@.slot_clock == Some(chain.slot_clock)
                &&& builder@.op_pool == Some(chain.op_pool)
                &&& builder@.eth1_chain == chain.eth1_chain
                &&& builder@.genesis_block_root == Some(chain.genesis_block_root)
                &&& builder@.fork_choice == Some(chain.fork_choice)
                &&& builder@.event_handler == Some(chain.event_handler)
                &&& builder@.log == Some(chain.log)
                &&& crate::external::lock_made_from(chain.canonical_head, head)
                &&& head.beacon_block.state_root == head.beacon_state_root
            },
            Err(text) => if builder@.log is None {
                text@ == "Cannot build without a logger"@
            } else if head.beacon_block.state_root != head.beacon_state_root {
                text@ == "beacon_block.state_root != beacon_state"@
            } else if builder@.store is None {
                text@ == "Cannot build without store"@
            } else if builder@.slot_clock is None {
                text@ == "Cannot build without slot clock"@
            } else if builder@.op_pool is None {
                text@ == "Cannot build without op pool"@
            } else if builder@.genesis_block_root is None {
                text@ == "Cannot build without a genesis block root"@
            } else if builder@.fork_choice is None {
                text@ == "Cannot build without a fork choice"@
            } else {
                &&& builder@.event_handler is None
                &&& text@ == "Cannot build without an event handler"@
            },
        },
{
}

/// `build` has the preset build the caches of the state of the checkpoint and then assembles the
/// chain around the checkpoint with that state. It fails as assembling does, or without a
/// checkpoint, or where the caches cannot be built.
pub proof fn building_puts_each_part_in_its_place<S, C, G, B, E: EthSpec, H, L>(
    builder: BeaconChainBuilder<Witness<S, C, G, B, E, H>, L>,
    result: Result<BeaconChain<Witness<S, C, G, B, E, H>, L>, String>,
)
    requires
        call_ensures(
            BeaconChainBuilder::<Witness<S, C, G, B, E, H>, L>::build,
            (builder,),
            result,
        ),
    ensures
        match result {
            Ok(chain) => {
                let checkpoint = builder@.finalized_checkpoint->0;
                &&& builder@.finalized_checkpoint is Some
                &&& chain.spec == builder@.spec
                &&& builder@.store == Some(chain.store)
                &&& builder@.slot_clock == Some(chain.slot_clock)
                &&& builder@.op_pool == Some(chain.op_pool)
                &&& builder@.eth1_chain == chain.eth1_chain
                &&& builder@.genesis_block_root == Some(chain.genesis_block_root)
                &&& builder@.fork_choice == Some(chain.fork_choice)
                &&& builder@.event_handler == Some(chain.event_handler)
                &&& builder@.log == Some(chain.log)
                &&& checkpoint.beacon_block.state_root == checkpoint.beacon_state_root
                &&& exists|state: BeaconState<E>| #[trigger]
                    call_ensures(
                        E::build_all_caches,
                        (checkpoint.beacon_state, &builder@.spec),
                        Ok(state),
                    ) && crate::external::lock_made_from(
                        chain.canonical_head,
                        (CheckPoint {
                            beacon_block_root: checkpoint.beacon_block_root,
                            beacon_block: checkpoint.beacon_block,
                            beacon_state_root: checkpoint.beacon_state_root,
                            beacon_state: state,
                        }),
                    )
            },
            Err(text) => match builder@.finalized_checkpoint {
                None => text@ == "Cannot build without a state"@,
                Some(checkpoint) => {
                    ||| exists|error: E::StateError, shown: Seq<char>| #[trigger]
                        call_ensures(
                            E::build_all_caches,
                            (checkpoint.beacon_state, &builder@.spec),
                            Err(error),
                        ) && #[trigger] crate::external::debug_prints(error, shown) && text@
                            == "Failed to build state caches: "@ + shown
                    ||| if builder@.log is None {
                        text@ == "Cannot build without a logger"@
                    } else if checkpoint.beacon_block.state_root != checkpoint.beacon_state_root {
                        text@ == "beacon_block.state_root != beacon_state"@
                    } else if builder@.store is None {
                        text@ == "Cannot build without store"@
                    } else if builder@.slot_clock is None {
                        text@ == "Cannot build without slot clock"@
                    } else if builder@.op_pool is None {
                        text@ == "Cannot build without op pool"@
                    } else if builder@.genesis_block_root is None {
                        text@ == "Cannot build without a genesis block root"@
                    } else if builder@.fork_choice is None {
                        text@ == "Cannot build without a fork choice"@
                    } else {
                        &&& builder@.event_handler is None
                        &&& text@ == "Cannot build without an event handler"@
                    }
                },
            },
        },
{
    if builder@.finalized_checkpoint is Some {
        let checkpoint = builder@.finalized_checkpoint->0;
        let caches = choose|caches: Result<BeaconState<E>, E::StateError>| #[trigger]
            checkpoint.beacon_state.caches_to(builder@.spec, caches) && match caches {
                Err(error) => result is Err && crate::errors::describes(
                    result->Err_0@,
                    "Failed to build state caches: "@,
                    error,
                ),
                Ok(beacon_state) => builder@.assembles(
                    (CheckPoint { beacon_state, ..checkpoint }),
                    result,
                ),
            };
        assert(call_ensures(
            E::build_all_caches,
            (checkpoint.beacon_state, &builder@.spec),
            caches,
        ));
        if caches is Err {
            let error = caches->Err_0;
            assert(call_ensures(
                E::build_all_caches,
                (checkpoint.beacon_state, &builder@.spec),
                Err(error),
            ));
        } else {
            let state = caches->Ok_0;
            assert(call_ensures(
                E::build_all_caches,
                (checkpoint.beacon_state, &builder@.spec),
                Ok(state),
            ));
        }
    }
}

/// `build` succeeds on a complete builder whose checkpoint is consistent, where the preset can only
/// answer that it built the caches.
pub proof fn building_succeeds_if_nothing_is_missing<S, C, G, B, E: EthSpec, H, L>(
    builder: BeaconChainBuilder<Witness<S, C, G, B, E, H>, L>,
    result: Result<BeaconChain<Witness<S, C, G, B, E, H>, L>, String>,
)
    requires
        builder@.finalized_checkpoint is Some,
        builder@.finalized_checkpoint->0.beacon_block.state_root
            == builder@.finalized_checkpoint->0.beacon_state_root,
        builder@.log is Some,
        builder@.store is Some,
        builder@.slot_clock is Some,
        builder@.op_pool is Some,
        builder@.genesis_block_root is Some,
        builder@.fork_choice is Some,
        builder@.event_handler is Some,
        forall|error: E::StateError|
            !#[trigger] call_ensures(
                E::build_all_caches,
                (builder@.finalized_checkpoint->0.beacon_state, &builder@.spec),
                Err(error),
            ),
        call_ensures(
            BeaconChainBuilder::<Witness<S, C, G, B, E, H>, L>::build,
            (builder,),
            result,
        ),
    ensures
        result is Ok,
{
    building_puts_each_part_in_its_place(builder, result);
}

/// A chain that is built right after a part was set has that part.
pub proof fn chain_has_the_part_that_was_set<S, C, G, B, E: EthSpec, H, L>(
    before: BeaconChainBuilder<Witness<S, C, G, B, E, H>, L>,
    spec: E::ChainSpec,
    store: Arc<S>,
    log: L,
    handler: H,
    clock: C,
    backend: B,
    after: BeaconChainBuilder<Witness<S, C, G, B, E, H>, L>,
    chain: BeaconChain<Witness<S, C, G, B, E, H>, L>,
)
    requires
        call_ensures(
            BeaconChainBuilder::<Witness<S, C, G, B, E, H>, L>::build,
            (after,),
            Ok(chain),
        ),
    ensures
        call_ensures(
            BeaconChainBuilder::<Witness<S, C, G, B, E, H>, L>::custom_spec,
            (before, spec),
            after,
        ) ==> chain.spec == spec,
        call_ensures(
            BeaconChainBuilder::<Witness<S, C, G, B, E, H>, L>::store,
            (before, store),
            after,
        ) ==> chain.store == store,
        call_ensures(
            BeaconChainBuilder::<Witness<S, C, G, B, E, H>, L>::logger,
            (before, log),
            after,
        ) ==> chain.log == log,
        call_ensures(
            BeaconChainBuilder::<Witness<S, C, G, B, E, H>, L>::event_handler,
            (before, handler),
            after,
        ) ==> chain.event_handler == handler,
        call_ensures(
            BeaconChainBuilder::<Witness<S, C, G, B, E, H>, L>::slot_clock,
            (before, clock),
            after,
        ) ==> chain.slot_clock == clock,
        call_ensures(
            BeaconChainBuilder::<Witness<S, C, G, B, E, H>, L>::eth1_backend,
            (before, Some(backend)),
            after,
        ) ==> chain.eth1_chain is Some && chain.eth1_chain->0.backend == backend
            && !chain.eth1_chain->0.use_dummy_backend,
        call_ensures(
            BeaconChainBuilder::<Witness<S, C, G, B, E, H>, L>::eth1_backend,
            (before, None),
            after,
        ) ==> chain.eth1_chain is None,
{
    building_puts_each_part_in_its_place(after, Ok(chain));
}

/// `log` and `finalized_checkpoint` show what the builder holds.
pub proof fn builder_shows_its_parts<T: BeaconChainTypes, L>(
    builder: BeaconChainBuilder<T, L>,
    log: Option<&L>,
    checkpoint: &Option<CheckPoint<T::EthSpec>>,
)
    ensures
        call_ensures(BeaconChainBuilder::<T, L>::log, (&builder,), log) ==> {
            &&& log is Some <==> builder@.log is Some
            &&& log is Some ==> *log->0 == builder@.log->0
        },
        call_ensures(
            BeaconChainBuilder::<T, L>::finalized_checkpoint,
            (&builder,),
            checkpoint,
        ) ==> *checkpoint == builder@.finalized_checkpoint,
{
}

/// The methods of states and blocks return what the preset does for the same arguments.
pub proof fn states_and_blocks_ask_the_preset<E: EthSpec>(
    state: BeaconState<E>,
    block: BeaconBlock<E>,
    spec: E::ChainSpec,
    root: Hash256,
    caches: Result<BeaconState<E>, E::StateError>,
)
    ensures
        call_ensures(BeaconState::<E>::canonical_root, (&state,), root) ==> call_ensures(
            E::state_root,
            (&state,),
            root,
        ),
        call_ensures(BeaconState::<E>::build_all_caches, (state, &spec), caches) ==> call_ensures(
            E::build_all_caches,
            (state, &spec),
            caches,
        ),
        call_ensures(BeaconBlock::<E>::canonical_root, (&block,), root) ==> call_ensures(
            E::block_root,
            (&block,),
            root,
        ),
        call_ensures(BeaconBlock::<E>::empty, (&spec,), block) ==> call_ensures(
            E::empty_block,
            (&spec,),
            block,
        ),
{
}

/// `from_read` passes on the chain that was read, or says that there is none, or why reading
/// failed.
pub proof fn chain_is_the_one_that_was_read<E: EthSpec, X: Debug>(
    read: Result<Option<PersistedBeaconChain<E>>, X>,
    result: Result<PersistedBeaconChain<E>, String>,
)
    requires
        call_ensures(PersistedBeaconChain::<E>::from_read::<X>, (read,), result),
    ensures
        match read {
            Ok(Some(chain)) => result is Ok && result->Ok_0 == chain,
            Ok(None) => result is Err && result->Err_0@
                == "No persisted beacon chain found in store"@,
            Err(error) => result is Err && exists|shown: Seq<char>| #[trigger]
                crate::external::debug_prints(error, shown) && result->Err_0@
                    == "DB error when reading persisted beacon chain: "@ + shown,
        },
{
}

/// After a write that failed, `after_write` stops with a text made of the given start and what
/// `{:?}` prints for the error. After one that succeeded it goes on to the next index, or is done
/// where there is none.
pub proof fn writing_goes_on_until_a_write_fails<X: Debug>(
    index: usize,
    count: usize,
    failure: &str,
    answer: Result<(), X>,
    step: WriteStep,
)
    requires
        index < count,
        call_ensures(
            crate::genesis::after_write::<X>,
            (index, count, failure, answer),
            step,
        ),
    ensures
        match answer {
            Err(error) => step is Stop && exists|shown: Seq<char>| #[trigger]
                crate::external::debug_prints(error, shown) && step->Stop_0@ == failure@ + shown,
            Ok(_) => if index + 1 < count {
                step == WriteStep::Next((index + 1) as usize)
            } else {
                step == WriteStep::Done
            },
        },
{
}

/// `genesis_writes` lists three writes: the state under its root, the block under its root, and the
/// block under the hash of 32 zero bytes, each with the start of its own error text.
pub proof fn genesis_is_three_writes<'a, E: EthSpec>(
    genesis: &'a CheckPoint<E>,
    writes: Vec<GenesisWrite<'a, E>>,
    zero: Hash256,
)
    requires
        call_ensures(crate::genesis::genesis_writes::<E>, (genesis,), writes),
        forall|i: int| 0 <= i < 32 ==> #[trigger] zero.0[i] == 0u8,
    ensures
        writes@.len() == 3,
        writes@[0].key == genesis.beacon_state_root,
        writes@[0].item == GenesisItem::State(&genesis.beacon_state),
        writes@[0].failure@ == "Failed to store genesis state: "@,
        writes@[1].key == genesis.beacon_block_root,
        writes@[1].item == GenesisItem::Block(&genesis.beacon_block),
        writes@[1].failure@ == "Failed to store genesis block: "@,
        writes@[2].key == zero,
        writes@[2].item == GenesisItem::Block(&genesis.beacon_block),
        writes@[2].failure@ == "Failed to store genesis block under 0x00..00 alias: "@,
{
    crate::effects::genesis_plan_one_by_one(genesis, zero);
}

/// A fork choice, an eth1 chain and a slot are made of what they are given.
pub proof fn parts_are_made_of_what_is_given<T: BeaconChainTypes>(
    store: Arc<T::Store>,
    tree: T::LmdGhost,
    root: Hash256,
    fork_choice: ForkChoice<T>,
    backend: T::Eth1Chain,
    eth1_chain: Eth1Chain<T>,
    number: u64,
    slot: Slot,
)
    ensures
        call_ensures(ForkChoice::<T>::new, (store, tree, root), fork_choice) ==> {
            &&& fork_choice.store == store
            &&& fork_choice.backend == tree
            &&& fork_choice.genesis_block_root == root
        },
        call_ensures(Eth1Chain::<T>::new, (backend,), eth1_chain) ==> {
            &&& eth1_chain.backend == backend
            &&& !eth1_chain.use_dummy_backend
        },
        call_ensures(Slot::new, (number,), slot) ==> slot.0 == number,
{
}

/// `zero` has 32 zero bytes, `from_slice` has the bytes of the slice, each in its place, and
/// `to_hex` is `0x` and two digits for each byte, the high one first.
pub proof fn hashes_byte_by_byte(bytes: &[u8], hash: Hash256, text: String, i: int)
    requires
        0 <= i < 32,
    ensures
        call_ensures(Hash256::zero, (), hash) ==> hash.0[i] == 0u8,
        call_ensures(Hash256::from_slice, (bytes,), hash) && bytes@.len() == 32 ==> hash.0[i]
            == bytes@[i],
        call_ensures(Hash256::to_hex, (&hash,), text) ==> {
            &&& text@.len() == 66
            &&& text@[0] == '0'
            &&& text@[1] == 'x'
            &&& text@[2 + 2 * i] == "0123456789abcdef"@[hash.0[i] as int / 16]
            &&& text@[3 + 2 * i] == "0123456789abcdef"@[hash.0[i] as int % 16]
        },
{
    reveal_strlit("0x");
    crate::effects::hexadecimal_shows_each_byte(hash, i);
    assert(hash.0[i] == hash.0@[i]);
}

} // verus!
