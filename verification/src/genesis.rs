//! The genesis of a chain, and what starting a chain writes to the store.

use crate::errors::describe;
use crate::hash256::Hash256;
use crate::store::{Put, Recorder, Store, StoredItem, Writer};
use crate::types::{BeaconBlock, BeaconState, CheckPoint, EthSpec};
use core::fmt::Debug;
use vstd::prelude::*;

verus! {

/// The right to write to a store through a `Writer`. Only this module can make one.
pub struct GenesisPass(());

/// An item that starting a chain writes.
pub enum GenesisItem<'a, E: EthSpec> {
    State(&'a BeaconState<E>),
    Block(&'a BeaconBlock<E>),
}

/// A write that starting a chain makes, with the start of the error text if it fails.
pub struct GenesisWrite<'a, E: EthSpec> {
    pub key: Hash256,
    pub item: GenesisItem<'a, E>,
    pub failure: &'static str,
}

/// The writes that starting a chain from `genesis` makes, in order: the state under its root,
/// the block under its root, and the block under the zero hash.
pub open spec fn genesis_plan<'a, E: EthSpec>(genesis: &'a CheckPoint<E>) -> Seq<
    GenesisWrite<'a, E>,
> {
    seq![
        GenesisWrite {
            key: genesis.beacon_state_root,
            item: GenesisItem::State(&genesis.beacon_state),
            failure: "Failed to store genesis state: ",
        },
        GenesisWrite {
            key: genesis.beacon_block_root,
            item: GenesisItem::Block(&genesis.beacon_block),
            failure: "Failed to store genesis block: ",
        },
        GenesisWrite {
            key: Hash256::spec_zero(),
            item: GenesisItem::Block(&genesis.beacon_block),
            failure: "Failed to store genesis block under 0x00..00 alias: ",
        },
    ]
}

/// The writes that starting a chain from `genesis` makes, in order.
pub fn genesis_writes<'a, E: EthSpec>(genesis: &'a CheckPoint<E>) -> (writes: Vec<
    GenesisWrite<'a, E>,
>)
    ensures
        writes@ == genesis_plan(genesis),
{
    let mut writes: Vec<GenesisWrite<'a, E>> = Vec::new();
    writes.push(
        GenesisWrite {
            key: genesis.beacon_state_root,
            item: GenesisItem::State(&genesis.beacon_state),
            failure: "Failed to store genesis state: ",
        },
    );
    writes.push(
        GenesisWrite {
            key: genesis.beacon_block_root,
            item: GenesisItem::Block(&genesis.beacon_block),
            failure: "Failed to store genesis block: ",
        },
    );
    // The genesis block is also found under the zero hash.
    writes.push(
        GenesisWrite {
            key: Hash256::zero(),
            item: GenesisItem::Block(&genesis.beacon_block),
            failure: "Failed to store genesis block under 0x00..00 alias: ",
        },
    );
    writes
}

/// The record of `write`.
pub open spec fn put_of<E: EthSpec>(write: GenesisWrite<'_, E>, succeeded: bool) -> Put<E> {
    Put {
        key: write.key,
        item: match write.item {
            GenesisItem::State(state) => StoredItem::State(*state),
            GenesisItem::Block(block) => StoredItem::Block(*block),
        },
        succeeded,
    }
}

/// The record of the first `count` of `writes`, made once each and in order, all of which
/// succeeded but perhaps the last.
pub open spec fn puts_of<E: EthSpec>(
    writes: Seq<GenesisWrite<'_, E>>,
    count: nat,
    last_succeeded: bool,
) -> Seq<Put<E>> {
    Seq::new(count, |i: int| put_of(writes[i], i + 1 < count || last_succeeded))
}

/// `store` was asked to keep `item` under `key`. If `result` is a success, it answered that it did;
/// if it is an error, it starts with `failure` and describes the error that came back.
pub open spec fn kept<I, S: Store<I>>(
    store: S,
    key: Hash256,
    item: I,
    failure: Seq<char>,
    result: Result<(), String>,
) -> bool {
    match result {
        Ok(_) => crate::store::store_put(store, key, item, Ok(())),
        Err(text) => exists|error: S::Error| #[trigger]
            crate::store::store_put(store, key, item, Err(error)) && crate::errors::describes(
                text@,
                failure,
                error,
            ),
    }
}

/// `write` was made to `store`, and `result` passes on the answer.
pub open spec fn performed<E: EthSpec, S: Store<BeaconState<E>> + Store<BeaconBlock<E>>>(
    store: S,
    write: GenesisWrite<'_, E>,
    result: Result<(), String>,
) -> bool {
    match write.item {
        GenesisItem::State(state) => kept(store, write.key, *state, write.failure@, result),
        GenesisItem::Block(block) => kept(store, write.key, *block, write.failure@, result),
    }
}

/// Either all of `writes` were made to `store` and succeeded, or those before one of them did and
/// that one failed: `result` passes on which, and the failure.
pub open spec fn performed_in_order<E: EthSpec, S: Store<BeaconState<E>> + Store<BeaconBlock<E>>>(
    store: S,
    writes: Seq<GenesisWrite<'_, E>>,
    result: Result<(), String>,
) -> bool {
    match result {
        Ok(_) => forall|i: int|
            0 <= i < writes.len() ==> #[trigger] performed(store, writes[i], Ok(())),
        Err(_) => exists|failed: int|
            0 <= failed < writes.len() && #[trigger] performed(store, writes[failed], result)
                && forall|i: int|
                0 <= i < failed ==> #[trigger] performed(store, writes[i], Ok(())),
    }
}

/// As `performed_in_order`, and `puts` is the record: the writes were made once each and in order,
/// up to the one that failed, or all of them.
pub open spec fn performed_exactly<E: EthSpec, S: Store<BeaconState<E>> + Store<BeaconBlock<E>>>(
    store: S,
    writes: Seq<GenesisWrite<'_, E>>,
    puts: Seq<Put<E>>,
    result: Result<(), String>,
) -> bool {
    match result {
        Ok(_) => {
            &&& puts == puts_of(writes, writes.len(), true)
            &&& forall|i: int|
                0 <= i < writes.len() ==> #[trigger] performed(store, writes[i], Ok(()))
        },
        Err(_) => exists|failed: int|
            {
                &&& 0 <= failed < writes.len()
                &&& puts == puts_of(writes, (failed + 1) as nat, false)
                &&& #[trigger] performed(store, writes[failed], result)
                &&& forall|i: int|
                    0 <= i < failed ==> #[trigger] performed(store, writes[i], Ok(()))
            },
    }
}

/// What to do after a write.
pub enum WriteStep {
    /// Make the write at this index.
    Next(usize),
    /// All writes have been made.
    Done,
    /// A write failed: make no other, and give this text as the error.
    Stop(String),
}

impl WriteStep {
    /// How the write came out that the step is taken after.
    pub open spec fn outcome(self) -> Result<(), String> {
        match self {
            WriteStep::Stop(text) => Err(text),
            _ => Ok(()),
        }
    }

    /// The step after the write at `index` of `count` when that write succeeded.
    pub open spec fn forward(index: usize, count: usize) -> Self {
        if index + 1 < count {
            WriteStep::Next((index + 1) as usize)
        } else {
            WriteStep::Done
        }
    }
}

/// What to do after the write at `index` of `count` was answered with `answer`: go on to the next
/// one, unless there is none or the write failed.
pub fn after_write<X: Debug>(
    index: usize,
    count: usize,
    failure: &str,
    answer: Result<(), X>,
) -> (step: WriteStep)
    requires
        index < count,
    ensures
        match answer {
            Err(error) => step is Stop && crate::errors::describes(
                step->Stop_0@,
                failure@,
                error,
            ),
            Ok(_) => step == WriteStep::forward(index, count),
        },
{
    match answer {
        Err(error) => WriteStep::Stop(describe(failure, &error)),
        Ok(_) => {
            if index + 1 < count {
                WriteStep::Next(index + 1)
            } else {
                WriteStep::Done
            }
        },
    }
}

/// Makes the write at `index` of `writes`.
fn perform<
    E: EthSpec,
    S: Store<BeaconState<E>> + Store<BeaconBlock<E>>,
    W: Writer<E, S>,
>(
    recorder: &mut W,
    writes: &Vec<GenesisWrite<'_, E>>,
    index: usize,
) -> (step: WriteStep)
    requires
        index < writes@.len(),
    ensures
        performed(old(recorder).target(), writes@[index as int], step.outcome()),
        step is Stop || step == WriteStep::forward(index, writes.len()),
        final(recorder).target() == old(recorder).target(),
        final(recorder).gets() == old(recorder).gets(),
        final(recorder).puts() == old(recorder).puts().push(
            put_of(writes@[index as int], step.outcome() is Ok),
        ),
{
    let write = &writes[index];
    let ghost store = recorder.target();
    match write.item {
        GenesisItem::State(state) => {
            let answer = recorder.put_state(&GenesisPass(()), &write.key, state);
            proof {
                if answer is Ok {
                    let unit: () = answer->Ok_0;
                    assert(unit == ());
                } else {
                    assert(crate::store::store_put(store, write.key, *state, Err(answer->Err_0)));
                }
            }
            after_write(index, writes.len(), write.failure, answer)
        },
        GenesisItem::Block(block) => {
            let answer = recorder.put_block(&GenesisPass(()), &write.key, block);
            proof {
                if answer is Ok {
                    let unit: () = answer->Ok_0;
                    assert(unit == ());
                } else {
                    assert(crate::store::store_put(store, write.key, *block, Err(answer->Err_0)));
                }
            }
            after_write(index, writes.len(), write.failure, answer)
        },
    }
}

/// Makes `writes` in order, as `after_write` decides, so that the first that fails is the last.
fn make_in_order<
    E: EthSpec,
    S: Store<BeaconState<E>> + Store<BeaconBlock<E>>,
    W: Writer<E, S>,
>(
    recorder: &mut W,
    writes: &Vec<GenesisWrite<'_, E>>,
) -> (result: Result<(), String>)
    ensures
        final(recorder).target() == old(recorder).target(),
        final(recorder).gets() == old(recorder).gets(),
        old(recorder).puts().is_prefix_of(final(recorder).puts()),
        performed_exactly(
            old(recorder).target(),
            writes@,
            final(recorder).puts().skip(old(recorder).puts().len() as int),
            result,
        ),
{
    let ghost store = recorder.target();
    let ghost before = recorder.puts();
    if writes.len() == 0 {
        assert(before.skip(before.len() as int) =~= puts_of(writes@, 0, true));
        return Ok(());
    }
    let mut i: usize = 0;
    loop
        invariant
            0 <= i < writes@.len(),
            recorder.target() == store,
            recorder.gets() == old(recorder).gets(),
            recorder.puts() == before + puts_of(writes@, i as nat, true),
            store == old(recorder).target(),
            before == old(recorder).puts(),
            forall|j: int| 0 <= j < i ==> #[trigger] performed(store, writes@[j], Ok(())),
        decreases writes@.len() - i,
    {
        let step = perform(recorder, writes, i);
        assert(recorder.puts() =~= before + puts_of(writes@, (i + 1) as nat, step !is Stop));
        assert(recorder.puts().skip(before.len() as int) =~= puts_of(
            writes@,
            (i + 1) as nat,
            step !is Stop,
        ));
        match step {
            WriteStep::Next(next) => {
                i = next;
            },
            WriteStep::Done => {
                return Ok(());
            },
            WriteStep::Stop(text) => {
                assert(performed(store, writes@[i as int], Err(text)));
                return Err(text);
            },
        }
    }
}

/// Makes `writes` in order, as `after_write` decides, so that the first that fails is the last.
pub fn perform_in_order<E: EthSpec, S: Store<BeaconState<E>> + Store<BeaconBlock<E>>>(
    recorder: &mut Recorder<'_, E, S>,
    writes: &Vec<GenesisWrite<'_, E>>,
) -> (result: Result<(), String>)
    ensures
        final(recorder).target() == old(recorder).target(),
        old(recorder).puts().is_prefix_of(final(recorder).puts()),
        performed_exactly(
            old(recorder).target(),
            writes@,
            final(recorder).puts().skip(old(recorder).puts().len() as int),
            result,
        ),
{
    make_in_order(recorder, writes)
}

/// The empty block that commits to `genesis_state`.
fn genesis_block<T: EthSpec>(genesis_state: &BeaconState<T>, spec: &T::ChainSpec) -> (block:
    BeaconBlock<T>)
    ensures
        block.is_genesis_block(*genesis_state, *spec),
{
    let mut block = BeaconBlock::empty(spec);
    block.state_root = genesis_state.canonical_root();
    block
}

/// The calls that starting a chain makes on the store, when they succeed: the state is put under
/// its root, then the block under its root, then the block under the zero hash.
pub open spec fn genesis_puts<E: EthSpec>(genesis: CheckPoint<E>) -> Seq<Put<E>> {
    seq![
        Put {
            key: genesis.beacon_state_root,
            item: StoredItem::State(genesis.beacon_state),
            succeeded: true,
        },
        Put {
            key: genesis.beacon_block_root,
            item: StoredItem::Block(genesis.beacon_block),
            succeeded: true,
        },
        Put {
            key: Hash256::spec_zero(),
            item: StoredItem::Block(genesis.beacon_block),
            succeeded: true,
        },
    ]
}

/// Makes the genesis checkpoint of a chain that starts from `beacon_state`, and writes it.
///
/// The store is reached through `recorder` alone, so its record shows every call made on it.
pub fn write_genesis<
    E: EthSpec,
    S: Store<BeaconState<E>> + Store<BeaconBlock<E>>,
    W: Writer<E, S>,
>(
    recorder: &mut W,
    beacon_state: BeaconState<E>,
    spec: &E::ChainSpec,
) -> (result: Result<CheckPoint<E>, String>)
    ensures
        final(recorder).target() == old(recorder).target(),
        final(recorder).gets() == old(recorder).gets(),
        old(recorder).puts().is_prefix_of(final(recorder).puts()),
        ({
            let store = old(recorder).target();
            let puts = final(recorder).puts().skip(old(recorder).puts().len() as int);
            match result {
                Ok(genesis) => {
                    &&& genesis.is_genesis_of(beacon_state, *spec)
                    &&& puts == genesis_puts(genesis)
                    &&& performed_exactly(store, genesis_plan(&genesis), puts, Ok(()))
                },
                Err(text) => {
                    ||| puts.len() == 0 && exists|error: E::StateError| #[trigger]
                        beacon_state.caches_to(*spec, Err(error)) && crate::errors::describes(
                            text@,
                            "Failed to build genesis state caches: "@,
                            error,
                        )
                    ||| exists|genesis: CheckPoint<E>| #[trigger]
                        genesis.is_genesis_of(beacon_state, *spec) && performed_exactly(
                            store,
                            genesis_plan(&genesis),
                            puts,
                            Err(text),
                        )
                },
            }
        }),
{
    let ghost given = beacon_state;
    let mut beacon_block = genesis_block(&beacon_state, spec);
    let beacon_state = match beacon_state.build_all_caches(spec) {
        Ok(beacon_state) => beacon_state,
        Err(error) => return Err(describe("Failed to build genesis state caches: ", &error)),
    };
    let beacon_state_root = beacon_state.canonical_root();
    beacon_block.state_root = beacon_state_root;
    let beacon_block_root = beacon_block.canonical_root();
    let genesis = CheckPoint { beacon_block_root, beacon_block, beacon_state_root, beacon_state };
    assert(genesis.is_genesis_of(given, *spec));
    let writes = genesis_writes(&genesis);
    match make_in_order(recorder, &writes) {
        Ok(_) => {},
        Err(text) => return Err(text),
    }
    assert(puts_of(genesis_plan(&genesis), 3, true) =~= genesis_puts(genesis));
    Ok(genesis)
}

} // verus!
