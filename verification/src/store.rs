//! The database under a chain.

use crate::genesis::GenesisPass;
use crate::hash256::Hash256;
use crate::types::{BeaconBlock, BeaconState, EthSpec};
use core::fmt::Debug;
use vstd::prelude::*;

verus! {

/// A database that keeps items of type `I` under hashes.
///
/// The methods carry no contract: a database may fail at any time.
pub trait Store<I> {
    type Error: Debug;

    /// The item under `key`, if there is one.
    fn get(&self, key: &Hash256) -> Result<Option<I>, Self::Error>;

    /// Keeps `item` under `key`.
    fn put(&self, key: &Hash256, item: &I) -> Result<(), Self::Error>;
}

/// `store` answered a read of `key` with `result`.
pub open spec fn store_get<I, S: Store<I>>(
    store: S,
    key: Hash256,
    result: Result<Option<I>, S::Error>,
) -> bool {
    call_ensures(<S as Store<I>>::get, (&store, &key), result)
}

/// `store` answered a write of `item` under `key` with `result`.
pub open spec fn store_put<I, S: Store<I>>(
    store: S,
    key: Hash256,
    item: I,
    result: Result<(), S::Error>,
) -> bool {
    call_ensures(<S as Store<I>>::put, (&store, &key, &item), result)
}

/// What can be read from a database that keeps items of type `I`. Nothing can be written this way.
pub trait Source<I> {
    type Error: Debug;

    /// A read of `key` was answered with `result`.
    spec fn answers(&self, key: Hash256, result: Result<Option<I>, Self::Error>) -> bool;

    /// The item under `key`, if there is one.
    fn read(&self, key: &Hash256) -> (result: Result<Option<I>, Self::Error>)
        ensures
            self.answers(*key, result),
    ;
}

impl<I, S: Store<I>> Source<I> for S {
    type Error = <S as Store<I>>::Error;

    open spec fn answers(&self, key: Hash256, result: Result<Option<I>, Self::Error>) -> bool {
        store_get::<I, S>(*self, key, result)
    }

    fn read(&self, key: &Hash256) -> (result: Result<Option<I>, Self::Error>) {
        self.get(key)
    }
}

/// A state or a block in a database.
pub enum StoredItem<E: EthSpec> {
    State(BeaconState<E>),
    Block(BeaconBlock<E>),
}

/// A write to a database, and whether it succeeded.
pub struct Put<E: EthSpec> {
    pub key: Hash256,
    pub item: StoredItem<E>,
    pub succeeded: bool,
}

/// What a database holds: the states, and the blocks, each kind read by its own type.
pub struct Contents<E: EthSpec> {
    pub states: Map<Hash256, BeaconState<E>>,
    pub blocks: Map<Hash256, BeaconBlock<E>>,
}

impl<E: EthSpec> Contents<E> {
    /// What a database that gives back what was last put under a key holds after `put`.
    pub open spec fn after(self, put: Put<E>) -> Self {
        if !put.succeeded {
            self
        } else {
            match put.item {
                StoredItem::State(state) => Contents {
                    states: self.states.insert(put.key, state),
                    ..self
                },
                StoredItem::Block(block) => Contents {
                    blocks: self.blocks.insert(put.key, block),
                    ..self
                },
            }
        }
    }

    /// What a database that gives back what was last put under a key holds after `puts`.
    pub open spec fn after_all(self, puts: Seq<Put<E>>) -> Self
        decreases puts.len(),
    {
        if puts.len() == 0 {
            self
        } else {
            self.after_all(puts.drop_last()).after(puts.last())
        }
    }
}

/// What writes states and blocks to a database of type `S`, and keeps a record. Only the module
/// that makes the genesis of a chain can write this way: no other has a `GenesisPass`.
pub trait Writer<E: EthSpec, S: Store<BeaconState<E>> + Store<BeaconBlock<E>>> {
    /// The database.
    spec fn target(&self) -> S;

    /// The writes made so far, the earliest first.
    spec fn puts(&self) -> Seq<Put<E>>;

    /// The keys read so far, the earliest first.
    spec fn gets(&self) -> Seq<Hash256>;

    /// Puts `state` under `key`.
    fn put_state(&mut self, pass: &GenesisPass, key: &Hash256, state: &BeaconState<E>) -> (answer:
        Result<
        (),
        <S as Store<BeaconState<E>>>::Error,
    >)
        ensures
            store_put(old(self).target(), *key, *state, answer),
            final(self).target() == old(self).target(),
            final(self).gets() == old(self).gets(),
            final(self).puts() == old(self).puts().push(
                (Put { key: *key, item: StoredItem::State(*state), succeeded: answer is Ok }),
            ),
    ;

    /// Puts `block` under `key`.
    fn put_block(&mut self, pass: &GenesisPass, key: &Hash256, block: &BeaconBlock<E>) -> (answer:
        Result<
        (),
        <S as Store<BeaconBlock<E>>>::Error,
    >)
        ensures
            store_put(old(self).target(), *key, *block, answer),
            final(self).target() == old(self).target(),
            final(self).gets() == old(self).gets(),
            final(self).puts() == old(self).puts().push(
                (Put { key: *key, item: StoredItem::Block(*block), succeeded: answer is Ok }),
            ),
    ;
}

/// A way to write to a database, and to do nothing else with it, that keeps a record.
///
/// The reference to the database does not leave this module. So whoever is given a `Recorder` and
/// not the database itself makes the calls that `puts` shows, in that order, and no others.
pub struct Recorder<'a, E: EthSpec, S> {
    store: &'a S,
    puts: Ghost<Seq<Put<E>>>,
}

impl<'a, E: EthSpec, S: Store<BeaconState<E>> + Store<BeaconBlock<E>>> Recorder<'a, E, S> {
    /// The database.
    pub closed spec fn target(self) -> S {
        *self.store
    }

    /// The writes made so far, the earliest first.
    pub closed spec fn puts(self) -> Seq<Put<E>> {
        self.puts@
    }

    /// The database and the record are those in the fields.
    proof fn lemma_fields(self)
        ensures
            self.target() == *self.store,
            self.puts() == self.puts@,
    {
    }

    /// A recorder that writes to `store`.
    pub fn new(store: &'a S) -> (recorder: Self)
        ensures
            recorder.target() == *store,
            recorder.puts() == Seq::<Put<E>>::empty(),
    {
        Recorder { store, puts: Ghost(Seq::empty()) }
    }

    /// Puts `state` under `key`.
    pub fn put_state(&mut self, key: &Hash256, state: &BeaconState<E>) -> (answer: Result<
        (),
        <S as Store<BeaconState<E>>>::Error,
    >)
        ensures
            store_put(old(self).target(), *key, *state, answer),
            final(self).target() == old(self).target(),
            final(self).puts() == old(self).puts().push(
                (Put { key: *key, item: StoredItem::State(*state), succeeded: answer is Ok }),
            ),
    {
        let answer = self.store.put(key, state);
        self.puts = Ghost(
            self.puts@.push(
                Put { key: *key, item: StoredItem::State(*state), succeeded: answer is Ok },
            ),
        );
        answer
    }

    /// Puts `block` under `key`.
    pub fn put_block(&mut self, key: &Hash256, block: &BeaconBlock<E>) -> (answer: Result<
        (),
        <S as Store<BeaconBlock<E>>>::Error,
    >)
        ensures
            store_put(old(self).target(), *key, *block, answer),
            final(self).target() == old(self).target(),
            final(self).puts() == old(self).puts().push(
                (Put { key: *key, item: StoredItem::Block(*block), succeeded: answer is Ok }),
            ),
    {
        let answer = self.store.put(key, block);
        self.puts = Ghost(
            self.puts@.push(
                Put { key: *key, item: StoredItem::Block(*block), succeeded: answer is Ok },
            ),
        );
        answer
    }
}

impl<'a, E: EthSpec, S: Store<BeaconState<E>> + Store<BeaconBlock<E>>> Writer<E, S> for Recorder<
    'a,
    E,
    S,
> {
    open spec fn target(&self) -> S {
        Recorder::target(*self)
    }

    open spec fn puts(&self) -> Seq<Put<E>> {
        Recorder::puts(*self)
    }

    open spec fn gets(&self) -> Seq<Hash256> {
        Seq::empty()
    }

    fn put_state(&mut self, pass: &GenesisPass, key: &Hash256, state: &BeaconState<E>) -> (answer:
        Result<
        (),
        <S as Store<BeaconState<E>>>::Error,
    >) {
        Recorder::put_state(self, key, state)
    }

    fn put_block(&mut self, pass: &GenesisPass, key: &Hash256, block: &BeaconBlock<E>) -> (answer:
        Result<
        (),
        <S as Store<BeaconBlock<E>>>::Error,
    >) {
        Recorder::put_block(self, key, block)
    }
}

} // verus!
