//! The hold of a builder on its store.

use crate::external::share;
use crate::genesis::GenesisPass;
use crate::hash256::Hash256;
use crate::store::{Put, Source, Store, StoredItem, Writer};
use crate::types::{BeaconBlock, BeaconState, EthSpec};
use std::sync::Arc;
use vstd::prelude::*;

verus! {

/// A store, with a record of the calls made on it through this handle.
///
/// The store itself is out of reach for all but the builder's own module. So what starts and
/// resumes chains makes the calls that the record shows, and no others.
pub struct StoreHandle<E: EthSpec, S> {
    store: Arc<S>,
    puts: Ghost<Seq<Put<E>>>,
    gets: Ghost<Seq<Hash256>>,
}

impl<E: EthSpec, S> StoreHandle<E, S> {
    /// The store.
    pub closed spec fn pointer(self) -> Arc<S> {
        self.store
    }

    /// The writes made through the handle, the earliest first.
    pub closed spec fn writes(self) -> Seq<Put<E>> {
        self.puts@
    }

    /// The keys read through the handle, the earliest first.
    pub closed spec fn reads(self) -> Seq<Hash256> {
        self.gets@
    }

    /// The store and the record are those in the fields.
    proof fn lemma_fields(self)
        ensures
            self.pointer() == self.store,
            self.writes() == self.puts@,
            self.reads() == self.gets@,
    {
    }

    /// A handle on `store` through which no call has been made.
    pub(super) fn new(store: Arc<S>) -> (handle: Self)
        ensures
            handle.pointer() == store,
            handle.writes() == Seq::<Put<E>>::empty(),
            handle.reads() == Seq::<Hash256>::empty(),
    {
        StoreHandle { store, puts: Ghost(Seq::empty()), gets: Ghost(Seq::empty()) }
    }

    /// Another pointer to the store.
    pub(super) fn pointer_to_store(&self) -> (store: Arc<S>)
        ensures
            store == self.pointer(),
    {
        share(&self.store)
    }

    /// The store, without the handle.
    pub(super) fn into_store(self) -> (store: Arc<S>)
        ensures
            store == self.pointer(),
    {
        self.store
    }

    /// The item under `key`, if there is one.
    pub fn read<I>(&mut self, key: &Hash256) -> (result: Result<
        Option<I>,
        <S as Source<I>>::Error,
    >) where S: Source<I>
        ensures
            old(self).pointer().answers(*key, result),
            final(self).pointer() == old(self).pointer(),
            final(self).writes() == old(self).writes(),
            final(self).reads() == old(self).reads().push(*key),
    {
        let result = Source::<I>::read(&*self.store, key);
        self.gets = Ghost(self.gets@.push(*key));
        result
    }
}

impl<E: EthSpec, S: Store<BeaconState<E>> + Store<BeaconBlock<E>>> Writer<E, S> for StoreHandle<
    E,
    S,
> {
    open spec fn target(&self) -> S {
        *self.pointer()
    }

    open spec fn puts(&self) -> Seq<Put<E>> {
        self.writes()
    }

    open spec fn gets(&self) -> Seq<Hash256> {
        self.reads()
    }

    fn put_state(&mut self, pass: &GenesisPass, key: &Hash256, state: &BeaconState<E>) -> (answer:
        Result<
        (),
        <S as Store<BeaconState<E>>>::Error,
    >) {
        let answer = self.store.put(key, state);
        self.puts = Ghost(
            self.puts@.push(
                Put { key: *key, item: StoredItem::State(*state), succeeded: answer is Ok },
            ),
        );
        answer
    }

    fn put_block(&mut self, pass: &GenesisPass, key: &Hash256, block: &BeaconBlock<E>) -> (answer:
        Result<
        (),
        <S as Store<BeaconBlock<E>>>::Error,
    >) {
        let answer = self.store.put(key, block);
        self.puts = Ghost(
            self.puts@.push(
                Put { key: *key, item: StoredItem::Block(*block), succeeded: answer is Ok },
            ),
        );
        answer
    }
}

} // verus!
