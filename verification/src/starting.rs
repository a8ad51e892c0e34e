//! How a builder comes by a chain: by resuming one, or by starting one from a genesis state.

use crate::builder::BeaconChainBuilder;
use crate::components::Witness;
use crate::genesis::write_genesis;
use crate::hash256::Hash256;
use crate::store::{Source, Store};
use crate::types::{BeaconBlock, BeaconState, CheckPoint, EthSpec, PersistedBeaconChain};
use vstd::prelude::*;

verus! {

impl<TStore, TSlotClock, TLmdGhost, TEth1Backend, TEthSpec, TEventHandler, L> BeaconChainBuilder<
    Witness<TStore, TSlotClock, TLmdGhost, TEth1Backend, TEthSpec, TEventHandler>,
    L,
> where TEthSpec: EthSpec, TStore: Source<PersistedBeaconChain<TEthSpec>> {
    /// Resumes the chain that was persisted to the store under the 32 bytes of `db_key`.
    ///
    /// Requires the logger and the store to have been specified earlier in the build chain.
    pub fn resume_from_db(self, db_key: &str) -> (result: Result<Self, String>)
        requires
            self@.log is Some && self@.store is Some ==> vstd::utf8::encode_utf8(db_key@).len()
                == 32,
        ensures
            match (self@.log, self@.store) {
                (None, _) => result is Err && result->Err_0@ == "resume_from_db requires a log"@,
                (Some(_), None) => result is Err && result->Err_0@
                    == "load_from_store requires a store."@,
                (Some(_), Some(store)) => exists|
                    key: Hash256,
                    read: Result<Option<PersistedBeaconChain<TEthSpec>>, TStore::Error>,
                |
                    key@ == vstd::utf8::encode_utf8(db_key@) && #[trigger] store.answers(key, read)
                        && match read {
                        Err(error) => result is Err && crate::errors::describes(
                            result->Err_0@,
                            "DB error when reading persisted beacon chain: "@,
                            error,
                        ),
                        Ok(None) => result is Err && result->Err_0@
                            == "No persisted beacon chain found in store"@,
                        Ok(Some(chain)) => {
                            &&& result is Ok
                            &&& crate::builder::chain_resumed(self@, chain, result->Ok_0@)
                            &&& result->Ok_0.calls().puts == self.calls().puts
                            &&& result->Ok_0.calls().gets == self.calls().gets.push(key)
                        },
                    },
            },
    {
        if self.log().is_none() {
            return Err("resume_from_db requires a log".to_owned());
        }
        let (builder, handle) = self.part_from_store();
        let mut handle = match handle {
            Some(handle) => handle,
            None => return Err("load_from_store requires a store.".to_owned()),
        };
        let key = Hash256::from_slice(db_key.as_bytes());
        let read: Result<Option<PersistedBeaconChain<TEthSpec>>, TStore::Error> = handle.read(&key);
        assert(self@.store->0.answers(key, read));
        let chain = match PersistedBeaconChain::from_read(read) {
            Ok(chain) => chain,
            Err(text) => return Err(text),
        };
        let ghost found = chain;
        let op_pool = TEthSpec::restore_operation_pool(
            chain.op_pool,
            &chain.canonical_head.beacon_state,
            builder.spec(),
        );
        assert(crate::types::is_restored_pool(
            found.op_pool,
            found.canonical_head.beacon_state,
            self@.spec,
            op_pool,
        ));
        Ok(
            builder.rejoin_store(handle).resume_at(
                chain.canonical_head,
                chain.genesis_block_root,
                op_pool,
            ),
        )
    }
}

impl<TStore, TSlotClock, TLmdGhost, TEth1Backend, TEthSpec, TEventHandler, L> BeaconChainBuilder<
    Witness<TStore, TSlotClock, TLmdGhost, TEth1Backend, TEthSpec, TEventHandler>,
    L,
> where TEthSpec: EthSpec, TStore: Store<BeaconState<TEthSpec>> + Store<BeaconBlock<TEthSpec>> {
    /// Starts a new chain from a genesis state.
    pub fn genesis_state(self, beacon_state: BeaconState<TEthSpec>) -> (result: Result<
        Self,
        String,
    >)
        ensures
            match (self@.store, result) {
                (None, _) => result is Err && result->Err_0@ == "genesis_state requires a store"@,
                (Some(_), Ok(builder)) => {
                    &&& crate::builder::genesis_started(self@, beacon_state, builder@)
                    &&& builder.calls().puts == self.calls().puts + crate::genesis::genesis_puts(
                        builder@.finalized_checkpoint->0,
                    )
                    &&& builder.calls().gets == self.calls().gets
                },
                (Some(store), Err(text)) => {
                    ||| exists|error: TEthSpec::StateError| #[trigger]
                        beacon_state.caches_to(self@.spec, Err(error))
                            && crate::errors::describes(
                            text@,
                            "Failed to build genesis state caches: "@,
                            error,
                        )
                    ||| exists|genesis: CheckPoint<TEthSpec>| #[trigger]
                        genesis.is_genesis_of(beacon_state, self@.spec)
                            && crate::genesis::performed_in_order(
                            *store,
                            crate::genesis::genesis_plan(&genesis),
                            Err(text),
                        )
                },
            },
    {
        let (builder, handle) = self.part_from_store();
        let mut handle = match handle {
            Some(handle) => handle,
            None => return Err("genesis_state requires a store".to_owned()),
        };
        let genesis = match write_genesis(&mut handle, beacon_state, builder.spec()) {
            Ok(genesis) => genesis,
            Err(text) => return Err(text),
        };
        assert(handle.writes() =~= self.calls().puts + crate::genesis::genesis_puts(genesis));
        Ok(builder.rejoin_store(handle).start_at(genesis).empty_op_pool())
    }
}

} // verus!
