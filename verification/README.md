# beacon_chain

Builds a beacon chain, either anew from a genesis state or by resuming one that was persisted to a
store. The library in `src/` is verified with Verus; `app/` adds logging with `slog` around it.

- `builder`: `BeaconChainBuilder`, and `BuilderView`, which its contracts speak of.
- `chain`: `BeaconChain`, what the builder puts together.
- `components`: the services of a chain, and the types and traits for them.
- `types`: states, blocks, checkpoints, and the `EthSpec` trait that provides what hashing, caching
  and the operation pool need.
- `store`: the `Store` trait, and `Recorder`, through which a store is written and what was written
  is on record.
- `genesis`: the genesis checkpoint of a chain, and what starting a chain writes.
- `hash256`, `errors`: hashes and error texts.
- `external`: the calls into the standard library and `parking_lot` that are taken on trust.
- `laws`: what holds of building a chain as a whole.

The traits are for the user of the library to implement, and promise nothing. A contract that
involves one of their methods says, with `call_ensures`, what was handed to the method and what
became of the result, whatever it was.
