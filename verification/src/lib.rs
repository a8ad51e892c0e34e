//! Builds a beacon chain, either anew from a genesis state or by resuming one that was persisted.

pub mod builder;
pub mod chain;
pub mod components;
pub mod effects;
pub mod errors;
pub mod external;
pub mod genesis;
pub mod hash256;
pub mod laws;
pub mod operations;
pub mod starting;
pub mod store;
pub mod types;

pub use builder::BeaconChainBuilder;
pub use chain::BeaconChain;
pub use components::Witness;
pub use hash256::Hash256;
