//! A token-gated claim registry: each unique asset ("orb") can be claimed once,
//! at the price of burning a configured amount of a gating token.
pub mod pubkey;
pub mod state;
pub mod registry;
pub mod forge;
pub mod laws;
