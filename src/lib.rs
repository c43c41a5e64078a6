//! Anonymous, Sybil-resistant population counting: proof- or attestation-gated
//! admission, nullifier-based exactly-once counting, and a scope (epoch) lifecycle.
pub mod constants;
pub mod error;
pub mod bytes;
pub mod scope;
pub mod state;
pub mod registry;
pub mod contexts;
pub mod ledger;
pub mod groth16;
pub mod instructions;
pub mod census;
pub mod lemmas;
