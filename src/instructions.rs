//! One module per operation on the census ledger.
pub mod submit_census;
pub mod submit_attestation;
pub mod initialize;
pub mod register_citizen;
pub mod advance_scope;
pub mod set_merkle_root;
pub mod set_active;
