use vstd::prelude::*;

verus! {

/// Depth of the membership tree (2^20, about one million members).
pub const TREE_DEPTH: usize = 20;

/// Largest number of concurrent changes the membership tree buffers.
pub const MAX_BUFFER_SIZE: usize = 64;

/// Number of top tree levels kept alongside the root for cheaper proofs.
pub const CANOPY_DEPTH: usize = 10;

/// Seconds for which a signed attestation stays acceptable.
pub const ATTESTATION_WINDOW: i64 = 300;

/// Byte lengths of the three Groth16 proof components.
pub const PROOF_A_LEN: usize = 64;
pub const PROOF_B_LEN: usize = 128;
pub const PROOF_C_LEN: usize = 64;

} // verus!
