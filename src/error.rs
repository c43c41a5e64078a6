use vstd::prelude::*;

verus! {

/// Every way an operation on the census can be refused.
#[derive(Clone, Copy, Debug, PartialEq, Eq, Structural)]
pub enum CensusError {
    InvalidProof,
    NullifierAlreadyUsed,
    InvalidMerkleRoot,
    UnauthorizedAdmin,
    CensusScopeExpired,
    InvalidCommitment,
    TreeFull,
    InvalidProofFormat,
    CensusNotActive,
    ArithmeticOverflow,
    InvalidSignalHash,
    AttestationExpired,
    InvalidVerifierSignature,
}

impl CensusError {
    /// The human-readable message of the error.
    pub fn message(&self) -> (r: &'static str) {
        match self {
            CensusError::InvalidProof => "Invalid ZK proof - verification failed",
            CensusError::NullifierAlreadyUsed => "Nullifier has already been used in this census scope",
            CensusError::InvalidMerkleRoot => "Merkle root does not match current census state",
            CensusError::UnauthorizedAdmin => "Only the admin can register new citizens",
            CensusError::CensusScopeExpired => "Census scope has expired",
            CensusError::InvalidCommitment => "Invalid identity commitment format",
            CensusError::TreeFull => "Merkle tree is full - maximum capacity reached",
            CensusError::InvalidProofFormat => "Invalid proof format - wrong byte length",
            CensusError::CensusNotActive => "Census is not currently active",
            CensusError::ArithmeticOverflow => "Arithmetic overflow in population counter",
            CensusError::InvalidSignalHash => "Invalid signal hash",
            CensusError::AttestationExpired => "Attestation has expired - timestamp too old",
            CensusError::InvalidVerifierSignature => "Invalid verifier signature",
        }
    }
}

} // verus!
