use vstd::prelude::*;

verus! {

/// What `initialize` is given by its caller: the creating admin, the time, and
/// the ledger account's bump.
#[derive(Clone, Copy, Debug)]
pub struct Initialize {
    pub admin: [u8; 32],
    pub now: i64,
    pub bump: u8,
}

/// What an enrollment is given: the signing identity and the time.
#[derive(Clone, Copy, Debug)]
pub struct RegisterCitizen {
    pub admin: [u8; 32],
    pub now: i64,
}

/// What a proof submission is given: the paying identity, the time, and the
/// bump of the receipt account that a successful claim creates.
#[derive(Clone, Copy, Debug)]
pub struct SubmitCensus {
    pub payer: [u8; 32],
    pub now: i64,
    pub bump: u8,
}

/// What a scope rotation is given: the signing identity and the time.
#[derive(Clone, Copy, Debug)]
pub struct AdvanceScope {
    pub admin: [u8; 32],
    pub now: i64,
}

/// What a root publication is given: the signing identity.
#[derive(Clone, Copy, Debug)]
pub struct SetMerkleRoot {
    pub admin: [u8; 32],
}

/// What opening or closing the census is given: the signing identity.
#[derive(Clone, Copy, Debug)]
pub struct SetCensusActive {
    pub admin: [u8; 32],
}

/// What an attestation submission is given: the paying identity, the identity
/// of the verifier that signed the attestation, the time, and the bump of the
/// receipt account that a successful claim creates.
#[derive(Clone, Copy, Debug)]
pub struct SubmitAttestation {
    pub payer: [u8; 32],
    pub verifier: [u8; 32],
    pub now: i64,
    pub bump: u8,
}

} // verus!
