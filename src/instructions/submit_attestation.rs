use vstd::prelude::*;
use crate::constants::ATTESTATION_WINDOW;
use crate::contexts::SubmitAttestation;
use crate::error::CensusError;
use crate::ledger::{count_refusal, counted_event, counted_state, receipt_of, record_count};
use crate::registry::NullifierRegistry;
use crate::bytes::{append_bytes, bytes_eq};
use crate::scope::{expected_external_nullifier, external_nullifier_of, le_byte};
use crate::state::{CensusCounted, CensusState};

verus! {

/// An attestation made at `timestamp` is fresh at `now` when it is at most 299
/// seconds old and not from the future.
pub open spec fn is_fresh(now: i64, timestamp: i64) -> bool {
    0 <= now - timestamp < 300
}

/// The 8-byte little-endian encoding of a signed timestamp.
pub open spec fn timestamp_bytes(t: i64) -> Seq<u8> {
    Seq::new(8, |i: int| le_byte(t as u64, i))
}

/// The bytes a verifier signs: timestamp, root, nullifier hash, external
/// nullifier and signal hash, concatenated in that order.
pub open spec fn attestation_message_of(
    timestamp: i64,
    root: Seq<u8>,
    nullifier_hash: Seq<u8>,
    external_nullifier: Seq<u8>,
    signal_hash: Seq<u8>,
) -> Seq<u8> {
    timestamp_bytes(timestamp) + root + nullifier_hash + external_nullifier + signal_hash
}

/// Whether `verifier` is on the list of trusted signers.
pub open spec fn is_trusted(trusted: Seq<[u8; 32]>, verifier: Seq<u8>) -> bool {
    exists|i: int| 0 <= i < trusted.len() && trusted[i]@ == verifier
}

/// Why an attestation is refused, if it is. The checks come in this order:
/// the ledger is active, the attestation is fresh, its root is the current
/// root, its external nullifier is the current scope's, it is signed by a
/// trusted verifier, the nullifier is fresh, the population can grow.
pub open spec fn attestation_refusal(
    s: CensusState,
    claimed: bool,
    now: i64,
    timestamp: i64,
    root: Seq<u8>,
    external: Seq<u8>,
    signer_trusted: bool,
    signature_valid: bool,
) -> Option<CensusError> {
    if !s.is_active {
        Some(CensusError::CensusNotActive)
    } else if !is_fresh(now, timestamp) {
        Some(CensusError::AttestationExpired)
    } else if root != s.merkle_root@ {
        Some(CensusError::InvalidMerkleRoot)
    } else if external != external_nullifier_of(s.current_scope) {
        Some(CensusError::CensusScopeExpired)
    } else if !(signer_trusted && signature_valid) {
        Some(CensusError::InvalidVerifierSignature)
    } else {
        count_refusal(s, claimed)
    }
}

/// Whether an attestation made at `timestamp` is still acceptable at `now`.
pub fn attestation_is_fresh(now: i64, timestamp: i64) -> (r: bool)
    ensures
        r == is_fresh(now, timestamp),
{
    let age: i128 = now as i128 - timestamp as i128;
    0 <= age && age < ATTESTATION_WINDOW as i128
}

/// The edges of the attestation window: 299 seconds old is fresh, 300 seconds
/// old and one second in the future are not.
pub proof fn lemma_freshness_boundary(now: i64, timestamp: i64)
    ensures
        now - timestamp == 299 ==> is_fresh(now, timestamp),
        now - timestamp == 300 ==> !is_fresh(now, timestamp),
        now - timestamp == -1 ==> !is_fresh(now, timestamp),
{
}

/// Builds the 136-byte message that a trusted verifier signs for an attestation.
pub fn attestation_message(
    timestamp: i64,
    merkle_root: &[u8; 32],
    nullifier_hash: &[u8; 32],
    external_nullifier: &[u8; 32],
    signal_hash: &[u8; 32],
) -> (r: Vec<u8>)
    ensures
        r@ == attestation_message_of(
            timestamp,
            merkle_root@,
            nullifier_hash@,
            external_nullifier@,
            signal_hash@,
        ),
        r@.len() == 136,
{
    let mut out: Vec<u8> = Vec::with_capacity(136);
    let t: u64 = timestamp as u64;
    let mut i: usize = 0;
    while i < 8
        invariant
            i <= 8,
            t == timestamp as u64,
            out@ == timestamp_bytes(timestamp).subrange(0, i as int),
        decreases 8 - i,
    {
        out.push(((t >> ((8 * i) as u64)) & 0xffu64) as u8);
        i = i + 1;
        assert(out@ =~= timestamp_bytes(timestamp).subrange(0, i as int));
    }
    assert(timestamp_bytes(timestamp).subrange(0, 8) =~= timestamp_bytes(timestamp));
    append_bytes(&mut out, merkle_root.as_slice());
    append_bytes(&mut out, nullifier_hash.as_slice());
    append_bytes(&mut out, external_nullifier.as_slice());
    append_bytes(&mut out, signal_hash.as_slice());
    out
}

/// Whether `verifier` is on the list of trusted signers.
pub fn is_trusted_verifier(trusted: &Vec<[u8; 32]>, verifier: &[u8; 32]) -> (r: bool)
    ensures
        r == is_trusted(trusted@, verifier@),
{
    let mut i: usize = 0;
    while i < trusted.len()
        invariant
            i <= trusted@.len(),
            forall|k: int| 0 <= k < i ==> trusted@[k]@ != verifier@,
        decreases trusted@.len() - i,
    {
        if bytes_eq(&trusted[i], verifier) {
            return true;
        }
        i = i + 1;
    }
    false
}

/// Admits an attestation signed by a trusted verifier and counts it.
///
/// `trusted_verifiers` is the configured allow-list of signer identities.
/// `signature_valid` is the outcome of the platform's Ed25519 check that
/// `ctx.verifier` signed the attestation (`attestation_message(..)`); the
/// library does not check signatures itself. On success the effects are those of a proof submission; on
/// any refusal neither the ledger nor the registry changes.
pub fn handler(
    ctx: &SubmitAttestation,
    state: &mut CensusState,
    registry: &mut NullifierRegistry,
    trusted_verifiers: &Vec<[u8; 32]>,
    timestamp: i64,
    merkle_root: [u8; 32],
    nullifier_hash: [u8; 32],
    external_nullifier: [u8; 32],
    signal_hash: [u8; 32],
    signature_valid: bool,
) -> (r: Result<CensusCounted, CensusError>)
    requires
        old(registry).wf(),
    ensures
        final(registry).wf(),
        ({
            let refusal = attestation_refusal(
                *old(state),
                old(registry).is_claimed(nullifier_hash@),
                ctx.now,
                timestamp,
                merkle_root@,
                external_nullifier@,
                is_trusted(trusted_verifiers@, ctx.verifier@),
                signature_valid,
            );
            match r {
                Ok(ev) => {
                    &&& refusal is None
                    &&& *final(state) == counted_state(*old(state))
                    &&& final(registry)@ == old(registry)@.push(
                        receipt_of(*old(state), nullifier_hash, ctx.now, ctx.bump),
                    )
                    &&& ev == counted_event(*old(state), nullifier_hash, ctx.now)
                },
                Err(e) => {
                    &&& refusal == Some(e)
                    &&& *final(state) == *old(state)
                    &&& final(registry)@ == old(registry)@
                },
            }
        }),
        merkle_root@ != old(state).merkle_root@ ==> r is Err,
        external_nullifier@ != external_nullifier_of(old(state).current_scope) ==> r is Err,
        r is Ok ==> final(state).current_population == old(state).current_population + 1,
{
    if !state.is_active {
        return Err(CensusError::CensusNotActive);
    }
    if !attestation_is_fresh(ctx.now, timestamp) {
        return Err(CensusError::AttestationExpired);
    }
    if !bytes_eq(&merkle_root, &state.merkle_root) {
        return Err(CensusError::InvalidMerkleRoot);
    }
    let expected_external = expected_external_nullifier(state.current_scope);
    if !bytes_eq(&external_nullifier, &expected_external) {
        return Err(CensusError::CensusScopeExpired);
    }
    if !(is_trusted_verifier(trusted_verifiers, &ctx.verifier) && signature_valid) {
        return Err(CensusError::InvalidVerifierSignature);
    }
    record_count(state, registry, nullifier_hash, ctx.now, ctx.bump)
}

} // verus!
