use vstd::prelude::*;
use crate::constants::{PROOF_A_LEN, PROOF_B_LEN, PROOF_C_LEN};
use crate::contexts::SubmitCensus;
use crate::error::CensusError;
use crate::groth16::{groth16_result, inputs_in_field, public_inputs_in_field, verify_groth16_proof, Groth16VerifyingKey};
use crate::ledger::{count_refusal, counted_event, counted_state, receipt_of, record_count};
use crate::registry::NullifierRegistry;
use crate::bytes::bytes_eq;
use crate::scope::{expected_external_nullifier, external_nullifier_of};
use crate::state::{CensusCounted, CensusState};

verus! {

/// Whether the three proof components have the lengths of a Groth16 proof and
/// every public input is a canonical field element.
pub open spec fn proof_format_ok(a: Seq<u8>, b: Seq<u8>, c: Seq<u8>, inputs: Seq<[u8; 32]>) -> bool {
    a.len() == 64 && b.len() == 128 && c.len() == 64 && inputs_in_field(inputs)
}

/// The checks made before any cryptographic work, in order: the ledger is
/// active, the proof's root is the current root, its external nullifier is the
/// current scope's, the proof is well formed.
pub open spec fn admission_precheck(s: CensusState, root: Seq<u8>, external: Seq<u8>, format_ok: bool) -> Option<CensusError> {
    if !s.is_active {
        Some(CensusError::CensusNotActive)
    } else if root != s.merkle_root@ {
        Some(CensusError::InvalidMerkleRoot)
    } else if external != external_nullifier_of(s.current_scope) {
        Some(CensusError::CensusScopeExpired)
    } else if !format_ok {
        Some(CensusError::InvalidProofFormat)
    } else {
        None
    }
}

/// Why a proof submission is refused, if it is: the prechecks, then the
/// verifier's verdict (its error, or a rejection), then the nullifier is
/// fresh and the population can grow.
pub open spec fn census_refusal(
    s: CensusState,
    claimed: bool,
    root: Seq<u8>,
    external: Seq<u8>,
    format_ok: bool,
    verdict: Result<bool, CensusError>,
) -> Option<CensusError> {
    match admission_precheck(s, root, external, format_ok) {
        Some(e) => Some(e),
        None => match verdict {
            Err(e) => Some(e),
            Ok(false) => Some(CensusError::InvalidProof),
            Ok(true) => count_refusal(s, claimed),
        },
    }
}

/// Checks the lengths of the three proof components and the range of the
/// public inputs, before any cryptographic work.
pub fn check_proof_format(proof_a: &[u8], proof_b: &[u8], proof_c: &[u8], public_inputs: &[[u8; 32]; 4]) -> (r: bool)
    ensures
        r == proof_format_ok(proof_a@, proof_b@, proof_c@, public_inputs@),
{
    proof_a.len() == PROOF_A_LEN && proof_b.len() == PROOF_B_LEN && proof_c.len() == PROOF_C_LEN
        && public_inputs_in_field(public_inputs)
}

/// Runs the checks that come before any cryptographic work; `None` when all pass.
pub fn census_precheck(
    state: &CensusState,
    proof_a: &[u8],
    proof_b: &[u8],
    proof_c: &[u8],
    public_inputs: &[[u8; 32]; 4],
) -> (r: Option<CensusError>)
    ensures
        r == admission_precheck(
            *state,
            public_inputs@[0]@,
            public_inputs@[3]@,
            proof_format_ok(proof_a@, proof_b@, proof_c@, public_inputs@),
        ),
{
    if !state.is_active {
        return Some(CensusError::CensusNotActive);
    }
    if !bytes_eq(&public_inputs[0], &state.merkle_root) {
        return Some(CensusError::InvalidMerkleRoot);
    }
    let expected_external = expected_external_nullifier(state.current_scope);
    if !bytes_eq(&public_inputs[3], &expected_external) {
        return Some(CensusError::CensusScopeExpired);
    }
    if !check_proof_format(proof_a, proof_b, proof_c, public_inputs) {
        return Some(CensusError::InvalidProofFormat);
    }
    None
}

/// Admits a census proof given the verifier's verdict on it, and counts it.
///
/// `public_inputs` is `[root, nullifier_hash, signal_hash, external_nullifier]`.
/// `proof_verdict` is consulted only once the root, scope and format checks
/// have passed. On success the nullifier receipt is appended and the population
/// grows by one; on any refusal neither the ledger nor the registry changes.
pub fn submit_census_with_verdict(
    ctx: &SubmitCensus,
    state: &mut CensusState,
    registry: &mut NullifierRegistry,
    proof_a: &[u8],
    proof_b: &[u8],
    proof_c: &[u8],
    public_inputs: [[u8; 32]; 4],
    proof_verdict: Result<bool, CensusError>,
) -> (r: Result<CensusCounted, CensusError>)
    requires
        old(registry).wf(),
    ensures
        final(registry).wf(),
        ({
            let refusal = census_refusal(
                *old(state),
                old(registry).is_claimed(public_inputs@[1]@),
                public_inputs@[0]@,
                public_inputs@[3]@,
                proof_format_ok(proof_a@, proof_b@, proof_c@, public_inputs@),
                proof_verdict,
            );
            match r {
                Ok(ev) => {
                    &&& refusal is None
                    &&& *final(state) == counted_state(*old(state))
                    &&& final(registry)@ == old(registry)@.push(
                        receipt_of(*old(state), public_inputs@[1], ctx.now, ctx.bump),
                    )
                    &&& ev == counted_event(*old(state), public_inputs@[1], ctx.now)
                },
                Err(e) => {
                    &&& refusal == Some(e)
                    &&& *final(state) == *old(state)
                    &&& final(registry)@ == old(registry)@
                },
            }
        }),
{
    if let Some(e) = census_precheck(state, proof_a, proof_b, proof_c, &public_inputs) {
        return Err(e);
    }
    match proof_verdict {
        Err(e) => Err(e),
        Ok(false) => Err(CensusError::InvalidProof),
        Ok(true) => record_count(state, registry, public_inputs[1], ctx.now, ctx.bump),
    }
}

/// Admits a census proof and counts it.
///
/// `public_inputs` is `[root, nullifier_hash, signal_hash, external_nullifier]`.
/// The proof is checked against `vkey` only once the root, scope and format
/// checks have passed. On success the nullifier receipt is appended and the
/// population grows by one; on any refusal neither the ledger nor the registry
/// changes.
pub fn handler(
    ctx: &SubmitCensus,
    state: &mut CensusState,
    registry: &mut NullifierRegistry,
    proof_a: &[u8],
    proof_b: &[u8],
    proof_c: &[u8],
    public_inputs: [[u8; 32]; 4],
    vkey: &Groth16VerifyingKey,
) -> (r: Result<CensusCounted, CensusError>)
    requires
        old(registry).wf(),
    ensures
        final(registry).wf(),
        ({
            let refusal = census_refusal(
                *old(state),
                old(registry).is_claimed(public_inputs@[1]@),
                public_inputs@[0]@,
                public_inputs@[3]@,
                proof_format_ok(proof_a@, proof_b@, proof_c@, public_inputs@),
                groth16_result(*vkey, proof_a@, proof_b@, proof_c@, public_inputs@),
            );
            match r {
                Ok(ev) => {
                    &&& refusal is None
                    &&& *final(state) == counted_state(*old(state))
                    &&& final(registry)@ == old(registry)@.push(
                        receipt_of(*old(state), public_inputs@[1], ctx.now, ctx.bump),
                    )
                    &&& ev == counted_event(*old(state), public_inputs@[1], ctx.now)
                },
                Err(e) => {
                    &&& refusal == Some(e)
                    &&& *final(state) == *old(state)
                    &&& final(registry)@ == old(registry)@
                },
            }
        }),
        public_inputs@[0]@ != old(state).merkle_root@ ==> r is Err,
        public_inputs@[3]@ != external_nullifier_of(old(state).current_scope) ==> r is Err,
        r is Ok ==> final(state).current_population == old(state).current_population + 1,
{
    if let Some(e) = census_precheck(state, proof_a, proof_b, proof_c, &public_inputs) {
        return Err(e);
    }
    let verdict = verify_groth16_proof(proof_a, proof_b, proof_c, &public_inputs, vkey);
    submit_census_with_verdict(ctx, state, registry, proof_a, proof_b, proof_c, public_inputs, verdict)
}

} // verus!
