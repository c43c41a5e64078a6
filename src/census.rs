use vstd::prelude::*;
use crate::contexts::{
    AdvanceScope, Initialize, RegisterCitizen, SetCensusActive, SetMerkleRoot, SubmitAttestation, SubmitCensus,
};
use crate::error::CensusError;
use crate::groth16::{groth16_result, Groth16VerifyingKey};
use crate::instructions;
use crate::instructions::initialize::is_initial_state;
use crate::instructions::register_citizen::register_refusal;
use crate::instructions::submit_census::{census_refusal, proof_format_ok};
use crate::instructions::submit_attestation::{attestation_refusal, is_trusted};
use crate::instructions::advance_scope::{advance_refusal, advanced_state};
use crate::ledger::{counted_event, counted_state, lemma_count_keeps_population_backed, population_backed, receipt_of};
use crate::registry::NullifierRegistry;
use crate::scope::external_nullifier_of;
use crate::state::{CensusCounted, CensusState, CitizenRegistered, ScopeAdvanced};

verus! {

// The operations of the census program. Each runs as one atomic step: on a
// refusal nothing it was given changes.

/// Initialize the census ledger.
pub fn initialize(ctx: &Initialize, scope_duration: i64) -> (r: CensusState)
    ensures
        is_initial_state(r, *ctx, scope_duration),
        r.wf(),
{
    instructions::initialize::handler(ctx, scope_duration)
}

/// Enroll a member (admin only).
pub fn register_citizen(ctx: &RegisterCitizen, state: &mut CensusState, identity_commitment: [u8; 32]) -> (r:
    Result<CitizenRegistered, CensusError>)
    ensures
        match r {
            Ok(ev) => {
                &&& register_refusal(*old(state), ctx.admin@) is None
                &&& *final(state) == (CensusState {
                    leaf_count: (old(state).leaf_count + 1) as u64,
                    total_registered: (old(state).total_registered + 1) as u64,
                    ..*old(state)
                })
                &&& ev == (CitizenRegistered {
                    commitment: identity_commitment,
                    leaf_index: old(state).leaf_count,
                    timestamp: ctx.now,
                })
            },
            Err(e) => {
                &&& register_refusal(*old(state), ctx.admin@) == Some(e)
                &&& *final(state) == *old(state)
            },
        },
        old(state).wf() ==> final(state).wf(),
{
    instructions::register_citizen::handler(ctx, state, identity_commitment)
}

/// Submit a census proof (open to anyone holding a valid proof).
pub fn submit_census(
    ctx: &SubmitCensus,
    state: &mut CensusState,
    registry: &mut NullifierRegistry,
    proof_a: &[u8],
    proof_b: &[u8],
    proof_c: &[u8],
    public_inputs: [[u8; 32]; 4],
    vkey: &Groth16VerifyingKey,
) -> (r: Result<CensusCounted, CensusError>)
    requires
        old(registry).wf(),
    ensures
        final(registry).wf(),
        ({
            let refusal = census_refusal(
                *old(state),
                old(registry).is_claimed(public_inputs@[1]@),
                public_inputs@[0]@,
                public_inputs@[3]@,
                proof_format_ok(proof_a@, proof_b@, proof_c@, public_inputs@),
                groth16_result(*vkey, proof_a@, proof_b@, proof_c@, public_inputs@),
            );
            match r {
                Ok(ev) => {
                    &&& refusal is None
                    &&& *final(state) == counted_state(*old(state))
                    &&& final(registry)@ == old(registry)@.push(
                        receipt_of(*old(state), public_inputs@[1], ctx.now, ctx.bump),
                    )
                    &&& ev == counted_event(*old(state), public_inputs@[1], ctx.now)
                },
                Err(e) => {
                    &&& refusal == Some(e)
                    &&& *final(state) == *old(state)
                    &&& final(registry)@ == old(registry)@
                },
            }
        }),
        public_inputs@[0]@ != old(state).merkle_root@ ==> r is Err,
        public_inputs@[3]@ != external_nullifier_of(old(state).current_scope) ==> r is Err,
        r is Ok ==> final(state).current_population == old(state).current_population + 1,
        old(state).wf() ==> final(state).wf(),
        population_backed(*old(state), *old(registry)) ==> population_backed(*final(state), *final(registry)),
{
    let r = instructions::submit_census::handler(ctx, state, registry, proof_a, proof_b, proof_c, public_inputs, vkey);
    proof {
        if r is Ok && population_backed(*old(state), *old(registry)) {
            lemma_count_keeps_population_backed(*old(state), *old(registry), *registry, public_inputs[1], ctx.now, ctx.bump);
        }
    }
    r
}

/// Submit a census attestation signed by a trusted verifier.
pub fn submit_attestation(
    ctx: &SubmitAttestation,
    state: &mut CensusState,
    registry: &mut NullifierRegistry,
    trusted_verifiers: &Vec<[u8; 32]>,
    timestamp: i64,
    merkle_root: [u8; 32],
    nullifier_hash: [u8; 32],
    external_nullifier: [u8; 32],
    signal_hash: [u8; 32],
    signature_valid: bool,
) -> (r: Result<CensusCounted, CensusError>)
    requires
        old(registry).wf(),
    ensures
        final(registry).wf(),
        ({
            let refusal = attestation_refusal(
                *old(state),
                old(registry).is_claimed(nullifier_hash@),
                ctx.now,
                timestamp,
                merkle_root@,
                external_nullifier@,
                is_trusted(trusted_verifiers@, ctx.verifier@),
                signature_valid,
            );
            match r {
                Ok(ev) => {
                    &&& refusal is None
                    &&& *final(state) == counted_state(*old(state))
                    &&& final(registry)@ == old(registry)@.push(
                        receipt_of(*old(state), nullifier_hash, ctx.now, ctx.bump),
                    )
                    &&& ev == counted_event(*old(state), nullifier_hash, ctx.now)
                },
                Err(e) => {
                    &&& refusal == Some(e)
                    &&& *final(state) == *old(state)
                    &&& final(registry)@ == old(registry)@
                },
            }
        }),
        merkle_root@ != old(state).merkle_root@ ==> r is Err,
        external_nullifier@ != external_nullifier_of(old(state).current_scope) ==> r is Err,
        r is Ok ==> final(state).current_population == old(state).current_population + 1,
        old(state).wf() ==> final(state).wf(),
        population_backed(*old(state), *old(registry)) ==> population_backed(*final(state), *final(registry)),
{
    let r = instructions::submit_attestation::handler(ctx, state, registry, trusted_verifiers, timestamp, merkle_root, nullifier_hash, external_nullifier, signal_hash, signature_valid);
    proof {
        if r is Ok && population_backed(*old(state), *old(registry)) {
            lemma_count_keeps_population_backed(*old(state), *old(registry), *registry, nullifier_hash, ctx.now, ctx.bump);
        }
    }
    r
}

/// Advance to the next census scope (admin only).
pub fn advance_scope(ctx: &AdvanceScope, state: &mut CensusState) -> (r: Result<ScopeAdvanced, CensusError>)
    ensures
        match r {
            Ok(ev) => {
                &&& advance_refusal(*old(state), ctx.admin@) is None
                &&& *final(state) == advanced_state(*old(state), ctx.now)
                &&& ev == (ScopeAdvanced {
                    old_scope: old(state).current_scope,
                    new_scope: (old(state).current_scope + 1) as u64,
                    final_population: old(state).current_population,
                    timestamp: ctx.now,
                })
            },
            Err(e) => {
                &&& advance_refusal(*old(state), ctx.admin@) == Some(e)
                &&& *final(state) == *old(state)
            },
        },
        r is Ok ==> final(state).current_population == 0 && final(state).current_scope
            == old(state).current_scope + 1,
        old(state).wf() ==> final(state).wf(),
{
    instructions::advance_scope::handler(ctx, state)
}

/// Publish the membership root (admin only).
pub fn set_merkle_root(ctx: &SetMerkleRoot, state: &mut CensusState, root: [u8; 32]) -> (r: Result<(), CensusError>)
    ensures
        ctx.admin@ == old(state).admin@ ==> r is Ok && *final(state) == (CensusState {
            merkle_root: root,
            ..*old(state)
        }),
        ctx.admin@ != old(state).admin@ ==> r == Err::<(), CensusError>(CensusError::UnauthorizedAdmin)
            && *final(state) == *old(state),
        old(state).wf() ==> final(state).wf(),
{
    instructions::set_merkle_root::handler(ctx, state, root)
}

/// Open or close the census to submissions (admin only).
pub fn set_census_active(ctx: &SetCensusActive, state: &mut CensusState, active: bool) -> (r: Result<(), CensusError>)
    ensures
        ctx.admin@ == old(state).admin@ ==> r is Ok && *final(state) == (CensusState {
            is_active: active,
            ..*old(state)
        }),
        ctx.admin@ != old(state).admin@ ==> r == Err::<(), CensusError>(CensusError::UnauthorizedAdmin)
            && *final(state) == *old(state),
        old(state).wf() ==> final(state).wf(),
{
    instructions::set_active::handler(ctx, state, active)
}

} // verus!
