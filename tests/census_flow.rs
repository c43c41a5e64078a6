use census::census::{
    advance_scope, initialize, register_citizen, set_census_active, set_merkle_root, submit_attestation,
    submit_census,
};
use census::contexts::{
    AdvanceScope, Initialize, RegisterCitizen, SetCensusActive, SetMerkleRoot, SubmitAttestation,
    SubmitCensus,
};
use census::error::CensusError;
use census::groth16::Groth16VerifyingKey;
use census::instructions::submit_census::submit_census_with_verdict;
use census::registry::NullifierRegistry;
use census::scope::expected_external_nullifier;
use census::state::CensusState;

const ADMIN: [u8; 32] = [7u8; 32];
const VERIFIER: [u8; 32] = [9u8; 32];

fn fresh_ledger() -> CensusState {
    initialize(&Initialize { admin: ADMIN, now: 1_000, bump: 254 }, 604800)
}

fn submit(
    state: &mut CensusState,
    reg: &mut NullifierRegistry,
    inputs: [[u8; 32]; 4],
    valid: bool,
) -> Result<census::state::CensusCounted, CensusError> {
    let a = [1u8; 64];
    let b = [2u8; 128];
    let c = [3u8; 64];
    submit_census_with_verdict(
        &SubmitCensus { payer: [1u8; 32], now: 2_000, bump: 250 },
        state,
        reg,
        &a,
        &b,
        &c,
        inputs,
        Ok(valid),
    )
}

/// A key whose points are all the identity: every pairing is trivial, so a
/// proof of identity points is accepted by the real pairing check.
fn identity_key() -> Groth16VerifyingKey {
    Groth16VerifyingKey {
        alpha_g1: [0u8; 64],
        beta_g2: [0u8; 128],
        gamma_g2: [0u8; 128],
        delta_g2: [0u8; 128],
        ic: vec![[0u8; 64]; 5],
    }
}

fn submit_real(
    state: &mut CensusState,
    reg: &mut NullifierRegistry,
    inputs: [[u8; 32]; 4],
    proof_a: [u8; 64],
) -> Result<census::state::CensusCounted, CensusError> {
    submit_census(
        &SubmitCensus { payer: [1u8; 32], now: 2_000, bump: 250 },
        state,
        reg,
        &proof_a,
        &[0u8; 128],
        &[0u8; 64],
        inputs,
        &identity_key(),
    )
}

fn inputs_for(state: &CensusState, nullifier: u8) -> [[u8; 32]; 4] {
    [
        state.merkle_root,
        [nullifier; 32],
        [0u8; 32],
        expected_external_nullifier(state.current_scope),
    ]
}

fn attest(
    state: &mut CensusState,
    reg: &mut NullifierRegistry,
    now: i64,
    timestamp: i64,
    root: [u8; 32],
    external: [u8; 32],
    nullifier: u8,
    signature_valid: bool,
) -> Result<census::state::CensusCounted, CensusError> {
    let trusted = vec![[3u8; 32], VERIFIER];
    submit_attestation(
        &SubmitAttestation { payer: [1u8; 32], verifier: VERIFIER, now, bump: 1 },
        state,
        reg,
        &trusted,
        timestamp,
        root,
        [nullifier; 32],
        external,
        [4u8; 32],
        signature_valid,
    )
}

#[test]
fn initialize_sets_first_scope() {
    let s = fresh_ledger();
    assert_eq!(s.admin, ADMIN);
    assert_eq!(s.current_scope, 1);
    assert_eq!(s.current_population, 0);
    assert_eq!(s.merkle_root, [0u8; 32]);
    assert_eq!(s.scope_duration, 604800);
    assert_eq!(s.scope_start_time, 1_000);
    assert_eq!(s.total_registered, 0);
    assert_eq!(s.leaf_count, 0);
    assert!(s.is_active);
}

#[test]
fn full_census_round() {
    let mut s = fresh_ledger();
    let mut reg = NullifierRegistry::new();
    assert_eq!(s.current_scope, 1);
    assert_eq!(s.current_population, 0);
    let inputs = inputs_for(&s, 5);
    let ev = submit(&mut s, &mut reg, inputs, true).unwrap();
    assert_eq!(s.current_population, 1);
    assert_eq!(ev.new_population, 1);
    assert_eq!(ev.scope, 1);
    assert_eq!(ev.nullifier_hash, [5u8; 32]);
    assert_eq!(reg.len(), 1);
    assert_eq!(reg.get(0).nullifier_hash, [5u8; 32]);
    assert_eq!(reg.get(0).scope, 1);
    assert_eq!(submit(&mut s, &mut reg, inputs, true).unwrap_err(), CensusError::NullifierAlreadyUsed);
    assert_eq!(s.current_population, 1);
    assert_eq!(reg.len(), 1);
    let adv = advance_scope(&AdvanceScope { admin: ADMIN, now: 3_000 }, &mut s).unwrap();
    assert_eq!(adv.old_scope, 1);
    assert_eq!(adv.new_scope, 2);
    assert_eq!(adv.final_population, 1);
    assert_eq!(s.current_scope, 2);
    assert_eq!(s.current_population, 0);
    assert_eq!(s.scope_start_time, 3_000);
    assert_eq!(submit(&mut s, &mut reg, inputs, true).unwrap_err(), CensusError::CensusScopeExpired);
    assert_eq!(s.current_population, 0);
    assert!(reg.contains(&[5u8; 32]));
}

#[test]
fn duplicate_nullifier_rejected() {
    let mut s = fresh_ledger();
    let mut reg = NullifierRegistry::new();
    let inputs = inputs_for(&s, 8);
    assert!(submit(&mut s, &mut reg, inputs, true).is_ok());
    assert_eq!(submit(&mut s, &mut reg, inputs, true).unwrap_err(), CensusError::NullifierAlreadyUsed);
    assert_eq!(s.current_population, 1);
    assert_eq!(reg.len(), 1);
}

#[test]
fn rotation_keeps_nullifiers_claimed() {
    let mut s = fresh_ledger();
    let mut reg = NullifierRegistry::new();
    let first = inputs_for(&s, 8);
    assert!(submit(&mut s, &mut reg, first, true).is_ok());
    advance_scope(&AdvanceScope { admin: ADMIN, now: 3_000 }, &mut s).unwrap();
    let again = inputs_for(&s, 8);
    assert_eq!(submit(&mut s, &mut reg, again, true).unwrap_err(), CensusError::NullifierAlreadyUsed);
    assert_eq!(s.current_population, 0);
    let other = inputs_for(&s, 9);
    assert_eq!(submit(&mut s, &mut reg, other, true).unwrap().new_population, 1);
}

#[test]
fn wrong_root_rejected() {
    let mut s = fresh_ledger();
    let mut reg = NullifierRegistry::new();
    let mut inputs = inputs_for(&s, 5);
    inputs[0] = [1u8; 32];
    assert_eq!(submit(&mut s, &mut reg, inputs, true).unwrap_err(), CensusError::InvalidMerkleRoot);
    assert_eq!(s.current_population, 0);
    assert_eq!(reg.len(), 0);
}

#[test]
fn wrong_scope_binding_rejected() {
    let mut s = fresh_ledger();
    let mut reg = NullifierRegistry::new();
    let mut inputs = inputs_for(&s, 5);
    inputs[3] = expected_external_nullifier(2);
    assert_eq!(submit(&mut s, &mut reg, inputs, true).unwrap_err(), CensusError::CensusScopeExpired);
    assert_eq!(s.current_population, 0);
}

#[test]
fn invalid_proof_rejected() {
    let mut s = fresh_ledger();
    let mut reg = NullifierRegistry::new();
    let inputs = inputs_for(&s, 5);
    assert_eq!(submit(&mut s, &mut reg, inputs, false).unwrap_err(), CensusError::InvalidProof);
    assert_eq!(reg.len(), 0);
}

#[test]
fn malformed_proof_rejected_before_verdict() {
    let mut s = fresh_ledger();
    let mut reg = NullifierRegistry::new();
    let inputs = inputs_for(&s, 5);
    let short = [1u8; 63];
    let b = [2u8; 128];
    let r = submit_census_with_verdict(
        &SubmitCensus { payer: [1u8; 32], now: 2_000, bump: 250 },
        &mut s,
        &mut reg,
        &short,
        &b,
        &short,
        inputs,
        Ok(false),
    );
    assert_eq!(r.unwrap_err(), CensusError::InvalidProofFormat);
}

#[test]
fn inactive_census_rejects_submissions() {
    let mut s = fresh_ledger();
    s.is_active = false;
    let mut reg = NullifierRegistry::new();
    let inputs = inputs_for(&s, 5);
    assert_eq!(submit(&mut s, &mut reg, inputs, true).unwrap_err(), CensusError::CensusNotActive);
    let ctx = RegisterCitizen { admin: ADMIN, now: 5 };
    assert_eq!(register_citizen(&ctx, &mut s, [1u8; 32]).unwrap_err(), CensusError::CensusNotActive);
}

#[test]
fn population_overflow_rejected() {
    let mut s = fresh_ledger();
    s.current_population = u64::MAX;
    let mut reg = NullifierRegistry::new();
    let inputs = inputs_for(&s, 5);
    assert_eq!(submit(&mut s, &mut reg, inputs, true).unwrap_err(), CensusError::ArithmeticOverflow);
    assert_eq!(reg.len(), 0);
    assert_eq!(s.current_population, u64::MAX);
}

#[test]
fn scope_overflow_rejected() {
    let mut s = fresh_ledger();
    s.current_scope = u64::MAX;
    s.current_population = 4;
    let r = advance_scope(&AdvanceScope { admin: ADMIN, now: 9 }, &mut s);
    assert_eq!(r.unwrap_err(), CensusError::ArithmeticOverflow);
    assert_eq!(s.current_scope, u64::MAX);
    assert_eq!(s.current_population, 4);
}

#[test]
fn admin_only_operations() {
    let mut s = fresh_ledger();
    let intruder = [8u8; 32];
    assert_eq!(
        advance_scope(&AdvanceScope { admin: intruder, now: 9 }, &mut s).unwrap_err(),
        CensusError::UnauthorizedAdmin
    );
    assert_eq!(
        set_merkle_root(&SetMerkleRoot { admin: intruder }, &mut s, [6u8; 32]).unwrap_err(),
        CensusError::UnauthorizedAdmin
    );
    assert_eq!(
        register_citizen(&RegisterCitizen { admin: intruder, now: 9 }, &mut s, [6u8; 32]).unwrap_err(),
        CensusError::UnauthorizedAdmin
    );
    assert_eq!(s.current_scope, 1);
    assert_eq!(s.merkle_root, [0u8; 32]);
    assert_eq!(s.leaf_count, 0);
}

#[test]
fn enrollment_counts_leaves() {
    let mut s = fresh_ledger();
    let ctx = RegisterCitizen { admin: ADMIN, now: 77 };
    let e0 = register_citizen(&ctx, &mut s, [1u8; 32]).unwrap();
    let e1 = register_citizen(&ctx, &mut s, [2u8; 32]).unwrap();
    assert_eq!(e0.leaf_index, 0);
    assert_eq!(e1.leaf_index, 1);
    assert_eq!(e1.commitment, [2u8; 32]);
    assert_eq!(e1.timestamp, 77);
    assert_eq!(s.leaf_count, 2);
    assert_eq!(s.total_registered, 2);
    assert_eq!(s.merkle_root, [0u8; 32]);
}

#[test]
fn published_root_gates_proofs() {
    let mut s = fresh_ledger();
    let mut reg = NullifierRegistry::new();
    let old_inputs = inputs_for(&s, 5);
    set_merkle_root(&SetMerkleRoot { admin: ADMIN }, &mut s, [6u8; 32]).unwrap();
    assert_eq!(s.merkle_root, [6u8; 32]);
    assert_eq!(submit(&mut s, &mut reg, old_inputs, true).unwrap_err(), CensusError::InvalidMerkleRoot);
    let new_inputs = inputs_for(&s, 5);
    assert!(submit(&mut s, &mut reg, new_inputs, true).is_ok());
}

#[test]
fn attestation_freshness_boundary() {
    let mut s = fresh_ledger();
    let mut reg = NullifierRegistry::new();
    let root = s.merkle_root;
    let ext = expected_external_nullifier(1);
    assert_eq!(attest(&mut s, &mut reg, 10_300, 10_000, root, ext, 1, true).unwrap_err(), CensusError::AttestationExpired);
    assert_eq!(attest(&mut s, &mut reg, 9_999, 10_000, root, ext, 1, true).unwrap_err(), CensusError::AttestationExpired);
    assert_eq!(s.current_population, 0);
    let ev = attest(&mut s, &mut reg, 10_299, 10_000, root, ext, 1, true).unwrap();
    assert_eq!(ev.new_population, 1);
    assert_eq!(ev.timestamp, 10_299);
    assert_eq!(reg.get(0).timestamp, 10_299);
}

#[test]
fn attestation_checks_in_order() {
    let mut s = fresh_ledger();
    let mut reg = NullifierRegistry::new();
    let root = s.merkle_root;
    let ext = expected_external_nullifier(1);
    assert_eq!(attest(&mut s, &mut reg, 100, 50, [1u8; 32], ext, 1, true).unwrap_err(), CensusError::InvalidMerkleRoot);
    assert_eq!(attest(&mut s, &mut reg, 100, 50, root, expected_external_nullifier(0), 1, true).unwrap_err(), CensusError::CensusScopeExpired);
    assert_eq!(attest(&mut s, &mut reg, 100, 50, root, ext, 1, false).unwrap_err(), CensusError::InvalidVerifierSignature);
    assert!(attest(&mut s, &mut reg, 100, 50, root, ext, 1, true).is_ok());
    assert_eq!(attest(&mut s, &mut reg, 101, 50, root, ext, 1, true).unwrap_err(), CensusError::NullifierAlreadyUsed);
    assert_eq!(s.current_population, 1);
}

#[test]
fn untrusted_verifier_rejected() {
    let mut s = fresh_ledger();
    let mut reg = NullifierRegistry::new();
    let trusted = vec![[3u8; 32]];
    let root = s.merkle_root;
    let r = submit_attestation(
        &SubmitAttestation { payer: [1u8; 32], verifier: VERIFIER, now: 100, bump: 1 },
        &mut s,
        &mut reg,
        &trusted,
        90,
        root,
        [1u8; 32],
        expected_external_nullifier(1),
        [4u8; 32],
        true,
    );
    assert_eq!(r.unwrap_err(), CensusError::InvalidVerifierSignature);
    assert_eq!(reg.len(), 0);
}

#[test]
fn proof_and_attestation_share_nullifiers() {
    let mut s = fresh_ledger();
    let mut reg = NullifierRegistry::new();
    let inputs = inputs_for(&s, 5);
    assert!(submit(&mut s, &mut reg, inputs, true).is_ok());
    let root = s.merkle_root;
    let r = attest(&mut s, &mut reg, 100, 90, root, expected_external_nullifier(1), 5, true);
    assert_eq!(r.unwrap_err(), CensusError::NullifierAlreadyUsed);
    assert_eq!(s.current_population, 1);
}

#[test]
fn verifier_error_is_a_format_error() {
    let mut s = fresh_ledger();
    let mut reg = NullifierRegistry::new();
    let inputs = inputs_for(&s, 5);
    let r = submit(&mut s, &mut reg, inputs, true);
    assert!(r.is_ok());
    let inputs = inputs_for(&s, 6);
    let r = submit_census_with_verdict(
        &SubmitCensus { payer: [1u8; 32], now: 2_000, bump: 250 },
        &mut s,
        &mut reg,
        &[0u8; 64],
        &[0u8; 128],
        &[0u8; 64],
        inputs,
        Err(CensusError::InvalidProofFormat),
    );
    assert_eq!(r.unwrap_err(), CensusError::InvalidProofFormat);
    assert_eq!(s.current_population, 1);
}

#[test]
fn census_round_with_pairing_check() {
    let mut s = fresh_ledger();
    let mut reg = NullifierRegistry::new();
    let inputs = inputs_for(&s, 5);
    let ev = submit_real(&mut s, &mut reg, inputs, [0u8; 64]).unwrap();
    assert_eq!(ev.new_population, 1);
    assert_eq!(reg.len(), 1);
    assert_eq!(submit_real(&mut s, &mut reg, inputs, [0u8; 64]).unwrap_err(), CensusError::NullifierAlreadyUsed);
    assert_eq!(s.current_population, 1);
    advance_scope(&AdvanceScope { admin: ADMIN, now: 3_000 }, &mut s).unwrap();
    assert_eq!(s.current_scope, 2);
    assert_eq!(s.current_population, 0);
    assert_eq!(submit_real(&mut s, &mut reg, inputs, [0u8; 64]).unwrap_err(), CensusError::CensusScopeExpired);
}

#[test]
fn off_curve_proof_point_is_a_format_error() {
    let mut s = fresh_ledger();
    let mut reg = NullifierRegistry::new();
    let inputs = inputs_for(&s, 5);
    let mut bad = [0u8; 64];
    bad[31] = 1;
    bad[63] = 3;
    assert_eq!(submit_real(&mut s, &mut reg, inputs, bad).unwrap_err(), CensusError::InvalidProofFormat);
    assert_eq!(s.current_population, 0);
    assert_eq!(reg.len(), 0);
}

#[test]
fn out_of_field_input_is_a_format_error() {
    let mut s = fresh_ledger();
    let mut reg = NullifierRegistry::new();
    let mut inputs = inputs_for(&s, 5);
    inputs[1] = [0xffu8; 32];
    assert_eq!(submit_real(&mut s, &mut reg, inputs, [0u8; 64]).unwrap_err(), CensusError::InvalidProofFormat);
    assert_eq!(submit(&mut s, &mut reg, inputs, true).unwrap_err(), CensusError::InvalidProofFormat);
}

#[test]
fn admin_closes_and_reopens_census() {
    let mut s = fresh_ledger();
    let mut reg = NullifierRegistry::new();
    assert_eq!(
        set_census_active(&SetCensusActive { admin: [8u8; 32] }, &mut s, false).unwrap_err(),
        CensusError::UnauthorizedAdmin
    );
    assert!(s.is_active);
    set_census_active(&SetCensusActive { admin: ADMIN }, &mut s, false).unwrap();
    assert!(!s.is_active);
    let inputs = inputs_for(&s, 5);
    assert_eq!(submit(&mut s, &mut reg, inputs, true).unwrap_err(), CensusError::CensusNotActive);
    let root = s.merkle_root;
    let ext = expected_external_nullifier(1);
    assert_eq!(attest(&mut s, &mut reg, 100, 90, root, ext, 5, true).unwrap_err(), CensusError::CensusNotActive);
    set_census_active(&SetCensusActive { admin: ADMIN }, &mut s, true).unwrap();
    assert!(submit(&mut s, &mut reg, inputs, true).is_ok());
}
