use vstd::prelude::*;
use anchor_lang::solana_program::alt_bn128::prelude::{
    alt_bn128_addition, alt_bn128_multiplication, alt_bn128_pairing, AltBn128Error,
};
use crate::bytes::{append_bytes, be_less_than, be_lt};
use crate::error::CensusError;

verus! {

#[verifier::external_type_specification]
#[verifier::external_body]
pub struct ExAltBn128Error(AltBn128Error);

/// What the alt_bn128 addition returns for `input`; `None` when it fails.
pub uninterp spec fn bn128_addition_of(input: Seq<u8>) -> Option<Seq<u8>>;

/// What the alt_bn128 scalar multiplication returns for `input`; `None` when it fails.
pub uninterp spec fn bn128_multiplication_of(input: Seq<u8>) -> Option<Seq<u8>>;

/// What the alt_bn128 pairing check returns for `input`; `None` when it fails.
pub uninterp spec fn bn128_pairing_of(input: Seq<u8>) -> Option<Seq<u8>>;

/// Relies on solana_program's `alt_bn128_addition`: the sum of two G1 points
/// (64 big-endian bytes each) as a 64-byte point, depending on the input alone.
#[verifier::external_body]
fn bn128_add(input: &[u8]) -> (r: Result<Vec<u8>, AltBn128Error>)
    ensures
        r is Ok <==> bn128_addition_of(input@) is Some,
        r matches Ok(v) ==> v@ == bn128_addition_of(input@)->Some_0 && v@.len() == 64,
{
    alt_bn128_addition(input)
}

/// Relies on solana_program's `alt_bn128_multiplication`: a G1 point (64 bytes)
/// times a 32-byte scalar, as a 64-byte point, depending on the input alone.
#[verifier::external_body]
fn bn128_mul(input: &[u8]) -> (r: Result<Vec<u8>, AltBn128Error>)
    ensures
        r is Ok <==> bn128_multiplication_of(input@) is Some,
        r matches Ok(v) ==> v@ == bn128_multiplication_of(input@)->Some_0 && v@.len() == 64,
{
    alt_bn128_multiplication(input)
}

/// Relies on solana_program's `alt_bn128_pairing`: for a list of (G1, G2)
/// pairs, 32 big-endian bytes holding 1 when the product of their pairings is
/// the identity and 0 otherwise, depending on the input alone.
#[verifier::external_body]
fn bn128_pairing(input: &[u8]) -> (r: Result<Vec<u8>, AltBn128Error>)
    ensures
        r is Ok <==> bn128_pairing_of(input@) is Some,
        r matches Ok(v) ==> v@ == bn128_pairing_of(input@)->Some_0 && v@.len() == 32,
{
    alt_bn128_pairing(input)
}

/// A Groth16 verification key over BN254, points in big-endian bytes.
/// `ic` holds one G1 point per public input, plus one.
pub struct Groth16VerifyingKey {
    pub alpha_g1: [u8; 64],
    pub beta_g2: [u8; 128],
    pub gamma_g2: [u8; 128],
    pub delta_g2: [u8; 128],
    pub ic: Vec<[u8; 64]>,
}

/// The order of BN254's scalar field, as 32 big-endian bytes.
pub open spec fn bn254_scalar_modulus() -> Seq<u8> {
    seq![
        0x30u8, 0x64u8, 0x4eu8, 0x72u8, 0xe1u8, 0x31u8, 0xa0u8, 0x29u8,
        0xb8u8, 0x50u8, 0x45u8, 0xb6u8, 0x81u8, 0x81u8, 0x58u8, 0x5du8,
        0x28u8, 0x33u8, 0xe8u8, 0x48u8, 0x79u8, 0xb9u8, 0x70u8, 0x91u8,
        0x43u8, 0xe1u8, 0xf5u8, 0x93u8, 0xf0u8, 0x00u8, 0x00u8, 0x01u8,
    ]
}

/// The pairing check's answer for "the product is the identity".
pub open spec fn pairing_success() -> Seq<u8> {
    Seq::new(32, |i: int| if i == 31 { 1u8 } else { 0u8 })
}

/// Whether every public input is a canonical scalar, below the field's order;
/// a non-canonical one would let one proof stand for several nullifiers.
pub open spec fn inputs_in_field(inputs: Seq<[u8; 32]>) -> bool {
    forall|i: int| 0 <= i < inputs.len() ==> be_less_than(#[trigger] inputs[i]@, bn254_scalar_modulus())
}

/// The key's input point after folding in the first `k` public inputs:
/// `ic[0] + inputs[0]·ic[1] + ... + inputs[k-1]·ic[k]`, or `None` if a curve
/// operation fails.
pub open spec fn prepared_inputs(ic: Seq<[u8; 64]>, inputs: Seq<[u8; 32]>, k: nat) -> Option<Seq<u8>>
    decreases k,
{
    if k == 0 {
        Some(ic[0]@)
    } else {
        match prepared_inputs(ic, inputs, (k - 1) as nat) {
            None => None,
            Some(acc) => match bn128_multiplication_of(ic[k as int]@ + inputs[k - 1]@) {
                None => None,
                Some(m) => bn128_addition_of(acc + m),
            },
        }
    }
}

/// Once a curve operation has failed while folding in the inputs, the folding fails.
proof fn lemma_prepared_failure_persists(ic: Seq<[u8; 64]>, inputs: Seq<[u8; 32]>, k: nat, n: nat)
    requires
        k <= n,
        prepared_inputs(ic, inputs, k) is None,
    ensures
        prepared_inputs(ic, inputs, n) is None,
    decreases n - k,
{
    if k < n {
        lemma_prepared_failure_persists(ic, inputs, k, (n - 1) as nat);
    }
}

/// The pairing check's input: (A, B), (prepared inputs, γ), (C, δ), (α, β).
/// A is expected already negated by the prover.
pub open spec fn pairing_input(
    vk: Groth16VerifyingKey,
    a: Seq<u8>,
    b: Seq<u8>,
    c: Seq<u8>,
    prepared: Seq<u8>,
) -> Seq<u8> {
    a + b + prepared + vk.gamma_g2@ + c + vk.delta_g2@ + vk.alpha_g1@ + vk.beta_g2@
}

/// The Groth16 verdict on a proof: `Some(true)` accepted, `Some(false)`
/// rejected, `None` when a curve operation refuses its input (a malformed point).
/// A key whose `ic` does not match the number of inputs accepts nothing.
pub open spec fn groth16_verdict(
    vk: Groth16VerifyingKey,
    a: Seq<u8>,
    b: Seq<u8>,
    c: Seq<u8>,
    inputs: Seq<[u8; 32]>,
) -> Option<bool> {
    if vk.ic@.len() != inputs.len() + 1 {
        Some(false)
    } else {
        match prepared_inputs(vk.ic@, inputs, inputs.len()) {
            None => None,
            Some(p) => match bn128_pairing_of(pairing_input(vk, a, b, c, p)) {
                None => None,
                Some(out) => Some(out == pairing_success()),
            },
        }
    }
}

/// The verdict as the submission handler consumes it: a malformed point is a
/// format error, a false proof a rejection.
pub open spec fn groth16_result(
    vk: Groth16VerifyingKey,
    a: Seq<u8>,
    b: Seq<u8>,
    c: Seq<u8>,
    inputs: Seq<[u8; 32]>,
) -> Result<bool, CensusError> {
    match groth16_verdict(vk, a, b, c, inputs) {
        None => Err(CensusError::InvalidProofFormat),
        Some(v) => Ok(v),
    }
}

/// The order of BN254's scalar field.
pub fn scalar_modulus() -> (r: [u8; 32])
    ensures
        r@ == bn254_scalar_modulus(),
{
    let r: [u8; 32] = [
        0x30, 0x64, 0x4e, 0x72, 0xe1, 0x31, 0xa0, 0x29, 0xb8, 0x50, 0x45, 0xb6, 0x81, 0x81, 0x58, 0x5d,
        0x28, 0x33, 0xe8, 0x48, 0x79, 0xb9, 0x70, 0x91, 0x43, 0xe1, 0xf5, 0x93, 0xf0, 0x00, 0x00, 0x01,
    ];
    assert(r@ =~= bn254_scalar_modulus());
    r
}

/// Whether every public input is below the scalar field's order.
pub fn public_inputs_in_field(inputs: &[[u8; 32]; 4]) -> (r: bool)
    ensures
        r == inputs_in_field(inputs@),
{
    let modulus = scalar_modulus();
    let mut i: usize = 0;
    while i < 4
        invariant
            i <= 4,
            inputs@.len() == 4,
            modulus@ == bn254_scalar_modulus(),
            forall|k: int| 0 <= k < i ==> be_less_than(#[trigger] inputs@[k]@, bn254_scalar_modulus()),
        decreases 4 - i,
    {
        if !be_lt(&inputs[i], &modulus) {
            return false;
        }
        i = i + 1;
    }
    true
}

/// Verifies a Groth16 proof against `vkey` and the four public inputs.
pub fn verify_groth16_proof(
    proof_a: &[u8],
    proof_b: &[u8],
    proof_c: &[u8],
    public_inputs: &[[u8; 32]; 4],
    vkey: &Groth16VerifyingKey,
) -> (r: Result<bool, CensusError>)
    ensures
        r == groth16_result(*vkey, proof_a@, proof_b@, proof_c@, public_inputs@),
{
    if vkey.ic.len() != 5 {
        return Ok(false);
    }
    let mut acc: Vec<u8> = Vec::new();
    append_bytes(&mut acc, vkey.ic[0].as_slice());
    let mut i: usize = 0;
    while i < 4
        invariant
            i <= 4,
            vkey.ic@.len() == 5,
            public_inputs@.len() == 4,
            prepared_inputs(vkey.ic@, public_inputs@, i as nat) == Some(acc@),
        decreases 4 - i,
    {
        let mut mul_input: Vec<u8> = Vec::new();
        append_bytes(&mut mul_input, vkey.ic[i + 1].as_slice());
        append_bytes(&mut mul_input, public_inputs[i].as_slice());
        assert(mul_input@ =~= vkey.ic@[i + 1]@ + public_inputs@[i as int]@);
        let m = match bn128_mul(mul_input.as_slice()) {
            Ok(m) => m,
            Err(_) => {
                proof {
                    lemma_prepared_failure_persists(vkey.ic@, public_inputs@, (i + 1) as nat, 4);
                }
                return Err(CensusError::InvalidProofFormat);
            },
        };
        let mut add_input: Vec<u8> = acc;
        append_bytes(&mut add_input, m.as_slice());
        acc = match bn128_add(add_input.as_slice()) {
            Ok(s) => s,
            Err(_) => {
                proof {
                    lemma_prepared_failure_persists(vkey.ic@, public_inputs@, (i + 1) as nat, 4);
                }
                return Err(CensusError::InvalidProofFormat);
            },
        };
        i = i + 1;
    }
    let mut pairing: Vec<u8> = Vec::new();
    append_bytes(&mut pairing, proof_a);
    append_bytes(&mut pairing, proof_b);
    append_bytes(&mut pairing, acc.as_slice());
    append_bytes(&mut pairing, vkey.gamma_g2.as_slice());
    append_bytes(&mut pairing, proof_c);
    append_bytes(&mut pairing, vkey.delta_g2.as_slice());
    append_bytes(&mut pairing, vkey.alpha_g1.as_slice());
    append_bytes(&mut pairing, vkey.beta_g2.as_slice());
    let out = match bn128_pairing(pairing.as_slice()) {
        Ok(out) => out,
        Err(_) => return Err(CensusError::InvalidProofFormat),
    };
    let mut ok = true;
    let mut k: usize = 0;
    while k < 32
        invariant
            k <= 32,
            out@.len() == 32,
            ok == (forall|j: int| 0 <= j < k ==> out@[j] == pairing_success()[j]),
        decreases 32 - k,
    {
        let want: u8 = if k == 31 { 1 } else { 0 };
        ok = ok && out[k] == want;
        k = k + 1;
    }
    assert(ok == (out@ == pairing_success())) by {
        if ok {
            assert(out@ =~= pairing_success());
        }
    }
    Ok(ok)
}

} // verus!
