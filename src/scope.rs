use vstd::prelude::*;

verus! {

/// Byte `i` (counting from the least significant) of the little-endian encoding of `x`.
pub open spec fn le_byte(x: u64, i: int) -> u8 {
    ((x >> ((8 * i) as u64)) & 0xffu64) as u8
}

/// The scope-binding value of `scope`: its 8-byte little-endian encoding,
/// zero-extended to 32 bytes.
pub open spec fn external_nullifier_of(scope: u64) -> Seq<u8> {
    Seq::new(32, |i: int| if i < 8 { le_byte(scope, i) } else { 0u8 })
}

/// Computes the scope-binding value that every proof or attestation of `scope` must carry.
pub fn expected_external_nullifier(scope: u64) -> (r: [u8; 32])
    ensures
        r@ == external_nullifier_of(scope),
{
    let mut r: [u8; 32] = [0u8; 32];
    let mut i: usize = 0;
    while i < 8
        invariant
            i <= 8,
            r@.len() == 32,
            forall|k: int| 0 <= k < i ==> r@[k] == le_byte(scope, k),
            forall|k: int| i <= k < 32 ==> r@[k] == 0u8,
        decreases 8 - i,
    {
        r[i] = ((scope >> ((8 * i) as u64)) & 0xffu64) as u8;
        i = i + 1;
    }
    assert(r@ =~= external_nullifier_of(scope));
    r
}

} // verus!
