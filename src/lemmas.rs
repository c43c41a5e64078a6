use vstd::prelude::*;
use crate::error::CensusError;
use crate::instructions::advance_scope::advanced_state;
use crate::instructions::submit_attestation::attestation_refusal;
use crate::instructions::submit_census::census_refusal;
use crate::registry::NullifierRegistry;
use crate::scope::{external_nullifier_of, le_byte};
use crate::state::CensusState;

verus! {

/// Distinct scopes have distinct scope-binding values.
pub proof fn lemma_external_nullifier_injective(a: u64, b: u64)
    requires
        a != b,
    ensures
        external_nullifier_of(a) != external_nullifier_of(b),
{
    if external_nullifier_of(a) == external_nullifier_of(b) {
        assert forall|i: int| 0 <= i < 8 implies le_byte(a, i) == le_byte(b, i) by {
            assert(external_nullifier_of(a)[i] == external_nullifier_of(b)[i]);
        }
        assert(forall|x: u64, y: u64, k: u64|
            ((x >> k) & 0xffu64) as u8 == ((y >> k) & 0xffu64) as u8 ==> ((x >> k) & 0xffu64) == ((y
                >> k) & 0xffu64)) by (bit_vector);
        assert(le_byte(a, 0) == le_byte(b, 0) && le_byte(a, 1) == le_byte(b, 1));
        assert(le_byte(a, 2) == le_byte(b, 2) && le_byte(a, 3) == le_byte(b, 3));
        assert(le_byte(a, 4) == le_byte(b, 4) && le_byte(a, 5) == le_byte(b, 5));
        assert(le_byte(a, 6) == le_byte(b, 6) && le_byte(a, 7) == le_byte(b, 7));
        assert(((a >> 0u64) & 0xffu64) == ((b >> 0u64) & 0xffu64)
            && ((a >> 8u64) & 0xffu64) == ((b >> 8u64) & 0xffu64)
            && ((a >> 16u64) & 0xffu64) == ((b >> 16u64) & 0xffu64)
            && ((a >> 24u64) & 0xffu64) == ((b >> 24u64) & 0xffu64)
            && ((a >> 32u64) & 0xffu64) == ((b >> 32u64) & 0xffu64)
            && ((a >> 40u64) & 0xffu64) == ((b >> 40u64) & 0xffu64)
            && ((a >> 48u64) & 0xffu64) == ((b >> 48u64) & 0xffu64)
            && ((a >> 56u64) & 0xffu64) == ((b >> 56u64) & 0xffu64));
        assert(((a >> 0u64) & 0xffu64) == ((b >> 0u64) & 0xffu64)
            && ((a >> 8u64) & 0xffu64) == ((b >> 8u64) & 0xffu64)
            && ((a >> 16u64) & 0xffu64) == ((b >> 16u64) & 0xffu64)
            && ((a >> 24u64) & 0xffu64) == ((b >> 24u64) & 0xffu64)
            && ((a >> 32u64) & 0xffu64) == ((b >> 32u64) & 0xffu64)
            && ((a >> 40u64) & 0xffu64) == ((b >> 40u64) & 0xffu64)
            && ((a >> 48u64) & 0xffu64) == ((b >> 48u64) & 0xffu64)
            && ((a >> 56u64) & 0xffu64) == ((b >> 56u64) & 0xffu64) ==> a == b) by (bit_vector);
    }
}

/// Scope rotation never frees a nullifier: after `advance_scope`, a submission
/// whose nullifier was claimed before is refused on either admission path,
/// whatever else it carries.
pub proof fn lemma_rotation_keeps_nullifiers_spent(
    s: CensusState,
    now: i64,
    registry: NullifierRegistry,
    h: Seq<u8>,
    root: Seq<u8>,
    external: Seq<u8>,
    format_ok: bool,
    verdict: Result<bool, CensusError>,
    attested_at: i64,
    signer_trusted: bool,
    signature_valid: bool,
)
    requires
        registry.is_claimed(h),
    ensures
        census_refusal(advanced_state(s, now), registry.is_claimed(h), root, external, format_ok, verdict) is Some,
        attestation_refusal(
            advanced_state(s, now),
            registry.is_claimed(h),
            now,
            attested_at,
            root,
            external,
            signer_trusted,
            signature_valid,
        ) is Some,
{
}

/// After `advance_scope`, a proof or attestation bound to the previous scope is
/// refused by scope gating, before its nullifier is even looked at.
pub proof fn lemma_previous_scope_refused(
    s: CensusState,
    now: i64,
    claimed: bool,
    format_ok: bool,
    verdict: Result<bool, CensusError>,
    attested_at: i64,
    signer_trusted: bool,
    signature_valid: bool,
)
    requires
        s.is_active,
        s.current_scope < u64::MAX,
    ensures
        census_refusal(
            advanced_state(s, now),
            claimed,
            s.merkle_root@,
            external_nullifier_of(s.current_scope),
            format_ok,
            verdict,
        ) == Some(CensusError::CensusScopeExpired),
        0 <= now - attested_at < 300 ==> attestation_refusal(
            advanced_state(s, now),
            claimed,
            now,
            attested_at,
            s.merkle_root@,
            external_nullifier_of(s.current_scope),
            signer_trusted,
            signature_valid,
        ) == Some(CensusError::CensusScopeExpired),
{
    lemma_external_nullifier_injective(s.current_scope, (s.current_scope + 1) as u64);
}

/// Root gating: a submission whose root is not the published root is refused
/// on either path, however valid its proof or signature.
pub proof fn lemma_root_gating(
    s: CensusState,
    claimed: bool,
    root: Seq<u8>,
    external: Seq<u8>,
    format_ok: bool,
    verdict: Result<bool, CensusError>,
    now: i64,
    attested_at: i64,
    signer_trusted: bool,
    signature_valid: bool,
)
    requires
        root != s.merkle_root@,
    ensures
        census_refusal(s, claimed, root, external, format_ok, verdict) is Some,
        attestation_refusal(s, claimed, now, attested_at, root, external, signer_trusted, signature_valid) is Some,
{
}

/// Scope gating: a submission whose external nullifier is not the current
/// scope's is refused on either path.
pub proof fn lemma_scope_gating(
    s: CensusState,
    claimed: bool,
    root: Seq<u8>,
    external: Seq<u8>,
    format_ok: bool,
    verdict: Result<bool, CensusError>,
    now: i64,
    attested_at: i64,
    signer_trusted: bool,
    signature_valid: bool,
)
    requires
        external != external_nullifier_of(s.current_scope),
    ensures
        census_refusal(s, claimed, root, external, format_ok, verdict) is Some,
        attestation_refusal(s, claimed, now, attested_at, root, external, signer_trusted, signature_valid) is Some,
{
}

} // verus!
