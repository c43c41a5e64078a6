use vstd::prelude::*;
use crate::error::CensusError;
use crate::registry::NullifierRegistry;
use crate::state::{CensusCounted, CensusState, Nullifier};

verus! {

/// Why the counting step refuses, if it does: the nullifier was already
/// claimed, or the population counter is full.
pub open spec fn count_refusal(s: CensusState, claimed: bool) -> Option<CensusError> {
    if claimed {
        Some(CensusError::NullifierAlreadyUsed)
    } else if s.current_population == u64::MAX {
        Some(CensusError::ArithmeticOverflow)
    } else {
        None
    }
}

/// The ledger after one more submission is counted.
pub open spec fn counted_state(s: CensusState) -> CensusState {
    CensusState { current_population: (s.current_population + 1) as u64, ..s }
}

/// The receipt that counting `h` at time `now` creates.
pub open spec fn receipt_of(s: CensusState, h: [u8; 32], now: i64, bump: u8) -> Nullifier {
    Nullifier { nullifier_hash: h, scope: s.current_scope, timestamp: now, bump }
}

/// The event that counting `h` at time `now` produces.
pub open spec fn counted_event(s: CensusState, h: [u8; 32], now: i64) -> CensusCounted {
    CensusCounted {
        nullifier_hash: h,
        scope: s.current_scope,
        new_population: (s.current_population + 1) as u64,
        timestamp: now,
    }
}

/// Number of receipts in `receipts` claimed during `scope`.
pub open spec fn claims_in_scope(receipts: Seq<Nullifier>, scope: u64) -> nat
    decreases receipts.len(),
{
    if receipts.len() == 0 {
        0
    } else {
        claims_in_scope(receipts.drop_last(), scope) + if receipts.last().scope == scope {
            1nat
        } else {
            0nat
        }
    }
}

/// The population never exceeds the nullifiers claimed in the current scope.
pub open spec fn population_backed(s: CensusState, registry: NullifierRegistry) -> bool {
    s.current_population <= claims_in_scope(registry@, s.current_scope)
}

/// Counting a submission keeps the population backed by claimed nullifiers.
pub proof fn lemma_count_keeps_population_backed(
    s: CensusState,
    before: NullifierRegistry,
    after: NullifierRegistry,
    h: [u8; 32],
    now: i64,
    bump: u8,
)
    requires
        population_backed(s, before),
        s.current_population < u64::MAX,
        after@ == before@.push(receipt_of(s, h, now, bump)),
    ensures
        population_backed(counted_state(s), after),
{
    assert(after@.drop_last() == before@);
}

/// The effect shared by both admission paths, applied together or not at all:
/// claim the nullifier, then raise the population by one.
pub fn record_count(
    state: &mut CensusState,
    registry: &mut NullifierRegistry,
    nullifier_hash: [u8; 32],
    now: i64,
    bump: u8,
) -> (r: Result<CensusCounted, CensusError>)
    requires
        old(registry).wf(),
    ensures
        final(registry).wf(),
        r is Err <==> count_refusal(*old(state), old(registry).is_claimed(nullifier_hash@)) is Some,
        match r {
            Ok(ev) => {
                &&& *final(state) == counted_state(*old(state))
                &&& final(registry)@ == old(registry)@.push(receipt_of(*old(state), nullifier_hash, now, bump))
                &&& ev == counted_event(*old(state), nullifier_hash, now)
            },
            Err(e) => {
                &&& Some(e) == count_refusal(*old(state), old(registry).is_claimed(nullifier_hash@))
                &&& *final(state) == *old(state)
                &&& final(registry)@ == old(registry)@
            },
        },
{
    let claimed = registry.contains(&nullifier_hash);
    if claimed {
        return Err(CensusError::NullifierAlreadyUsed);
    }
    if state.current_population == u64::MAX {
        return Err(CensusError::ArithmeticOverflow);
    }
    let record = Nullifier { nullifier_hash, scope: state.current_scope, timestamp: now, bump };
    let claim = registry.claim(record);
    if claim.is_err() {
        return Err(CensusError::NullifierAlreadyUsed);
    }
    state.current_population = state.current_population + 1;
    Ok(CensusCounted {
        nullifier_hash,
        scope: state.current_scope,
        new_population: state.current_population,
        timestamp: now,
    })
}

} // verus!
