use vstd::prelude::*;
use crate::contexts::AdvanceScope;
use crate::error::CensusError;
use crate::bytes::bytes_eq;
use crate::state::{CensusState, ScopeAdvanced};

verus! {

/// Why a scope rotation is refused, if it is: the signer is not the admin, or
/// the scope counter is full.
pub open spec fn advance_refusal(s: CensusState, signer: Seq<u8>) -> Option<CensusError> {
    if signer != s.admin@ {
        Some(CensusError::UnauthorizedAdmin)
    } else if s.current_scope == u64::MAX {
        Some(CensusError::ArithmeticOverflow)
    } else {
        None
    }
}

/// The ledger after rotating to the next scope at time `now`.
pub open spec fn advanced_state(s: CensusState, now: i64) -> CensusState {
    CensusState {
        current_scope: (s.current_scope + 1) as u64,
        scope_start_time: now,
        current_population: 0,
        ..s
    }
}

/// Closes the current scope and opens the next: the scope grows by one, its
/// start time becomes now and the population returns to zero. Enrollment
/// counters and claimed nullifiers are untouched.
pub fn handler(ctx: &AdvanceScope, state: &mut CensusState) -> (r: Result<ScopeAdvanced, CensusError>)
    ensures
        match r {
            Ok(ev) => {
                &&& advance_refusal(*old(state), ctx.admin@) is None
                &&& *final(state) == advanced_state(*old(state), ctx.now)
                &&& ev == (ScopeAdvanced {
                    old_scope: old(state).current_scope,
                    new_scope: (old(state).current_scope + 1) as u64,
                    final_population: old(state).current_population,
                    timestamp: ctx.now,
                })
            },
            Err(e) => {
                &&& advance_refusal(*old(state), ctx.admin@) == Some(e)
                &&& *final(state) == *old(state)
            },
        },
        r is Ok ==> final(state).current_population == 0 && final(state).current_scope
            == old(state).current_scope + 1,
{
    if !bytes_eq(&ctx.admin, &state.admin) {
        return Err(CensusError::UnauthorizedAdmin);
    }
    if state.current_scope == u64::MAX {
        return Err(CensusError::ArithmeticOverflow);
    }
    let old_scope = state.current_scope;
    let final_population = state.current_population;
    state.current_scope = state.current_scope + 1;
    state.scope_start_time = ctx.now;
    state.current_population = 0;
    Ok(ScopeAdvanced {
        old_scope,
        new_scope: state.current_scope,
        final_population,
        timestamp: ctx.now,
    })
}

} // verus!
