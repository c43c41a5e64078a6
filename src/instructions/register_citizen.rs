use vstd::prelude::*;
use crate::contexts::RegisterCitizen;
use crate::error::CensusError;
use crate::bytes::bytes_eq;
use crate::state::{CensusState, CitizenRegistered};

verus! {

/// Why an enrollment is refused, if it is: the signer is not the admin, the
/// ledger is inactive, or a counter is full.
pub open spec fn register_refusal(s: CensusState, signer: Seq<u8>) -> Option<CensusError> {
    if signer != s.admin@ {
        Some(CensusError::UnauthorizedAdmin)
    } else if !s.is_active {
        Some(CensusError::CensusNotActive)
    } else if s.leaf_count == u64::MAX || s.total_registered == u64::MAX {
        Some(CensusError::ArithmeticOverflow)
    } else {
        None
    }
}

/// Records the enrollment of `identity_commitment` as the next leaf of the
/// membership tree. The published root is left as it is.
pub fn handler(ctx: &RegisterCitizen, state: &mut CensusState, identity_commitment: [u8; 32]) -> (r:
    Result<CitizenRegistered, CensusError>)
    ensures
        match r {
            Ok(ev) => {
                &&& register_refusal(*old(state), ctx.admin@) is None
                &&& *final(state) == (CensusState {
                    leaf_count: (old(state).leaf_count + 1) as u64,
                    total_registered: (old(state).total_registered + 1) as u64,
                    ..*old(state)
                })
                &&& ev == (CitizenRegistered {
                    commitment: identity_commitment,
                    leaf_index: old(state).leaf_count,
                    timestamp: ctx.now,
                })
            },
            Err(e) => {
                &&& register_refusal(*old(state), ctx.admin@) == Some(e)
                &&& *final(state) == *old(state)
            },
        },
{
    if !bytes_eq(&ctx.admin, &state.admin) {
        return Err(CensusError::UnauthorizedAdmin);
    }
    if !state.is_active {
        return Err(CensusError::CensusNotActive);
    }
    if state.leaf_count == u64::MAX || state.total_registered == u64::MAX {
        return Err(CensusError::ArithmeticOverflow);
    }
    let current_leaf_index = state.leaf_count;
    state.leaf_count = state.leaf_count + 1;
    state.total_registered = state.total_registered + 1;
    Ok(CitizenRegistered {
        commitment: identity_commitment,
        leaf_index: current_leaf_index,
        timestamp: ctx.now,
    })
}

} // verus!
