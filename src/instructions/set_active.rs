use vstd::prelude::*;
use crate::bytes::bytes_eq;
use crate::contexts::SetCensusActive;
use crate::error::CensusError;
use crate::state::CensusState;

verus! {

/// Opens or closes the census to submissions; only the admin may.
pub fn handler(ctx: &SetCensusActive, state: &mut CensusState, active: bool) -> (r: Result<(), CensusError>)
    ensures
        ctx.admin@ == old(state).admin@ ==> r is Ok && *final(state) == (CensusState {
            is_active: active,
            ..*old(state)
        }),
        ctx.admin@ != old(state).admin@ ==> r == Err::<(), CensusError>(CensusError::UnauthorizedAdmin)
            && *final(state) == *old(state),
{
    if !bytes_eq(&ctx.admin, &state.admin) {
        return Err(CensusError::UnauthorizedAdmin);
    }
    state.is_active = active;
    Ok(())
}

} // verus!
