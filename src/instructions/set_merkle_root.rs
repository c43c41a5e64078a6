use vstd::prelude::*;
use crate::contexts::SetMerkleRoot;
use crate::error::CensusError;
use crate::bytes::bytes_eq;
use crate::state::CensusState;

verus! {

/// Publishes `root` as the current membership root; only the admin may.
pub fn handler(ctx: &SetMerkleRoot, state: &mut CensusState, root: [u8; 32]) -> (r: Result<(), CensusError>)
    ensures
        ctx.admin@ == old(state).admin@ ==> r is Ok && *final(state) == (CensusState {
            merkle_root: root,
            ..*old(state)
        }),
        ctx.admin@ != old(state).admin@ ==> r == Err::<(), CensusError>(CensusError::UnauthorizedAdmin)
            && *final(state) == *old(state),
{
    if !bytes_eq(&ctx.admin, &state.admin) {
        return Err(CensusError::UnauthorizedAdmin);
    }
    state.merkle_root = root;
    Ok(())
}

} // verus!
