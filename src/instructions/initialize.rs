use vstd::prelude::*;
use crate::contexts::Initialize;
use crate::state::CensusState;

verus! {

/// Whether `s` is the ledger that `initialize` creates: the caller is admin,
/// the root and tree address are all zeros, the scope is 1 and starts now,
/// the counters are zero and submissions are accepted.
pub open spec fn is_initial_state(s: CensusState, ctx: Initialize, scope_duration: i64) -> bool {
    &&& s.admin == ctx.admin
    &&& s.merkle_root@ == Seq::new(32, |i: int| 0u8)
    &&& s.merkle_tree@ == Seq::new(32, |i: int| 0u8)
    &&& s.current_scope == 1
    &&& s.scope_start_time == ctx.now
    &&& s.scope_duration == scope_duration
    &&& s.total_registered == 0
    &&& s.current_population == 0
    &&& s.leaf_count == 0
    &&& s.is_active
    &&& s.bump == ctx.bump
}

/// Creates the census ledger: the caller becomes admin, the scope is 1, the
/// counters are zero, the root is all zeros and submissions are accepted.
pub fn handler(ctx: &Initialize, scope_duration: i64) -> (r: CensusState)
    ensures
        is_initial_state(r, *ctx, scope_duration),
{
    let r = CensusState {
        admin: ctx.admin,
        merkle_root: [0u8; 32],
        merkle_tree: [0u8; 32],
        current_scope: 1,
        scope_start_time: ctx.now,
        scope_duration,
        total_registered: 0,
        current_population: 0,
        leaf_count: 0,
        is_active: true,
        bump: ctx.bump,
    };
    assert(r.merkle_root@ =~= Seq::new(32, |i: int| 0u8));
    assert(r.merkle_tree@ =~= Seq::new(32, |i: int| 0u8));
    r
}

} // verus!
