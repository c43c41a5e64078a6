use vstd::prelude::*;

verus! {

/// The census ledger: the single aggregate that every operation reads and updates.
#[derive(Clone, Copy, Debug)]
pub struct CensusState {
    /// Identity allowed to enroll members, publish roots and rotate scopes.
    pub admin: [u8; 32],
    /// Root of the membership tree against which every proof is checked.
    pub merkle_root: [u8; 32],
    /// Address of the membership tree account.
    pub merkle_tree: [u8; 32],
    /// Current counting epoch; starts at 1 and only grows.
    pub current_scope: u64,
    /// Time at which the current scope began.
    pub scope_start_time: i64,
    /// Length of a scope in seconds (recorded, not enforced).
    pub scope_duration: i64,
    /// Identities ever enrolled.
    pub total_registered: u64,
    /// Successful submissions in the current scope.
    pub current_population: u64,
    /// Leaves ever appended to the membership tree.
    pub leaf_count: u64,
    /// Whether submissions are accepted.
    pub is_active: bool,
    /// Address-derivation bump of the ledger account.
    pub bump: u8,
}

impl CensusState {
    /// The ledger's own invariant: scopes are numbered from 1, and each
    /// enrolled identity has exactly one leaf.
    pub open spec fn wf(&self) -> bool {
        self.current_scope >= 1 && self.total_registered == self.leaf_count
    }
}

/// The receipt of one successfully claimed nullifier; never changed once made.
#[derive(Clone, Copy, Debug)]
pub struct Nullifier {
    /// The claimed nullifier hash, the uniqueness key.
    pub nullifier_hash: [u8; 32],
    /// Scope during which it was claimed.
    pub scope: u64,
    /// Time of the claim.
    pub timestamp: i64,
    /// Address-derivation bump of the receipt account.
    pub bump: u8,
}

/// Anonymous per-scope aggregates of participants and their signalled attributes.
#[derive(Clone, Copy, Debug)]
pub struct CensusAggregate {
    pub scope: u64,
    pub participant_count: u64,
    pub attribute_counts: [u64; 10],
    pub last_updated: i64,
    pub bump: u8,
}

/// Produced when an identity is enrolled.
#[derive(Clone, Copy, Debug)]
pub struct CitizenRegistered {
    pub commitment: [u8; 32],
    pub leaf_index: u64,
    pub timestamp: i64,
}

/// Produced when a submission is counted.
#[derive(Clone, Copy, Debug)]
pub struct CensusCounted {
    pub nullifier_hash: [u8; 32],
    pub scope: u64,
    pub new_population: u64,
    pub timestamp: i64,
}

/// Produced when the scope is rotated.
#[derive(Clone, Copy, Debug)]
pub struct ScopeAdvanced {
    pub old_scope: u64,
    pub new_scope: u64,
    pub final_population: u64,
    pub timestamp: i64,
}

} // verus!
