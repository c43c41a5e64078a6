use vstd::prelude::*;
use crate::error::CensusError;
use crate::bytes::bytes_eq;
use crate::state::Nullifier;

verus! {

/// The store of claimed nullifiers: append-only, one receipt per nullifier hash.
pub struct NullifierRegistry {
    records: Vec<Nullifier>,
}

impl View for NullifierRegistry {
    type V = Seq<Nullifier>;

    /// The receipts, in the order in which they were claimed.
    closed spec fn view(&self) -> Seq<Nullifier> {
        self.records@
    }
}

impl NullifierRegistry {
    /// No two receipts carry the same nullifier hash.
    pub open spec fn wf(&self) -> bool {
        forall|i: int, j: int|
            0 <= i < self@.len() && 0 <= j < self@.len() && i != j
                ==> self@[i].nullifier_hash@ != self@[j].nullifier_hash@
    }

    /// Whether `h` has been claimed.
    pub open spec fn is_claimed(&self, h: Seq<u8>) -> bool {
        exists|i: int| 0 <= i < self@.len() && self@[i].nullifier_hash@ == h
    }

    /// An empty registry.
    pub fn new() -> (r: NullifierRegistry)
        ensures
            r.wf(),
            r@.len() == 0,
    {
        NullifierRegistry { records: Vec::new() }
    }

    /// Number of receipts.
    pub fn len(&self) -> (r: usize)
        ensures
            r == self@.len(),
    {
        self.records.len()
    }

    /// The receipt at position `i`.
    pub fn get(&self, i: usize) -> (r: Nullifier)
        requires
            i < self@.len(),
        ensures
            r == self@[i as int],
    {
        self.records[i]
    }

    /// Whether `h` has been claimed.
    pub fn contains(&self, h: &[u8; 32]) -> (r: bool)
        ensures
            r == self.is_claimed(h@),
    {
        let mut i: usize = 0;
        while i < self.records.len()
            invariant
                i <= self@.len(),
                self@ == self.records@,
                forall|k: int| 0 <= k < i ==> self@[k].nullifier_hash@ != h@,
            decreases self@.len() - i,
        {
            if bytes_eq(&self.records[i].nullifier_hash, h) {
                return true;
            }
            i = i + 1;
        }
        false
    }

    /// Claims `record.nullifier_hash`: succeeds, appending the receipt, exactly when
    /// the hash was never claimed before; otherwise changes nothing.
    pub fn claim(&mut self, record: Nullifier) -> (r: Result<(), CensusError>)
        requires
            old(self).wf(),
        ensures
            final(self).wf(),
            old(self).is_claimed(record.nullifier_hash@) ==> r == Err::<(), CensusError>(
                CensusError::NullifierAlreadyUsed,
            ) && final(self)@ == old(self)@,
            !old(self).is_claimed(record.nullifier_hash@) ==> r is Ok && final(self)@ == old(
                self,
            )@.push(record),
    {
        if self.contains(&record.nullifier_hash) {
            return Err(CensusError::NullifierAlreadyUsed);
        }
        self.records.push(record);
        assert(self@ == old(self)@.push(record));
        Ok(())
    }
}

/// Nullifier uniqueness: in a well-formed registry (which `new` creates and
/// every `claim` preserves, failing on a hash already present) at most one
/// receipt carries any given nullifier hash, so each hash was claimed
/// successfully at most once.
pub proof fn lemma_nullifier_claimed_at_most_once(reg: NullifierRegistry, h: Seq<u8>, i: int, j: int)
    requires
        reg.wf(),
        0 <= i < reg@.len(),
        0 <= j < reg@.len(),
        reg@[i].nullifier_hash@ == h,
        reg@[j].nullifier_hash@ == h,
    ensures
        i == j,
{
}

/// A claimed nullifier stays claimed after any later claim.
pub proof fn lemma_claim_keeps_claims(before: NullifierRegistry, after: NullifierRegistry, record: Nullifier, h: Seq<u8>)
    requires
        before.is_claimed(h),
        after@ == before@ || after@ == before@.push(record),
    ensures
        after.is_claimed(h),
{
    let i = choose|i: int| 0 <= i < before@.len() && before@[i].nullifier_hash@ == h;
    assert(after@[i] == before@[i]);
}

} // verus!
