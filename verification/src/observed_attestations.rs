//! The attestations that have passed verification, by root.

use vstd::prelude::*;
use crate::hash256::Hash256;

verus! {

/// What observing an attestation found.
#[derive(Clone, Copy, Debug, PartialEq, Eq, Structural)]
pub enum ObserveOutcome {
    /// The attestation had been observed before.
    AlreadyKnown,
    /// The attestation is observed for the first time.
    New,
}

/// The roots of the aggregate attestations that passed verification.
#[derive(Debug)]
pub struct ObservedAttestations {
    roots: Vec<Hash256>,
}

impl View for ObservedAttestations {
    type V = Set<Hash256>;

    closed spec fn view(&self) -> Set<Hash256> {
        self.roots@.to_set()
    }
}

impl ObservedAttestations {
    /// No root is stored twice.
    pub closed spec fn wf(self) -> bool {
        self.roots@.no_duplicates()
    }

    /// A cache that has observed nothing.
    pub fn new() -> (r: ObservedAttestations)
        ensures
            r.wf(),
            r@ == Set::<Hash256>::empty(),
    {
        let r = ObservedAttestations { roots: Vec::new() };
        assert(r.roots@.to_set() =~= Set::<Hash256>::empty());
        r
    }

    /// How many attestations have been observed.
    pub fn len(&self) -> (r: usize)
        requires
            self.wf(),
        ensures
            r == self@.len(),
            self@.finite(),
    {
        proof {
            self.roots@.unique_seq_to_set();
        }
        self.roots.len()
    }

    /// Whether the attestation with root `root` has been observed.
    pub fn is_known(&self, root: Hash256) -> (r: bool)
        ensures
            r == self@.contains(root),
    {
        let mut i: usize = 0;
        while i < self.roots.len()
            invariant
                i <= self.roots.len(),
                forall|j: int| 0 <= j < i ==> self.roots@[j] != root,
            decreases self.roots.len() - i,
        {
            if self.roots[i].same(&root) {
                return true;
            }
            i += 1;
        }
        false
    }

    /// Records the attestation with root `root` as observed, and says whether it already was.
    pub fn observe_attestation(&mut self, root: Hash256) -> (r: ObserveOutcome)
        requires
            old(self).wf(),
        ensures
            final(self).wf(),
            final(self)@ == if old(self)@.contains(root) {
                old(self)@
            } else {
                old(self)@.insert(root)
            },
            r == if old(self)@.contains(root) {
                ObserveOutcome::AlreadyKnown
            } else {
                ObserveOutcome::New
            },
    {
        if self.is_known(root) {
            ObserveOutcome::AlreadyKnown
        } else {
            let ghost before = self.roots@;
            self.roots.push(root);
            proof {
                before.lemma_push_to_set_commute(root);
            }
            ObserveOutcome::New
        }
    }
}

} // verus!
