//! The hand-off of attestations to the slasher.

use vstd::prelude::*;
use crate::attestation::{IndexedAttestation, IndexedAttestationView};

verus! {

/// The queue on which the slasher receives indexed attestations, oldest first.
#[derive(Debug)]
pub struct Slasher {
    attestation_queue: Vec<IndexedAttestation>,
}

impl View for Slasher {
    type V = Seq<IndexedAttestationView>;

    closed spec fn view(&self) -> Seq<IndexedAttestationView> {
        self.attestation_queue.deep_view()
    }
}

impl Slasher {
    /// A slasher with an empty queue.
    pub fn new() -> (r: Slasher)
        ensures
            r@ == Seq::<IndexedAttestationView>::empty(),
    {
        let r = Slasher { attestation_queue: Vec::new() };
        assert(r.attestation_queue.deep_view() =~= Seq::<IndexedAttestationView>::empty());
        r
    }

    /// The number of attestations waiting in the queue.
    pub fn len(&self) -> (r: usize)
        ensures
            r == self@.len(),
    {
        self.attestation_queue.len()
    }

    /// Puts `attestation` at the end of the queue.
    pub fn accept_attestation(&mut self, attestation: IndexedAttestation)
        ensures
            final(self)@ == old(self)@.push(attestation@),
    {
        self.attestation_queue.push(attestation);
        assert(self.attestation_queue.deep_view() =~= old(self).attestation_queue.deep_view().push(
            attestation@,
        ));
    }

    /// Hands out the queued attestations, oldest first, and leaves the queue empty.
    pub fn take_attestations(&mut self) -> (r: Vec<IndexedAttestation>)
        ensures
            r.deep_view() == old(self)@,
            final(self)@ == Seq::<IndexedAttestationView>::empty(),
    {
        let mut taken: Vec<IndexedAttestation> = Vec::new();
        std::mem::swap(&mut taken, &mut self.attestation_queue);
        assert(self.attestation_queue.deep_view() =~= Seq::<IndexedAttestationView>::empty());
        taken
    }
}

} // verus!
