//! Attestations as they travel over the network, and their canonical indexed form.

use vstd::prelude::*;
use crate::hash256::{Hash256, Signature};
use crate::slot_epoch::{Epoch, Slot};

verus! {

/// The most validators a single committee can hold, and so the most bits a participation
/// list can carry.
pub const MAX_VALIDATORS_PER_COMMITTEE: usize = 2048;

/// A list of participation bits, one per committee position, of at most
/// `MAX_VALIDATORS_PER_COMMITTEE` bits.
#[derive(Debug, PartialEq, Eq)]
pub struct BitList {
    bits: Vec<bool>,
}

impl View for BitList {
    type V = Seq<bool>;

    closed spec fn view(&self) -> Seq<bool> {
        self.bits@
    }
}

/// How many of the first `n` bits of `bits` are set.
pub open spec fn count_set_bits(bits: Seq<bool>, n: int) -> nat
    decreases n,
{
    if n <= 0 {
        0
    } else {
        count_set_bits(bits, n - 1) + if bits[n - 1] { 1nat } else { 0nat }
    }
}

impl BitList {
    #[verifier::type_invariant]
    spec fn within_limit(self) -> bool {
        self.bits@.len() <= MAX_VALIDATORS_PER_COMMITTEE
    }

    /// The list holding exactly `bits`, unless there are more of them than a committee can
    /// have members.
    pub fn with_bits(bits: Vec<bool>) -> (r: Option<BitList>)
        ensures
            bits@.len() <= MAX_VALIDATORS_PER_COMMITTEE ==> r.is_some() && r.unwrap()@ == bits@,
            bits@.len() > MAX_VALIDATORS_PER_COMMITTEE ==> r.is_none(),
    {
        if bits.len() <= MAX_VALIDATORS_PER_COMMITTEE {
            Some(BitList { bits })
        } else {
            None
        }
    }

    pub fn len(&self) -> (r: usize)
        ensures
            r == self@.len(),
            r <= MAX_VALIDATORS_PER_COMMITTEE,
    {
        proof {
            use_type_invariant(self);
        }
        self.bits.len()
    }

    /// The bit at position `i`, or `None` past the end of the list.
    pub fn get(&self, i: usize) -> (r: Option<bool>)
        ensures
            r == if i < self@.len() { Some(self@[i as int]) } else { None },
    {
        if i < self.bits.len() {
            Some(self.bits[i])
        } else {
            None
        }
    }

    /// The number of bits that are set.
    pub fn num_set_bits(&self) -> (r: usize)
        ensures
            r == count_set_bits(self@, self@.len() as int),
    {
        let mut count: usize = 0;
        let mut i: usize = 0;
        while i < self.bits.len()
            invariant
                i <= self.bits.len(),
                count == count_set_bits(self.bits@, i as int),
                count <= i,
            decreases self.bits.len() - i,
        {
            if self.bits[i] {
                count += 1;
            }
            i += 1;
        }
        count
    }

    /// Whether no bit is set.
    pub fn is_zero(&self) -> (r: bool)
        ensures
            r == (count_set_bits(self@, self@.len() as int) == 0),
    {
        self.num_set_bits() == 0
    }

}

impl Clone for BitList {
    fn clone(&self) -> (r: Self)
        ensures
            r@ == self@,
    {
        proof {
            use_type_invariant(self);
        }
        let bits = self.bits.clone();
        assert(bits@ =~= self.bits@);
        BitList { bits }
    }
}

/// A block root together with the epoch it is a boundary of.
#[derive(Clone, Copy, Debug, PartialEq, Eq)]
pub struct Checkpoint {
    pub epoch: Epoch,
    pub root: Hash256,
}

/// What an attestation votes for.
#[derive(Clone, Copy, Debug, PartialEq, Eq)]
pub struct AttestationData {
    pub slot: Slot,
    pub index: u64,
    /// The block the attester sees as the head of the chain.
    pub beacon_block_root: Hash256,
    pub source: Checkpoint,
    pub target: Checkpoint,
}

/// A vote by some members of one committee, as it travels over the network.
#[derive(Debug, PartialEq, Eq)]
pub struct Attestation {
    pub aggregation_bits: BitList,
    pub data: AttestationData,
    pub signature: Signature,
}

/// The mathematical value of an [`Attestation`].
pub struct AttestationView {
    pub aggregation_bits: Seq<bool>,
    pub data: AttestationData,
    pub signature: Signature,
}

impl View for Attestation {
    type V = AttestationView;

    open spec fn view(&self) -> AttestationView {
        AttestationView {
            aggregation_bits: self.aggregation_bits@,
            data: self.data,
            signature: self.signature,
        }
    }
}

impl Clone for Attestation {
    fn clone(&self) -> (r: Self)
        ensures
            r@ == self@,
    {
        Attestation {
            aggregation_bits: self.aggregation_bits.clone(),
            data: self.data,
            signature: self.signature,
        }
    }
}

/// An attestation with its participation bits resolved against a committee: the validators
/// that signed, by index and in ascending order.
#[derive(Debug, PartialEq, Eq)]
pub struct IndexedAttestation {
    pub attesting_indices: Vec<u64>,
    pub data: AttestationData,
    pub signature: Signature,
}

/// The mathematical value of an [`IndexedAttestation`].
pub struct IndexedAttestationView {
    pub attesting_indices: Seq<u64>,
    pub data: AttestationData,
    pub signature: Signature,
}

impl View for IndexedAttestation {
    type V = IndexedAttestationView;

    open spec fn view(&self) -> IndexedAttestationView {
        IndexedAttestationView {
            attesting_indices: self.attesting_indices@,
            data: self.data,
            signature: self.signature,
        }
    }
}

impl DeepView for IndexedAttestation {
    type V = IndexedAttestationView;

    open spec fn deep_view(&self) -> IndexedAttestationView {
        self@
    }
}

impl Clone for IndexedAttestation {
    fn clone(&self) -> (r: Self)
        ensures
            r@ == self@,
    {
        let attesting_indices = self.attesting_indices.clone();
        assert(attesting_indices@ =~= self.attesting_indices@);
        IndexedAttestation { attesting_indices, data: self.data, signature: self.signature }
    }
}

/// An aggregate attestation with the aggregator's claim to have been selected.
#[derive(Debug, PartialEq, Eq)]
pub struct AggregateAndProof {
    pub aggregator_index: u64,
    pub aggregate: Attestation,
    pub selection_proof: Signature,
}

/// The mathematical value of an [`AggregateAndProof`].
pub struct AggregateAndProofView {
    pub aggregator_index: u64,
    pub aggregate: AttestationView,
    pub selection_proof: Signature,
}

impl View for AggregateAndProof {
    type V = AggregateAndProofView;

    open spec fn view(&self) -> AggregateAndProofView {
        AggregateAndProofView {
            aggregator_index: self.aggregator_index,
            aggregate: self.aggregate@,
            selection_proof: self.selection_proof,
        }
    }
}

impl Clone for AggregateAndProof {
    fn clone(&self) -> (r: Self)
        ensures
            r@ == self@,
    {
        AggregateAndProof {
            aggregator_index: self.aggregator_index,
            aggregate: self.aggregate.clone(),
            selection_proof: self.selection_proof,
        }
    }
}

/// An [`AggregateAndProof`] under the aggregator's signature.
#[derive(Debug, PartialEq, Eq)]
pub struct SignedAggregateAndProof {
    pub message: AggregateAndProof,
    pub signature: Signature,
}

/// The mathematical value of a [`SignedAggregateAndProof`].
pub struct SignedAggregateAndProofView {
    pub message: AggregateAndProofView,
    pub signature: Signature,
}

impl View for SignedAggregateAndProof {
    type V = SignedAggregateAndProofView;

    open spec fn view(&self) -> SignedAggregateAndProofView {
        SignedAggregateAndProofView { message: self.message@, signature: self.signature }
    }
}

impl Clone for SignedAggregateAndProof {
    fn clone(&self) -> (r: Self)
        ensures
            r@ == self@,
    {
        SignedAggregateAndProof { message: self.message.clone(), signature: self.signature }
    }
}

} // verus!
