//! From an attestation and its committee to the validators that signed.

use vstd::prelude::*;
use vstd::relations::{sorted_by, total_ordering};
use vstd::seq_lib::lemma_sorted_unique;
use crate::attestation::{
    Attestation,
    AttestationView,
    BitList,
    IndexedAttestation,
    IndexedAttestationView,
};
use crate::errors::AttestationValidationError;

verus! {

/// The order of validator indices: ascending.
pub open spec fn ascending() -> spec_fn(u64, u64) -> bool {
    |a: u64, b: u64| a <= b
}

/// The members of `committee` among its first `n` positions whose bit is set, in committee
/// order.
pub open spec fn selected_members(committee: Seq<u64>, bits: Seq<bool>, n: int) -> Seq<u64>
    decreases n,
{
    if n <= 0 {
        Seq::empty()
    } else if bits[n - 1] {
        selected_members(committee, bits, n - 1).push(committee[n - 1])
    } else {
        selected_members(committee, bits, n - 1)
    }
}

/// The validators that signed: the members of `committee` whose bit is set, by ascending
/// validator index.
pub open spec fn attesting_indices_of(committee: Seq<u64>, bits: Seq<bool>) -> Seq<u64> {
    selected_members(committee, bits, committee.len() as int).sort_by(ascending())
}

/// The indexed form of `attestation` under `committee`, or the reason there is none: the
/// participation list must have one bit for every member of the committee.
pub open spec fn indexed_attestation_of(committee: Seq<u64>, attestation: AttestationView) -> Result<
    IndexedAttestationView,
    AttestationValidationError,
> {
    if attestation.aggregation_bits.len() != committee.len() {
        Err(
            AttestationValidationError::BadAggregationBitfieldLength {
                committee_len: committee.len() as usize,
                bitfield_len: attestation.aggregation_bits.len() as usize,
            },
        )
    } else {
        Ok(
            IndexedAttestationView {
                attesting_indices: attesting_indices_of(committee, attestation.aggregation_bits),
                data: attestation.data,
                signature: attestation.signature,
            },
        )
    }
}

/// Ascending order of validator indices is a total order.
pub proof fn lemma_ascending_is_total()
    ensures
        total_ordering(ascending()),
{
}

/// Puts `validator` into `sorted`, which is in ascending order, so that it stays in ascending
/// order.
fn insert_ascending(sorted: &mut Vec<u64>, validator: u64)
    requires
        sorted_by(old(sorted)@, ascending()),
    ensures
        sorted_by(final(sorted)@, ascending()),
        final(sorted)@.to_multiset() == old(sorted)@.to_multiset().insert(validator),
        final(sorted)@.len() == old(sorted)@.len() + 1,
{
    let mut position: usize = 0;
    while position < sorted.len() && sorted[position] <= validator
        invariant
            position <= sorted.len(),
            sorted@ == old(sorted)@,
            forall|j: int| 0 <= j < position ==> sorted@[j] <= validator,
        decreases sorted.len() - position,
    {
        position += 1;
    }
    let ghost before = sorted@;
    sorted.insert(position, validator);
    proof {
        vstd::seq_lib::to_multiset_insert(before, position as int, validator);
        assert forall|i: int, j: int| 0 <= i < j < sorted@.len() implies ascending()(
            sorted@[i],
            sorted@[j],
        ) by {
            if i < position && j > position {
                assert(before[i] <= before[j - 1]) by {
                    assert(ascending()(before[i], before[j - 1]));
                }
            } else if i < position && j < position {
                assert(ascending()(before[i], before[j]));
            } else if i > position {
                assert(ascending()(before[i - 1], before[j - 1]));
            } else if i == position {
                assert(before[position as int] > validator);
                if j - 1 > position {
                    assert(ascending()(before[position as int], before[j - 1]));
                }
            }
        }
    }
}

/// The validators that signed `bits` in `committee`, by ascending validator index.
pub fn get_attesting_indices(committee: &[u64], bits: &BitList) -> (r: Result<
    Vec<u64>,
    AttestationValidationError,
>)
    ensures
        match r {
            Ok(indices) => {
                &&& bits@.len() == committee@.len()
                &&& indices@ == attesting_indices_of(committee@, bits@)
                &&& sorted_by(indices@, ascending())
                &&& indices@.to_multiset() == selected_members(
                    committee@,
                    bits@,
                    committee@.len() as int,
                ).to_multiset()
            },
            Err(e) => bits@.len() != committee@.len() && e
                == (AttestationValidationError::BadAggregationBitfieldLength {
                committee_len: committee@.len() as usize,
                bitfield_len: bits@.len() as usize,
            }),
        },
{
    if bits.len() != committee.len() {
        return Err(
            AttestationValidationError::BadAggregationBitfieldLength {
                committee_len: committee.len(),
                bitfield_len: bits.len(),
            },
        );
    }
    let mut indices: Vec<u64> = Vec::new();
    let mut i: usize = 0;
    while i < committee.len()
        invariant
            i <= committee.len(),
            bits@.len() == committee@.len(),
            sorted_by(indices@, ascending()),
            indices@.to_multiset() == selected_members(
                committee@,
                bits@,
                i as int,
            ).to_multiset(),
        decreases committee.len() - i,
    {
        let set = match bits.get(i) {
            Some(bit) => bit,
            None => false,
        };
        if set {
            proof {
                vstd::seq_lib::to_multiset_build(
                    selected_members(committee@, bits@, i as int),
                    committee@[i as int],
                );
            }
            insert_ascending(&mut indices, committee[i]);
        }
        i += 1;
    }
    proof {
        let selected = selected_members(committee@, bits@, committee@.len() as int);
        lemma_ascending_is_total();
        selected.lemma_sort_by_ensures(ascending());
        lemma_sorted_unique(indices@, selected.sort_by(ascending()), ascending());
    }
    Ok(indices)
}

/// The indexed form of `attestation` under `committee`.
pub fn get_indexed_attestation(committee: &[u64], attestation: &Attestation) -> (r: Result<
    IndexedAttestation,
    AttestationValidationError,
>)
    ensures
        match r {
            Ok(indexed) => Ok::<IndexedAttestationView, AttestationValidationError>(indexed@)
                == indexed_attestation_of(committee@, attestation@),
            Err(e) => Err::<IndexedAttestationView, AttestationValidationError>(e)
                == indexed_attestation_of(committee@, attestation@),
        },
{
    match get_attesting_indices(committee, &attestation.aggregation_bits) {
        Ok(attesting_indices) => Ok(
            IndexedAttestation {
                attesting_indices,
                data: attestation.data,
                signature: attestation.signature,
            },
        ),
        Err(e) => Err(e),
    }
}

} // verus!
