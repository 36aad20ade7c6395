//! The validators that have already been heard from in an epoch.

use vstd::prelude::*;
use crate::attestation::Attestation;
use crate::slot_epoch::Epoch;

verus! {

/// Why a query of the cache was turned down.
#[derive(Clone, Copy, Debug, PartialEq, Eq, Structural)]
pub enum ObservedAttestersError {
    /// The validator index lies above every index that can exist.
    ValidatorIndexTooHigh(u64),
}

/// For each epoch, the validators from which a message of one kind has been accepted: the
/// attesters of single attestations, or the aggregators of aggregates.
#[derive(Debug)]
pub struct ObservedAttesters {
    max_validator_index: u64,
    seen: Vec<(Epoch, u64)>,
}

/// The aggregators from which an aggregate has been accepted, by epoch.
pub type ObservedAggregators = ObservedAttesters;

/// The mathematical value of an [`ObservedAttesters`]: the pairs of epoch and validator that
/// have been observed, and the largest validator index that is accepted.
pub struct ObservedAttestersView {
    pub max_validator_index: u64,
    pub seen: Set<(Epoch, u64)>,
}

impl ObservedAttestersView {
    /// What a query about `validator_index` in `epoch` answers: whether the pair has been
    /// observed, unless the index lies above every index that can exist.
    pub open spec fn observed(self, epoch: Epoch, validator_index: u64) -> Result<
        bool,
        ObservedAttestersError,
    > {
        if validator_index > self.max_validator_index {
            Err(ObservedAttestersError::ValidatorIndexTooHigh(validator_index))
        } else {
            Ok(self.seen.contains((epoch, validator_index)))
        }
    }

    /// The cache after `validator_index` was observed in `epoch`: it holds the pair, unless
    /// the index is turned down. A pair that was held is not held twice.
    pub open spec fn observe(self, epoch: Epoch, validator_index: u64) -> ObservedAttestersView {
        if validator_index > self.max_validator_index || self.seen.contains(
            (epoch, validator_index),
        ) {
            self
        } else {
            ObservedAttestersView {
                max_validator_index: self.max_validator_index,
                seen: self.seen.insert((epoch, validator_index)),
            }
        }
    }
}

impl View for ObservedAttesters {
    type V = ObservedAttestersView;

    closed spec fn view(&self) -> ObservedAttestersView {
        ObservedAttestersView {
            max_validator_index: self.max_validator_index,
            seen: self.seen@.to_set(),
        }
    }
}

impl ObservedAttesters {
    /// No pair of epoch and validator is stored twice.
    pub closed spec fn wf(self) -> bool {
        self.seen@.no_duplicates()
    }

    /// A cache that has observed nobody and accepts validator indices up to
    /// `max_validator_index`.
    pub fn new(max_validator_index: u64) -> (r: ObservedAttesters)
        ensures
            r.wf(),
            r@ == (ObservedAttestersView { max_validator_index, seen: Set::empty() }),
    {
        let r = ObservedAttesters { max_validator_index, seen: Vec::new() };
        assert(r.seen@.to_set() =~= Set::<(Epoch, u64)>::empty());
        r
    }

    /// How many pairs of epoch and validator have been observed.
    pub fn len(&self) -> (r: usize)
        requires
            self.wf(),
        ensures
            r == self@.seen.len(),
            self@.seen.finite(),
    {
        proof {
            self.seen@.unique_seq_to_set();
        }
        self.seen.len()
    }

    /// Whether a message from `validator_index` has been accepted in the target epoch of
    /// `attestation`.
    pub fn validator_has_been_observed(
        &self,
        attestation: &Attestation,
        validator_index: u64,
    ) -> (r: Result<bool, ObservedAttestersError>)
        ensures
            r == self@.observed(attestation.data.target.epoch, validator_index),
    {
        if validator_index > self.max_validator_index {
            return Err(ObservedAttestersError::ValidatorIndexTooHigh(validator_index));
        }
        let epoch = attestation.data.target.epoch;
        let mut i: usize = 0;
        while i < self.seen.len()
            invariant
                i <= self.seen.len(),
                epoch == attestation.data.target.epoch,
                validator_index <= self.max_validator_index,
                forall|j: int| 0 <= j < i ==> self.seen@[j] != (epoch, validator_index),
            decreases self.seen.len() - i,
        {
            let entry = self.seen[i];
            if entry.0.0 == epoch.0 && entry.1 == validator_index {
                assert(self.seen@[i as int] == (epoch, validator_index));
                assert(self.seen@.contains((epoch, validator_index)));
                return Ok(true);
            }
            i += 1;
        }
        Ok(false)
    }

    /// Records that a message from `validator_index` was accepted in the target epoch of
    /// `attestation`, and says whether one had been accepted before. A validator index above
    /// the limit is turned down and nothing is recorded.
    pub fn observe_validator(&mut self, attestation: &Attestation, validator_index: u64) -> (r:
        Result<bool, ObservedAttestersError>)
        requires
            old(self).wf(),
        ensures
            final(self).wf(),
            r == old(self)@.observed(attestation.data.target.epoch, validator_index),
            final(self)@ == old(self)@.observe(attestation.data.target.epoch, validator_index),
    {
        match self.validator_has_been_observed(attestation, validator_index) {
            Err(e) => Err(e),
            Ok(true) => Ok(true),
            Ok(false) => {
                let ghost before = self.seen@;
                self.seen.push((attestation.data.target.epoch, validator_index));
                proof {
                    before.lemma_push_to_set_commute(
                        (attestation.data.target.epoch, validator_index),
                    );
                }
                Ok(false)
            },
        }
    }
}

} // verus!
