//! The committees of one epoch under one shuffling.

use vstd::prelude::*;
use crate::slot_epoch::{Epoch, Slot};

verus! {

/// One committee: the validators that attest at `slot` under committee number `index`, in
/// committee order.
#[derive(Clone, Copy, Debug)]
pub struct BeaconCommittee<'a> {
    pub slot: Slot,
    pub index: u64,
    pub committee: &'a [u64],
}

/// Where an epoch lies relative to a state's own epoch.
#[derive(Clone, Copy, Debug, PartialEq, Eq, Structural)]
pub enum RelativeEpoch {
    Previous,
    Current,
    Next,
}

/// Why an epoch has no place relative to a state.
#[derive(Clone, Copy, Debug, PartialEq, Eq)]
pub enum RelativeEpochError {
    /// `other` lies more than one epoch before `base`.
    EpochTooLow { base: Epoch, other: Epoch },
    /// `other` lies more than one epoch after `base`.
    EpochTooHigh { base: Epoch, other: Epoch },
}

impl RelativeEpoch {
    /// Where `other` lies relative to `base`: the same epoch, the one before or the one after.
    /// Any other epoch is out of a state's reach.
    pub open spec fn relative_to(base: Epoch, other: Epoch) -> Result<
        RelativeEpoch,
        RelativeEpochError,
    > {
        if other.0 == base.0 {
            Ok(RelativeEpoch::Current)
        } else if other.0 + 1 == base.0 {
            Ok(RelativeEpoch::Previous)
        } else if other.0 == base.0 + 1 {
            Ok(RelativeEpoch::Next)
        } else if other.0 < base.0 {
            Err(RelativeEpochError::EpochTooLow { base, other })
        } else {
            Err(RelativeEpochError::EpochTooHigh { base, other })
        }
    }

    /// Where `other` lies relative to `base`.
    pub fn from_epoch(base: Epoch, other: Epoch) -> (r: Result<RelativeEpoch, RelativeEpochError>)
        ensures
            r == RelativeEpoch::relative_to(base, other),
    {
        if other.0 == base.0 {
            Ok(RelativeEpoch::Current)
        } else if other.0 < base.0 {
            if base.0 - other.0 == 1 {
                Ok(RelativeEpoch::Previous)
            } else {
                Err(RelativeEpochError::EpochTooLow { base, other })
            }
        } else {
            if other.0 - base.0 == 1 {
                Ok(RelativeEpoch::Next)
            } else {
                Err(RelativeEpochError::EpochTooHigh { base, other })
            }
        }
    }
}

/// Every committee of one epoch. The committee of slot `s` and committee number `i` stands at
/// position `(s mod slots_per_epoch) * committees_per_slot + i`.
#[derive(Debug, PartialEq, Eq)]
pub struct CommitteeCache {
    initialized_epoch: Epoch,
    slots_per_epoch: u64,
    committees_per_slot: u64,
    committees: Vec<Vec<u64>>,
}

/// The mathematical value of a [`CommitteeCache`].
pub struct CommitteeCacheView {
    pub initialized_epoch: Epoch,
    pub slots_per_epoch: u64,
    pub committees_per_slot: u64,
    pub committees: Seq<Seq<u64>>,
}

impl CommitteeCacheView {
    /// Where the committee of `slot` and `index` stands among `committees`.
    pub open spec fn position(self, slot: Slot, index: u64) -> int {
        (slot.0 % self.slots_per_epoch) * self.committees_per_slot + index
    }

    /// Whether the cache has a committee for `slot` and `index`: the slot lies in the cache's
    /// epoch and the epoch has that many committees per slot.
    pub open spec fn has_committee(self, slot: Slot, index: u64) -> bool {
        &&& self.slots_per_epoch > 0
        &&& slot.epoch_of(self.slots_per_epoch) == self.initialized_epoch
        &&& index < self.committees_per_slot
        &&& self.position(slot, index) < self.committees.len()
    }

    /// The committee of `slot` and `index`, where the cache has one.
    pub open spec fn committee(self, slot: Slot, index: u64) -> Option<Seq<u64>> {
        if self.has_committee(slot, index) {
            Some(self.committees[self.position(slot, index)])
        } else {
            None
        }
    }
}

impl View for CommitteeCache {
    type V = CommitteeCacheView;

    closed spec fn view(&self) -> CommitteeCacheView {
        CommitteeCacheView {
            initialized_epoch: self.initialized_epoch,
            slots_per_epoch: self.slots_per_epoch,
            committees_per_slot: self.committees_per_slot,
            committees: self.committees.deep_view(),
        }
    }
}

impl CommitteeCache {
    #[verifier::type_invariant]
    spec fn consistent(self) -> bool {
        &&& self.slots_per_epoch > 0
        &&& self.committees@.len() == self.slots_per_epoch * self.committees_per_slot
    }

    /// The cache of `epoch` holding `committees`, slot by slot and within a slot by committee
    /// number. `None` unless an epoch has a slot and there is exactly one committee for each
    /// slot and committee number.
    pub fn new(
        epoch: Epoch,
        slots_per_epoch: u64,
        committees_per_slot: u64,
        committees: Vec<Vec<u64>>,
    ) -> (r: Option<CommitteeCache>)
        ensures
            r.is_some() <==> slots_per_epoch > 0 && committees@.len() == slots_per_epoch
                * committees_per_slot,
            r matches Some(cache) ==> cache@ == (CommitteeCacheView {
                initialized_epoch: epoch,
                slots_per_epoch,
                committees_per_slot,
                committees: committees.deep_view(),
            }),
    {
        if slots_per_epoch == 0 {
            return None;
        }
        match slots_per_epoch.checked_mul(committees_per_slot) {
            Some(count) => {
                if committees.len() as u64 == count {
                    Some(
                        CommitteeCache {
                            initialized_epoch: epoch,
                            slots_per_epoch,
                            committees_per_slot,
                            committees,
                        },
                    )
                } else {
                    None
                }
            },
            None => {
                assert(committees@.len() == committees.len());
                None
            },
        }
    }

    /// The epoch whose committees the cache holds.
    pub fn initialized_epoch(&self) -> (r: Epoch)
        ensures
            r == self@.initialized_epoch,
    {
        self.initialized_epoch
    }

    /// How many committees attest in each slot of the epoch.
    pub fn committees_per_slot(&self) -> (r: u64)
        ensures
            r == self@.committees_per_slot,
    {
        self.committees_per_slot
    }

    /// The committee of `slot` and `index`, or `None` where the cache has none.
    pub fn get_beacon_committee(&self, slot: Slot, index: u64) -> (r: Option<BeaconCommittee<'_>>)
        ensures
            r.is_some() == self@.committee(slot, index).is_some(),
            r matches Some(c) ==> c.slot == slot && c.index == index && Some(c.committee@)
                == self@.committee(slot, index),
    {
        proof {
            use_type_invariant(self);
        }
        if slot.epoch(self.slots_per_epoch).0 != self.initialized_epoch.0 || index
            >= self.committees_per_slot {
            return None;
        }
        let in_epoch: u64 = slot.position_in_epoch(self.slots_per_epoch);
        assert(0 <= in_epoch * self.committees_per_slot && in_epoch * self.committees_per_slot
            + index < self.slots_per_epoch * self.committees_per_slot) by (nonlinear_arith)
            requires
                0 <= in_epoch < self.slots_per_epoch,
                0 <= index < self.committees_per_slot,
        ;
        assert(self.committees@.len() == self.committees.len());
        let position: usize = (in_epoch * self.committees_per_slot + index) as usize;
        let members: &Vec<u64> = &self.committees[position];
        assert(self.committees.deep_view()[position as int] == members@);
        Some(BeaconCommittee { slot, index, committee: members.as_slice() })
    }
}

impl Clone for CommitteeCache {
    fn clone(&self) -> (r: Self)
        ensures
            r@ == self@,
    {
        proof {
            use_type_invariant(self);
        }
        let mut committees: Vec<Vec<u64>> = Vec::new();
        let mut i: usize = 0;
        while i < self.committees.len()
            invariant
                i <= self.committees.len(),
                committees@.len() == i,
                forall|j: int| 0 <= j < i ==> committees@[j]@ == self.committees@[j]@,
            decreases self.committees.len() - i,
        {
            let members = self.committees[i].clone();
            assert(members@ =~= self.committees@[i as int]@);
            committees.push(members);
            i += 1;
        }
        assert(committees.deep_view() =~= self.committees.deep_view());
        CommitteeCache {
            initialized_epoch: self.initialized_epoch,
            slots_per_epoch: self.slots_per_epoch,
            committees_per_slot: self.committees_per_slot,
            committees,
        }
    }
}

} // verus!
