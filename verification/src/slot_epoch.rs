//! Slots and epochs.

use vstd::prelude::*;

verus! {

/// A point on the chain's time axis, counted from genesis.
#[derive(Clone, Copy, Debug, PartialEq, Eq, Structural, Hash)]
pub struct Slot(pub u64);

/// A run of `slots_per_epoch` consecutive slots, counted from genesis.
#[derive(Clone, Copy, Debug, PartialEq, Eq, Structural, Hash)]
pub struct Epoch(pub u64);

impl Slot {
    pub fn new(slot: u64) -> (r: Slot)
        ensures
            r.0 == slot,
    {
        Slot(slot)
    }

    pub fn as_u64(&self) -> (r: u64)
        ensures
            r == self.0,
    {
        self.0
    }

    /// The epoch this slot lies in.
    pub open spec fn epoch_of(self, slots_per_epoch: u64) -> Epoch {
        Epoch((self.0 as int / slots_per_epoch as int) as u64)
    }

    /// The epoch this slot lies in.
    pub fn epoch(&self, slots_per_epoch: u64) -> (r: Epoch)
        requires
            slots_per_epoch > 0,
        ensures
            r == self.epoch_of(slots_per_epoch),
    {
        Epoch(self.0 / slots_per_epoch)
    }

    /// How far into its epoch this slot lies.
    pub fn position_in_epoch(&self, slots_per_epoch: u64) -> (r: u64)
        requires
            slots_per_epoch > 0,
        ensures
            r == self.0 % slots_per_epoch,
            r < slots_per_epoch,
    {
        self.0 % slots_per_epoch
    }

    /// `self + slots`, held at the largest slot where the sum does not fit.
    pub fn saturating_add(&self, slots: u64) -> (r: Slot)
        ensures
            r.0 == if self.0 + slots <= u64::MAX { self.0 + slots } else { u64::MAX as int },
    {
        if slots <= u64::MAX - self.0 {
            Slot(self.0 + slots)
        } else {
            Slot(u64::MAX)
        }
    }

    /// `self - slots`, held at slot zero where `slots` reaches back before genesis.
    pub fn saturating_sub(&self, slots: u64) -> (r: Slot)
        ensures
            r.0 == if self.0 >= slots { self.0 - slots } else { 0 },
    {
        if self.0 >= slots {
            Slot(self.0 - slots)
        } else {
            Slot(0)
        }
    }
}

impl Epoch {
    pub fn new(epoch: u64) -> (r: Epoch)
        ensures
            r.0 == epoch,
    {
        Epoch(epoch)
    }

    pub fn as_u64(&self) -> (r: u64)
        ensures
            r == self.0,
    {
        self.0
    }
}

} // verus!
