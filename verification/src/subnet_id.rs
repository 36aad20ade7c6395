//! The gossip subnet an unaggregated attestation belongs on.

use vstd::prelude::*;
use crate::attestation::AttestationData;
use crate::chain_spec::ChainSpec;
use crate::errors::ArithError;
use crate::slot_epoch::Slot;

verus! {

/// A partition of the gossip topic for unaggregated attestations.
#[derive(Clone, Copy, Debug, PartialEq, Eq, Structural, Hash)]
pub struct SubnetId(pub u64);

impl SubnetId {
    pub fn new(id: u64) -> (r: SubnetId)
        ensures
            r.0 == id,
    {
        SubnetId(id)
    }

    /// The subnet of the committee `committee_index` of `slot`, in an epoch with
    /// `committee_count_at_slot` committees per slot: the committees of an epoch are numbered
    /// slot by slot, and the subnet is that number modulo the count of subnets. There is no
    /// subnet where an epoch has no slot, where there is no subnet at all, or where the
    /// committee's number does not fit in 64 bits.
    pub open spec fn subnet_of(
        slot: Slot,
        committee_index: u64,
        committee_count_at_slot: u64,
        spec: ChainSpec,
    ) -> Result<SubnetId, ArithError> {
        if spec.slots_per_epoch == 0 {
            Err(ArithError::DivisionByZero)
        } else if committee_count_at_slot * (slot.0 % spec.slots_per_epoch) > u64::MAX {
            Err(ArithError::Overflow)
        } else if committee_count_at_slot * (slot.0 % spec.slots_per_epoch) + committee_index
            > u64::MAX {
            Err(ArithError::Overflow)
        } else if spec.attestation_subnet_count == 0 {
            Err(ArithError::DivisionByZero)
        } else {
            Ok(
                SubnetId(
                    ((committee_count_at_slot * (slot.0 % spec.slots_per_epoch) + committee_index)
                        % spec.attestation_subnet_count as int) as u64,
                ),
            )
        }
    }

    /// The subnet of the committee `committee_index` of `slot`.
    pub fn compute_subnet(
        slot: Slot,
        committee_index: u64,
        committee_count_at_slot: u64,
        spec: &ChainSpec,
    ) -> (r: Result<SubnetId, ArithError>)
        ensures
            r == SubnetId::subnet_of(slot, committee_index, committee_count_at_slot, *spec),
    {
        if spec.slots_per_epoch == 0 {
            return Err(ArithError::DivisionByZero);
        }
        let slots_since_epoch_start: u64 = slot.0 % spec.slots_per_epoch;
        let committees_since_epoch_start: u64 = match committee_count_at_slot.checked_mul(
            slots_since_epoch_start,
        ) {
            Some(product) => product,
            None => {
                return Err(ArithError::Overflow);
            },
        };
        let committee_number: u64 = match committees_since_epoch_start.checked_add(
            committee_index,
        ) {
            Some(sum) => sum,
            None => {
                return Err(ArithError::Overflow);
            },
        };
        if spec.attestation_subnet_count == 0 {
            return Err(ArithError::DivisionByZero);
        }
        Ok(SubnetId(committee_number % spec.attestation_subnet_count))
    }

    /// The subnet that an attestation with data `data` belongs on.
    pub fn compute_subnet_for_attestation_data(
        data: &AttestationData,
        committee_count_per_slot: u64,
        spec: &ChainSpec,
    ) -> (r: Result<SubnetId, ArithError>)
        ensures
            r == SubnetId::subnet_of(data.slot, data.index, committee_count_per_slot, *spec),
    {
        SubnetId::compute_subnet(data.slot, data.index, committee_count_per_slot, spec)
    }
}

} // verus!
