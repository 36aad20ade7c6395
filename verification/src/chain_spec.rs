//! Protocol constants and the fork schedule.

use vstd::prelude::*;
use crate::slot_epoch::Epoch;

verus! {

/// How far the local clock may disagree with a peer's before a message counts as mistimed,
/// in milliseconds.
pub const MAXIMUM_GOSSIP_CLOCK_DISPARITY_MILLIS: u64 = 500;

/// The protocol constants that attestation verification reads.
#[derive(Clone, Copy, Debug, PartialEq, Eq)]
pub struct ChainSpec {
    pub slots_per_epoch: u64,
    pub target_aggregators_per_committee: u64,
    pub attestation_subnet_count: u64,
    /// No validator index above this one can exist.
    pub validator_registry_limit: u64,
    pub domain_beacon_attester: u32,
    pub domain_selection_proof: u32,
    pub domain_aggregate_and_proof: u32,
}

impl ChainSpec {
    /// A specification is usable when an epoch has at least one slot.
    pub open spec fn wf(self) -> bool {
        self.slots_per_epoch > 0
    }

    /// Whether the specification is usable.
    pub fn is_valid(&self) -> (r: bool)
        ensures
            r == self.wf(),
    {
        self.slots_per_epoch > 0
    }

    /// The constants of the main network.
    pub fn mainnet() -> (r: ChainSpec)
        ensures
            r.wf(),
            r.slots_per_epoch == 32,
            r.target_aggregators_per_committee == 16,
            r.attestation_subnet_count == 64,
            r.validator_registry_limit == 0x100_0000_0000,
            r.domain_beacon_attester == 1,
            r.domain_selection_proof == 5,
            r.domain_aggregate_and_proof == 6,
    {
        ChainSpec {
            slots_per_epoch: 32,
            target_aggregators_per_committee: 16,
            attestation_subnet_count: 64,
            validator_registry_limit: 0x100_0000_0000,
            domain_beacon_attester: 1,
            domain_selection_proof: 5,
            domain_aggregate_and_proof: 6,
        }
    }

    /// The constants of the small test network: as the main network, with epochs of eight
    /// slots.
    pub fn minimal() -> (r: ChainSpec)
        ensures
            r.wf(),
            r.slots_per_epoch == 8,
            r.target_aggregators_per_committee == 16,
            r.attestation_subnet_count == 64,
            r.validator_registry_limit == 0x100_0000_0000,
            r.domain_beacon_attester == 1,
            r.domain_selection_proof == 5,
            r.domain_aggregate_and_proof == 6,
    {
        let base = ChainSpec::mainnet();
        ChainSpec {
            slots_per_epoch: 8,
            target_aggregators_per_committee: base.target_aggregators_per_committee,
            attestation_subnet_count: base.attestation_subnet_count,
            validator_registry_limit: base.validator_registry_limit,
            domain_beacon_attester: base.domain_beacon_attester,
            domain_selection_proof: base.domain_selection_proof,
            domain_aggregate_and_proof: base.domain_aggregate_and_proof,
        }
    }
}

/// The fork the chain is on and the one it came from.
#[derive(Clone, Copy, Debug, PartialEq, Eq)]
pub struct Fork {
    pub previous_version: [u8; 4],
    pub current_version: [u8; 4],
    /// The epoch at which `current_version` took over.
    pub epoch: Epoch,
}

impl Fork {
    /// The fork version in force at `epoch`.
    pub open spec fn version_at(self, epoch: Epoch) -> [u8; 4] {
        if epoch.0 < self.epoch.0 {
            self.previous_version
        } else {
            self.current_version
        }
    }

    /// The fork version in force at `epoch`.
    pub fn get_fork_version(&self, epoch: Epoch) -> (r: [u8; 4])
        ensures
            r == self.version_at(epoch),
    {
        if epoch.0 < self.epoch.0 {
            self.previous_version
        } else {
            self.current_version
        }
    }
}

/// How the node is configured.
#[derive(Clone, Copy, Debug, PartialEq, Eq)]
pub struct ChainConfig {
    /// The most slots an unaggregated attestation may lie past the block it votes for.
    /// `None` sets no limit.
    pub import_max_skip_slots: Option<u64>,
    /// Whether the slasher is given rejected attestations whose signature was never checked.
    /// Those whose signature was found valid reach it in any case.
    pub slasher_takes_unchecked_signatures: bool,
}

impl ChainConfig {
    /// No limit on skipped slots, and a slasher that takes whatever can be indexed.
    pub fn new() -> (r: ChainConfig)
        ensures
            r == (ChainConfig {
                import_max_skip_slots: None,
                slasher_takes_unchecked_signatures: true,
            }),
    {
        ChainConfig { import_max_skip_slots: None, slasher_takes_unchecked_signatures: true }
    }
}

} // verus!
