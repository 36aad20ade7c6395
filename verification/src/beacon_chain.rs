//! The chain as attestation verification sees it.

use vstd::prelude::*;
use crate::attestation::{Attestation, IndexedAttestationView};
use crate::chain_spec::{ChainConfig, ChainSpec, Fork};
use crate::committee_cache::{CommitteeCache, CommitteeCacheView, RelativeEpoch};
use crate::errors::BeaconChainError;
use crate::fork_choice::{ForkChoice, ProtoBlock};
use crate::hash256::{Hash256, PublicKey};
use crate::observed_attestations::ObservedAttestations;
use crate::observed_attesters::{ObservedAggregators, ObservedAttesters, ObservedAttestersView};
use crate::shuffling_cache::ShufflingCache;
use crate::signature_sets::SignatureSet;
use crate::slasher::Slasher;
use crate::slot_epoch::{Epoch, Slot};
use crate::validator_pubkey_cache::ValidatorPubkeyCache;

verus! {

/// What the slot clock answered when it was last read: the current slot as seen with the
/// gossip clock disparity added to the time, and with it taken off. `None` where the clock
/// could not say.
#[derive(Clone, Copy, Debug, PartialEq, Eq)]
pub struct SlotClock {
    pub now_with_future_tolerance: Option<Slot>,
    pub now_with_past_tolerance: Option<Slot>,
}

impl SlotClock {
    /// The reading of a clock that stands at `slot` and is nowhere near a slot boundary.
    pub fn at_slot(slot: Slot) -> (r: SlotClock)
        ensures
            r.now_with_future_tolerance == Some(slot),
            r.now_with_past_tolerance == Some(slot),
    {
        SlotClock { now_with_future_tolerance: Some(slot), now_with_past_tolerance: Some(slot) }
    }
}

/// What a chain is built on and does not itself decide: the store of beacon states, the state
/// transition, the signature scheme and the pools.
///
/// No method promises anything of what it returns. Whatever an implementation answers, the
/// chain's verified functions keep their contracts.
pub trait BeaconChainTypes {
    /// A beacon state as the store hands it out.
    type BeaconState;

    /// Reads the state with root `state_root` from the store. The state may carry stale roots
    /// of its latest slots; its shuffling is right. `Ok(None)` where the store has no such
    /// state.
    fn get_inconsistent_state_for_attestation_verification_only(
        &self,
        state_root: &Hash256,
        slot: Option<Slot>,
    ) -> Result<Option<Self::BeaconState>, BeaconChainError>;

    /// The slot `state` stands at.
    fn state_slot(&self, state: &Self::BeaconState) -> Slot;

    /// Advances `state` by one empty slot and gives it back. With `state_root` given, that
    /// root is taken for the state's own instead of hashing the state.
    fn per_slot_processing(
        &self,
        state: Self::BeaconState,
        state_root: Option<Hash256>,
        spec: &ChainSpec,
    ) -> Result<Self::BeaconState, BeaconChainError>;

    /// Builds the committees of the epoch that lies at `relative_epoch` from `state`.
    fn build_committee_cache(
        &self,
        state: Self::BeaconState,
        relative_epoch: RelativeEpoch,
        spec: &ChainSpec,
    ) -> Result<CommitteeCache, BeaconChainError>;

    /// Whether the signature of `set` is valid.
    fn verify_signature_set(&self, set: &SignatureSet) -> bool;

    /// Whether every signature of `sets` is valid, checked as one batch.
    fn verify_signature_sets(&self, sets: &Vec<SignatureSet>) -> bool;

    /// Hands a verified unaggregated attestation to the pool that aggregates them.
    fn add_to_naive_aggregation_pool(&self, attestation: &Attestation) -> Result<
        (),
        BeaconChainError,
    >;

    /// Hands a verified aggregate to the pool from which blocks are filled.
    fn add_to_block_inclusion_pool(&self, attestation: &Attestation) -> Result<
        (),
        BeaconChainError,
    >;
}

/// The chain as attestation verification sees it: the constants, the clock's last reading,
/// the block index and the caches.
pub struct BeaconChain<T: BeaconChainTypes> {
    pub spec: ChainSpec,
    pub config: ChainConfig,
    pub collaborators: T,
    pub slot_clock: SlotClock,
    /// The fork of the canonical head.
    pub fork: Fork,
    pub genesis_validators_root: Hash256,
    pub fork_choice: ForkChoice,
    pub validator_pubkey_cache: ValidatorPubkeyCache,
    pub shuffling_cache: ShufflingCache,
    pub observed_attestations: ObservedAttestations,
    pub observed_attesters: ObservedAttesters,
    pub observed_aggregators: ObservedAggregators,
    pub slasher: Option<Slasher>,
}

/// The mathematical value of a [`BeaconChain`].
pub struct BeaconChainView {
    pub spec: ChainSpec,
    pub config: ChainConfig,
    pub slot_clock: SlotClock,
    pub fork: Fork,
    pub genesis_validators_root: Hash256,
    /// The known blocks, by root.
    pub fork_choice: Map<Hash256, ProtoBlock>,
    /// The known public keys, by validator index.
    pub validator_pubkey_cache: Seq<PublicKey>,
    /// The committee caches built so far, by epoch and target root.
    pub shuffling_cache: Map<(Epoch, Hash256), CommitteeCacheView>,
    /// The roots of the aggregates that passed verification.
    pub observed_attestations: Set<Hash256>,
    pub observed_attesters: ObservedAttestersView,
    pub observed_aggregators: ObservedAttestersView,
    /// The slasher's queue, oldest first, where a slasher is attached.
    pub slasher: Option<Seq<IndexedAttestationView>>,
}

impl<T: BeaconChainTypes> View for BeaconChain<T> {
    type V = BeaconChainView;

    open spec fn view(&self) -> BeaconChainView {
        BeaconChainView {
            spec: self.spec,
            config: self.config,
            slot_clock: self.slot_clock,
            fork: self.fork,
            genesis_validators_root: self.genesis_validators_root,
            fork_choice: self.fork_choice@,
            validator_pubkey_cache: self.validator_pubkey_cache@,
            shuffling_cache: self.shuffling_cache@,
            observed_attestations: self.observed_attestations@,
            observed_attesters: self.observed_attesters@,
            observed_aggregators: self.observed_aggregators@,
            slasher: match self.slasher {
                Some(slasher) => Some(slasher@),
                None => None,
            },
        }
    }
}

impl<T: BeaconChainTypes> BeaconChain<T> {
    /// The chain is usable: an epoch has a slot, and no cache holds an entry twice.
    pub open spec fn wf(self) -> bool {
        &&& self.spec.wf()
        &&& self.fork_choice.wf()
        &&& self.shuffling_cache.wf()
        &&& self.observed_attestations.wf()
        &&& self.observed_attesters.wf()
        &&& self.observed_aggregators.wf()
    }

    /// A chain that knows no block and no key and has observed nothing. `None` where `spec`
    /// gives an epoch no slot.
    pub fn new(
        spec: ChainSpec,
        config: ChainConfig,
        collaborators: T,
        slot_clock: SlotClock,
        fork: Fork,
        genesis_validators_root: Hash256,
        slasher: Option<Slasher>,
    ) -> (r: Option<BeaconChain<T>>)
        ensures
            r.is_some() == spec.wf(),
            r matches Some(chain) ==> chain.wf() && chain.collaborators == collaborators && chain@
                == (BeaconChainView {
                spec,
                config,
                slot_clock,
                fork,
                genesis_validators_root,
                fork_choice: Map::empty(),
                validator_pubkey_cache: Seq::empty(),
                shuffling_cache: Map::empty(),
                observed_attestations: Set::empty(),
                observed_attesters: ObservedAttestersView {
                    max_validator_index: spec.validator_registry_limit,
                    seen: Set::empty(),
                },
                observed_aggregators: ObservedAttestersView {
                    max_validator_index: spec.validator_registry_limit,
                    seen: Set::empty(),
                },
                slasher: match slasher {
                    Some(s) => Some(s@),
                    None => None,
                },
            }),
    {
        if !spec.is_valid() {
            return None;
        }
        Some(
            BeaconChain {
                spec,
                config,
                collaborators,
                slot_clock,
                fork,
                genesis_validators_root,
                fork_choice: ForkChoice::new(),
                validator_pubkey_cache: ValidatorPubkeyCache::new(),
                shuffling_cache: ShufflingCache::new(),
                observed_attestations: ObservedAttestations::new(),
                observed_attesters: ObservedAttesters::new(spec.validator_registry_limit),
                observed_aggregators: ObservedAttesters::new(spec.validator_registry_limit),
                slasher,
            },
        )
    }
}

} // verus!
