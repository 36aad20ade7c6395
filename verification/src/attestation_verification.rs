//! Verification of attestations that arrive from the network.
//!
//! Two kinds of message are verified here:
//!
//! - an unaggregated [`Attestation`], which has exactly one participation bit set;
//! - a [`SignedAggregateAndProof`], which carries an attestation with one or more
//!   participants and the aggregator's claim to have been elected.
//!
//! A message that passes becomes a [`VerifiedUnaggregatedAttestation`] or a
//! [`VerifiedAggregatedAttestation`]. Both hold the indexed form of the attestation, so that
//! what comes after verification never has to resolve the committee again.
//!
//! Verification runs cheap checks first, resolves the committee, checks the signatures and
//! only then records the message as observed. A message that is turned down comes back with
//! the reason and, where it was found, the indexed form that a slasher can use.

use vstd::prelude::*;
use crate::attestation::{
    count_set_bits,
    Attestation,
    AttestationData,
    AttestationView,
    IndexedAttestation,
    IndexedAttestationView,
    SignedAggregateAndProof,
    SignedAggregateAndProofView,
};
use crate::attesting_indices::{get_indexed_attestation, indexed_attestation_of};
use crate::beacon_chain::{BeaconChain, BeaconChainTypes, BeaconChainView, SlotClock};
use crate::chain_spec::ChainSpec;
use crate::committee_cache::{BeaconCommittee, CommitteeCache, CommitteeCacheView, RelativeEpoch};
use crate::errors::{AttestationValidationError, BeaconChainError, SignatureSetError};
use crate::fork_choice::ProtoBlock;
use crate::hash256::Hash256;
use crate::merkle::{attestation_root, attestation_tree_hash_root};
use crate::observed_attestations::ObserveOutcome;
use crate::observed_attesters::ObservedAttestersError;
use crate::selection_proof::{sha256_of, SelectionProof};
use crate::signature_sets::{
    aggregate_signature_set_of,
    indexed_attestation_signature_set_from_pubkeys,
    indexed_attestation_signature_set_of,
    selection_proof_signature_set_of,
    signed_aggregate_selection_proof_signature_set,
    signed_aggregate_signature_set,
    SignatureSet,
    SignatureSetView,
};
use crate::slot_epoch::{Epoch, Slot};
use crate::subnet_id::SubnetId;

verus! {

/// Why an attestation was not verified: either the attestation is at fault (every variant but
/// the last), or the node could not decide (`BeaconChainError`).
#[derive(Clone, Copy, Debug, PartialEq, Eq)]
pub enum Error {
    /// The attestation is from a slot later than the current one, the gossip clock disparity
    /// allowed for.
    FutureSlot { attestation_slot: Slot, latest_permissible_slot: Slot },
    /// The attestation is from a slot earlier than the earliest that is still passed on, the
    /// gossip clock disparity allowed for.
    PastSlot { attestation_slot: Slot, earliest_permissible_slot: Slot },
    /// The aggregate has no participant.
    EmptyAggregationBitfield,
    /// The selection proof of the aggregate does not elect its signer.
    InvalidSelectionProof { aggregator_index: u64 },
    /// The aggregator is not a member of the committee it aggregates for.
    AggregatorNotInCommittee { aggregator_index: u64 },
    /// No public key is known for the aggregator.
    AggregatorPubkeyUnknown(u64),
    /// The attestation has been seen before.
    AttestationAlreadyKnown(Hash256),
    /// An aggregate by this aggregator has been seen before in the epoch.
    AggregatorAlreadyKnown(u64),
    /// The validator index lies above every index that can exist.
    ValidatorIndexTooHigh(u64),
    /// The block the attestation votes for is not known.
    UnknownHeadBlock { beacon_block_root: Hash256 },
    /// The attestation's slot does not lie in its target epoch.
    BadTargetEpoch,
    /// The target block of the attestation is not known.
    UnknownTargetRoot(Hash256),
    /// A signature on the attestation is invalid.
    InvalidSignature,
    /// There is no committee for the slot and committee index of the attestation.
    NoCommitteeForSlotAndIndex { slot: Slot, index: u64 },
    /// The unaggregated attestation has this many participation bits set, and not one.
    NotExactlyOneAggregationBitSet(usize),
    /// An attestation by this validator has been seen before in the epoch.
    PriorAttestationKnown { validator_index: u64, epoch: Epoch },
    /// The attestation is for an epoch in the future.
    FutureEpoch { attestation_epoch: Epoch, current_epoch: Epoch },
    /// The attestation is for an epoch in the past.
    PastEpoch { attestation_epoch: Epoch, current_epoch: Epoch },
    /// The attestation votes for a block from a later slot than its own.
    AttestsToFutureBlock { block: Slot, attestation: Slot },
    /// The attestation arrived on another subnet than the one it belongs on.
    InvalidSubnetId { received: SubnetId, expected: SubnetId },
    /// The attestation does not fit the committee it names.
    Invalid(AttestationValidationError),
    /// The block the attestation votes for lies too many slots before the attestation.
    TooManySkippedSlots { head_block_slot: Slot, attestation_slot: Slot },
    /// The node failed; nothing is known of the attestation.
    BeaconChainError(BeaconChainError),
}

/// What a failure says of the peer that sent the message.
#[derive(Clone, Copy, Debug, PartialEq, Eq, Structural)]
pub enum PeerJudgement {
    /// The peer sent a message that no honest peer with a right clock sends.
    InvalidMessage,
    /// The message may be valid; the peer is not to blame.
    Ambiguous,
    /// The node failed; the peer is not to blame.
    InternalError,
}

impl Error {
    /// What a failure says of the peer that sent the message.
    pub open spec fn judgement(self) -> PeerJudgement {
        match self {
            Error::AttestationAlreadyKnown(_) => PeerJudgement::Ambiguous,
            Error::AggregatorAlreadyKnown(_) => PeerJudgement::Ambiguous,
            Error::PriorAttestationKnown { .. } => PeerJudgement::Ambiguous,
            Error::UnknownHeadBlock { .. } => PeerJudgement::Ambiguous,
            Error::BeaconChainError(_) => PeerJudgement::InternalError,
            _ => PeerJudgement::InvalidMessage,
        }
    }

    /// Whether the failure says that the message had been seen before.
    pub open spec fn is_already_known(self) -> bool {
        self is AttestationAlreadyKnown || self is AggregatorAlreadyKnown
            || self is PriorAttestationKnown
    }

    /// What this failure says of the peer that sent the message.
    pub fn peer_judgement(&self) -> (r: PeerJudgement)
        ensures
            r == self.judgement(),
    {
        match self {
            Error::AttestationAlreadyKnown(_) => PeerJudgement::Ambiguous,
            Error::AggregatorAlreadyKnown(_) => PeerJudgement::Ambiguous,
            Error::PriorAttestationKnown { .. } => PeerJudgement::Ambiguous,
            Error::UnknownHeadBlock { .. } => PeerJudgement::Ambiguous,
            Error::BeaconChainError(_) => PeerJudgement::InternalError,
            _ => PeerJudgement::InvalidMessage,
        }
    }

    /// The failure that an internal error surfaces as.
    pub fn from(e: BeaconChainError) -> (r: Error)
        ensures
            r == Error::BeaconChainError(e),
    {
        Error::BeaconChainError(e)
    }
}

/// A [`SignedAggregateAndProof`] that has been verified for propagation on the gossip
/// network.
#[derive(Debug)]
pub struct VerifiedAggregatedAttestation {
    signed_aggregate: SignedAggregateAndProof,
    indexed_attestation: IndexedAttestation,
}

/// An [`Attestation`] that has been verified for propagation on the gossip network.
#[derive(Debug)]
pub struct VerifiedUnaggregatedAttestation {
    attestation: Attestation,
    indexed_attestation: IndexedAttestation,
}

/// What a verified attestation of either kind offers to whatever applies it.
pub trait SignatureVerifiedAttestation {
    /// The indexed form as a mathematical value.
    spec fn indexed_view(&self) -> IndexedAttestationView;

    /// The indexed form that verification found.
    fn indexed_attestation(&self) -> (r: &IndexedAttestation)
        ensures
            r@ == self.indexed_view(),
    ;
}

/// A rejected attestation with what is known of its signature, for the slasher: an
/// attestation may be evidence of a slashable offence even though it was turned down.
#[derive(Debug)]
pub enum AttestationSlashInfo<TErr> {
    /// The attestation is invalid, and its signature was not checked.
    SignatureNotChecked(Attestation, TErr),
    /// As `SignatureNotChecked`, with the indexed form known.
    SignatureNotCheckedIndexed(IndexedAttestation, TErr),
    /// The signature is invalid: the attestation can never be evidence.
    SignatureInvalid(TErr),
    /// The signature is valid and the attestation is invalid in another way.
    SignatureValid(IndexedAttestation, TErr),
}

impl<TErr> AttestationSlashInfo<TErr> {
    /// The reason the attestation was turned down.
    pub open spec fn error(self) -> TErr {
        match self {
            AttestationSlashInfo::SignatureNotChecked(_, e) => e,
            AttestationSlashInfo::SignatureNotCheckedIndexed(_, e) => e,
            AttestationSlashInfo::SignatureInvalid(e) => e,
            AttestationSlashInfo::SignatureValid(_, e) => e,
        }
    }
}

/// The propagation check: an attestation is passed on while its slot is not later than
/// `now_future`, the clock read with the tolerance added, and not earlier than one epoch
/// before `now_past`, the clock read with the tolerance taken off. The lower bound stops at
/// slot zero. A clock that cannot be read is an internal error.
pub open spec fn propagation_slot_range(
    clock: SlotClock,
    slots_per_epoch: u64,
    attestation_slot: Slot,
) -> Result<(), Error> {
    match clock.now_with_future_tolerance {
        None => Err(Error::BeaconChainError(BeaconChainError::UnableToReadSlot)),
        Some(latest_permissible_slot) => if attestation_slot.0 > latest_permissible_slot.0 {
            Err(Error::FutureSlot { attestation_slot, latest_permissible_slot })
        } else {
            match clock.now_with_past_tolerance {
                None => Err(Error::BeaconChainError(BeaconChainError::UnableToReadSlot)),
                Some(now_past) => {
                    let earliest_permissible_slot = earliest_permissible_slot(
                        now_past,
                        slots_per_epoch,
                    );
                    if attestation_slot.0 < earliest_permissible_slot.0 {
                        Err(Error::PastSlot { attestation_slot, earliest_permissible_slot })
                    } else {
                        Ok(())
                    }
                },
            }
        },
    }
}

/// One epoch before `now_past`, and slot zero where the chain is younger than an epoch.
pub open spec fn earliest_permissible_slot(now_past: Slot, slots_per_epoch: u64) -> Slot {
    if now_past.0 >= slots_per_epoch {
        Slot((now_past.0 - slots_per_epoch) as u64)
    } else {
        Slot(0)
    }
}

/// The head block check: the block that the attestation votes for must be known to fork
/// choice, and, where `max_skip_slots` sets a limit, must not lie more than that many slots
/// before the attestation.
pub open spec fn head_block_known(
    fork_choice: Map<Hash256, ProtoBlock>,
    data: AttestationData,
    max_skip_slots: Option<u64>,
) -> Result<(), Error> {
    if !fork_choice.contains_key(data.beacon_block_root) {
        Err(Error::UnknownHeadBlock { beacon_block_root: data.beacon_block_root })
    } else {
        let block = fork_choice[data.beacon_block_root];
        match max_skip_slots {
            Some(max_skip_slots) => if data.slot.0 > block.slot.0 + max_skip_slots {
                Err(
                    Error::TooManySkippedSlots {
                        head_block_slot: block.slot,
                        attestation_slot: data.slot,
                    },
                )
            } else {
                Ok(())
            },
            None => Ok(()),
        }
    }
}

/// Checks that the block `attestation` votes for is known, and not too far behind it.
///
/// A block can be unknown because it was never imported or because it is older than the
/// finalized block. Either way the attestation is of no use.
pub fn verify_head_block_is_known<T: BeaconChainTypes>(
    chain: &BeaconChain<T>,
    attestation: &Attestation,
    max_skip_slots: Option<u64>,
) -> (r: Result<(), Error>)
    ensures
        r == head_block_known(chain@.fork_choice, attestation.data, max_skip_slots),
{
    match chain.fork_choice.get_block(&attestation.data.beacon_block_root) {
        Some(block) => {
            match max_skip_slots {
                Some(max_skip_slots) => {
                    if attestation.data.slot.0 > block.slot.saturating_add(max_skip_slots).0 {
                        return Err(
                            Error::TooManySkippedSlots {
                                head_block_slot: block.slot,
                                attestation_slot: attestation.data.slot,
                            },
                        );
                    }
                },
                None => {},
            }
            Ok(())
        },
        None => Err(
            Error::UnknownHeadBlock { beacon_block_root: attestation.data.beacon_block_root },
        ),
    }
}

/// Checks that `attestation` is from a slot that is still, and already, passed on, going by
/// the chain's clock.
pub fn verify_propagation_slot_range<T: BeaconChainTypes>(
    chain: &BeaconChain<T>,
    attestation: &Attestation,
) -> (r: Result<(), Error>)
    ensures
        r == propagation_slot_range(
            chain@.slot_clock,
            chain@.spec.slots_per_epoch,
            attestation.data.slot,
        ),
{
    let attestation_slot = attestation.data.slot;
    let latest_permissible_slot = match chain.slot_clock.now_with_future_tolerance {
        Some(slot) => slot,
        None => {
            return Err(Error::BeaconChainError(BeaconChainError::UnableToReadSlot));
        },
    };
    if attestation_slot.0 > latest_permissible_slot.0 {
        return Err(Error::FutureSlot { attestation_slot, latest_permissible_slot });
    }
    let earliest_permissible_slot = match chain.slot_clock.now_with_past_tolerance {
        Some(slot) => slot.saturating_sub(chain.spec.slots_per_epoch),
        None => {
            return Err(Error::BeaconChainError(BeaconChainError::UnableToReadSlot));
        },
    };
    if attestation_slot.0 < earliest_permissible_slot.0 {
        return Err(Error::PastSlot { attestation_slot, earliest_permissible_slot });
    }
    Ok(())
}

/// The key under which the committees that `data` needs are cached: the epoch of its slot and
/// its target root.
pub open spec fn shuffling_key(spec: ChainSpec, data: AttestationData) -> (Epoch, Hash256) {
    (data.slot.epoch_of(spec.slots_per_epoch), data.target.root)
}

/// The committee that `data` names and the number of committees per slot, as `cache` has
/// them.
pub open spec fn committee_in(cache: CommitteeCacheView, data: AttestationData) -> Result<
    (Seq<u64>, u64),
    Error,
> {
    match cache.committee(data.slot, data.index) {
        Some(members) => Ok((members, cache.committees_per_slot)),
        None => Err(Error::NoCommitteeForSlotAndIndex { slot: data.slot, index: data.index }),
    }
}

/// What `chain` can say of the committee of `data` without loading a state: an unknown
/// target is turned down, and a cached shuffling gives the committee or shows that there is
/// none. `None` where the target is known and its shuffling is not cached.
pub open spec fn cached_committee(chain: BeaconChainView, data: AttestationData) -> Option<
    Result<(Seq<u64>, u64), Error>,
> {
    if !chain.fork_choice.contains_key(data.target.root) {
        Some(Err(Error::UnknownTargetRoot(data.target.root)))
    } else if chain.shuffling_cache.contains_key(shuffling_key(chain.spec, data)) {
        Some(committee_in(chain.shuffling_cache[shuffling_key(chain.spec, data)], data))
    } else {
        None
    }
}

/// How resolving a committee under `key` may change the chain: nothing but the shuffling
/// cache changes, and the shuffling cache at most gains an entry under `key` where it had
/// none.
pub open spec fn shuffling_cache_filled(
    pre: BeaconChainView,
    post: BeaconChainView,
    key: (Epoch, Hash256),
) -> bool {
    &&& post == (BeaconChainView { shuffling_cache: post.shuffling_cache, ..pre })
    &&& post.shuffling_cache == pre.shuffling_cache || (!pre.shuffling_cache.contains_key(key)
        && post.shuffling_cache.contains_key(key) && post.shuffling_cache
        == pre.shuffling_cache.insert(key, post.shuffling_cache[key]))
}

/// Whether a state at `state_slot` has to be advanced before it can give the committees of
/// `attestation_epoch`: a state reaches one epoch ahead of its own.
pub fn state_needs_advance(state_slot: Slot, attestation_epoch: Epoch, slots_per_epoch: u64) -> (r:
    bool)
    requires
        slots_per_epoch > 0,
    ensures
        r == (state_slot.epoch_of(slots_per_epoch).0 + 1 < attestation_epoch.0),
        forall|spec: ChainSpec|
            spec.slots_per_epoch == slots_per_epoch ==> r == #[trigger] needs_advance(
                state_slot,
                attestation_epoch,
                spec,
            ),
{
    let state_epoch = state_slot.epoch(slots_per_epoch);
    state_epoch.0 < attestation_epoch.0 && attestation_epoch.0 - state_epoch.0 > 1
}

/// Whether a state at `state_slot` has to be advanced before it can give the committees of
/// `attestation_epoch`.
pub open spec fn needs_advance(state_slot: Slot, attestation_epoch: Epoch, spec: ChainSpec) -> bool {
    state_slot.epoch_of(spec.slots_per_epoch).0 + 1 < attestation_epoch.0
}

/// How `outcome` comes of `state`, which its store says to stand at `state_slot`, in at most
/// `steps` steps: while `attestation_epoch` is out of the state's reach, the state is
/// advanced by an empty slot, with the zero root standing in for the state's own, and must
/// then stand one slot later; once the epoch is within reach, the state builds the committees
/// of the epoch. The first step that fails gives the error.
pub open spec fn committees_built_from<T: BeaconChainTypes>(
    collaborators: T,
    state: T::BeaconState,
    state_slot: Slot,
    attestation_epoch: Epoch,
    spec: ChainSpec,
    outcome: Result<CommitteeCacheView, BeaconChainError>,
    steps: nat,
) -> bool
    decreases steps,
{
    if needs_advance(state_slot, attestation_epoch, spec) {
        steps > 0 && exists|advanced: Result<T::BeaconState, BeaconChainError>|
            {
                &&& #[trigger] call_ensures(
                    T::per_slot_processing,
                    (&collaborators, state, Some(Hash256::zero_root()), &spec),
                    advanced,
                )
                &&& match advanced {
                    Err(e) => outcome == Err::<CommitteeCacheView, BeaconChainError>(e),
                    Ok(next) => exists|next_slot: Slot|
                        {
                            &&& #[trigger] call_ensures(
                                T::state_slot,
                                (&collaborators, &next),
                                next_slot,
                            )
                            &&& if next_slot.0 != state_slot.0 + 1 {
                                outcome == Err::<CommitteeCacheView, BeaconChainError>(
                                    BeaconChainError::SlotProcessingError,
                                )
                            } else {
                                committees_built_from(
                                    collaborators,
                                    next,
                                    next_slot,
                                    attestation_epoch,
                                    spec,
                                    outcome,
                                    (steps - 1) as nat,
                                )
                            }
                        },
                }
            }
    } else {
        match RelativeEpoch::relative_to(
            state_slot.epoch_of(spec.slots_per_epoch),
            attestation_epoch,
        ) {
            Err(e) => outcome == Err::<CommitteeCacheView, BeaconChainError>(
                BeaconChainError::IncorrectStateForAttestation(e),
            ),
            Ok(relative_epoch) => exists|built: Result<CommitteeCache, BeaconChainError>|
                {
                    &&& #[trigger] call_ensures(
                        T::build_committee_cache,
                        (&collaborators, state, relative_epoch, &spec),
                        built,
                    )
                    &&& outcome == match built {
                        Ok(cache) => Ok::<CommitteeCacheView, BeaconChainError>(cache@),
                        Err(e) => Err::<CommitteeCacheView, BeaconChainError>(e),
                    }
                },
        }
    }
}

/// How `outcome` comes of loading the committees of `attestation_epoch` from the state of
/// `target_block`: the store is asked for the state with the block's state root, with the
/// block's slot as a hint, and the state that it gives is advanced and builds the committees
/// as [`committees_built_from`] says. A store that fails, or has no such state, gives the
/// error.
pub open spec fn committee_cache_loading<T: BeaconChainTypes>(
    collaborators: T,
    target_block: ProtoBlock,
    attestation_epoch: Epoch,
    spec: ChainSpec,
    outcome: Result<CommitteeCacheView, BeaconChainError>,
) -> bool {
    exists|read: Result<Option<T::BeaconState>, BeaconChainError>|
        {
            &&& #[trigger] call_ensures(
                T::get_inconsistent_state_for_attestation_verification_only,
                (&collaborators, &target_block.state_root, Some(target_block.slot)),
                read,
            )
            &&& match read {
                Err(e) => outcome == Err::<CommitteeCacheView, BeaconChainError>(e),
                Ok(None) => outcome == Err::<CommitteeCacheView, BeaconChainError>(
                    BeaconChainError::MissingBeaconState(target_block.state_root),
                ),
                Ok(Some(state)) => exists|state_slot: Slot, steps: nat|
                    {
                        &&& #[trigger] call_ensures(
                            T::state_slot,
                            (&collaborators, &state),
                            state_slot,
                        )
                        &&& #[trigger] committees_built_from(
                            collaborators,
                            state,
                            state_slot,
                            attestation_epoch,
                            spec,
                            outcome,
                            steps,
                        )
                    },
            }
        }
}

/// Whether loading the committees that `data` needs from the state of its target block
/// ends in `outcome`.
pub open spec fn committee_cache_loaded_for<T: BeaconChainTypes>(
    collaborators: T,
    chain: BeaconChainView,
    data: AttestationData,
    outcome: Result<CommitteeCacheView, BeaconChainError>,
) -> bool {
    committee_cache_loading(
        collaborators,
        chain.fork_choice[data.target.root],
        shuffling_key(chain.spec, data).0,
        chain.spec,
        outcome,
    )
}

/// How resolving the committee of `data` may change the chain, `pre` before and `post` after:
/// the chain is left alone where it can already say what the committee is; otherwise the
/// shuffling cache may gain an entry for `data`, and that entry is what was loaded from the
/// state of the target block.
pub open spec fn committee_resolution<T: BeaconChainTypes>(
    collaborators: T,
    pre: BeaconChainView,
    post: BeaconChainView,
    data: AttestationData,
) -> bool {
    &&& shuffling_cache_filled(pre, post, shuffling_key(pre.spec, data))
    &&& cached_committee(pre, data).is_some() ==> post == pre
    &&& post != pre ==> committee_cache_loaded_for(
        collaborators,
        pre,
        data,
        Ok(post.shuffling_cache[shuffling_key(pre.spec, data)]),
    )
}

/// The mathematical value of the result of loading a committee cache.
pub open spec fn loaded_view(r: Result<CommitteeCache, BeaconChainError>) -> Result<
    CommitteeCacheView,
    BeaconChainError,
> {
    match r {
        Ok(cache) => Ok(cache@),
        Err(e) => Err(e),
    }
}

/// Builds the committees of `attestation_epoch` from the state of `target_block`: reads the
/// state, advances it through empty slots until the epoch is within its reach, and has it
/// build the committees. The state's roots are not computed on the way, the zero root stands
/// in for them: a shuffling does not depend on them.
///
/// Every step is a collaborator's; a failure of any is an internal error.
fn load_committee_cache<T: BeaconChainTypes>(
    chain: &BeaconChain<T>,
    target_block: &ProtoBlock,
    attestation_epoch: Epoch,
) -> (r: Result<CommitteeCache, BeaconChainError>)
    requires
        chain.spec.wf(),
    ensures
        committee_cache_loading(
            chain.collaborators,
            *target_block,
            attestation_epoch,
            chain.spec,
            loaded_view(r),
        ),
{
    let read = chain.collaborators.get_inconsistent_state_for_attestation_verification_only(
        &target_block.state_root,
        Some(target_block.slot),
    );
    let ghost answer = read;
    let mut state = match read {
        Ok(Some(state)) => state,
        Ok(None) => {
            return Err(BeaconChainError::MissingBeaconState(target_block.state_root));
        },
        Err(e) => {
            return Err(e);
        },
    };
    let mut state_slot = chain.collaborators.state_slot(&state);
    let ghost first_state = state;
    let ghost first_slot = state_slot;
    let ghost mut steps: nat = 0;
    while state_needs_advance(state_slot, attestation_epoch, chain.spec.slots_per_epoch)
        invariant
            chain.spec.wf(),
            answer == Ok::<Option<T::BeaconState>, BeaconChainError>(Some(first_state)),
            call_ensures(
                T::get_inconsistent_state_for_attestation_verification_only,
                (&chain.collaborators, &target_block.state_root, Some(target_block.slot)),
                answer,
            ),
            call_ensures(T::state_slot, (&chain.collaborators, &first_state), first_slot),
            forall|outcome: Result<CommitteeCacheView, BeaconChainError>, more: nat|
                #[trigger] committees_built_from(
                    chain.collaborators,
                    state,
                    state_slot,
                    attestation_epoch,
                    chain.spec,
                    outcome,
                    more,
                ) ==> committees_built_from(
                    chain.collaborators,
                    first_state,
                    first_slot,
                    attestation_epoch,
                    chain.spec,
                    outcome,
                    more + steps,
                ),
        decreases u64::MAX - state_slot.0,
    {
        let ghost before = state;
        let ghost before_slot = state_slot;
        let zero = Hash256::zero();
        let advanced = chain.collaborators.per_slot_processing(state, Some(zero), &chain.spec);
        state = match advanced {
            Ok(next) => next,
            Err(e) => {
                proof {
                    let outcome = Err::<CommitteeCacheView, BeaconChainError>(e);
                    assert(committees_built_from(
                        chain.collaborators,
                        before,
                        before_slot,
                        attestation_epoch,
                        chain.spec,
                        outcome,
                        1,
                    ));
                }
                return Err(e);
            },
        };
        let next_slot = chain.collaborators.state_slot(&state);
        if state_slot.0 == u64::MAX || next_slot.0 != state_slot.0 + 1 {
            proof {
                let outcome = Err::<CommitteeCacheView, BeaconChainError>(
                    BeaconChainError::SlotProcessingError,
                );
                assert(committees_built_from(
                    chain.collaborators,
                    before,
                    before_slot,
                    attestation_epoch,
                    chain.spec,
                    outcome,
                    1,
                ));
            }
            return Err(BeaconChainError::SlotProcessingError);
        }
        state_slot = next_slot;
        proof {
            assert forall|outcome: Result<CommitteeCacheView, BeaconChainError>, more: nat|
                #[trigger] committees_built_from(
                    chain.collaborators,
                    state,
                    state_slot,
                    attestation_epoch,
                    chain.spec,
                    outcome,
                    more,
                ) implies committees_built_from(
                    chain.collaborators,
                    first_state,
                    first_slot,
                    attestation_epoch,
                    chain.spec,
                    outcome,
                    more + (steps + 1),
                ) by {
                assert(committees_built_from(
                    chain.collaborators,
                    before,
                    before_slot,
                    attestation_epoch,
                    chain.spec,
                    outcome,
                    more + 1,
                ));
            }
            steps = steps + 1;
        }
    }
    let relative_epoch = match RelativeEpoch::from_epoch(
        state_slot.epoch(chain.spec.slots_per_epoch),
        attestation_epoch,
    ) {
        Ok(relative_epoch) => relative_epoch,
        Err(e) => {
            proof {
                let outcome = Err::<CommitteeCacheView, BeaconChainError>(
                    BeaconChainError::IncorrectStateForAttestation(e),
                );
                assert(committees_built_from(
                    chain.collaborators,
                    state,
                    state_slot,
                    attestation_epoch,
                    chain.spec,
                    outcome,
                    0,
                ));
            }
            return Err(BeaconChainError::IncorrectStateForAttestation(e));
        },
    };
    let ghost last_state = state;
    let built = chain.collaborators.build_committee_cache(state, relative_epoch, &chain.spec);
    proof {
        assert(committees_built_from(
            chain.collaborators,
            last_state,
            state_slot,
            attestation_epoch,
            chain.spec,
            loaded_view(built),
            0,
        ));
    }
    built
}

/// Runs `map_fn` on the committee of `attestation` and the number of committees per slot of
/// its epoch.
///
/// The committee comes from the shuffling cache. Where the cache has no entry for the
/// attestation's epoch and target, the committees are built from the target's state and the
/// cache is filled first. The target must be known to fork choice: an attestation whose target
/// is older than the finalized block is of no use.
pub fn map_attestation_committee<T, F, R>(
    chain: &mut BeaconChain<T>,
    attestation: &Attestation,
    map_fn: F,
) -> (r: Result<R, Error>) where
    T: BeaconChainTypes,
    F: Fn((BeaconCommittee, u64)) -> Result<R, Error>,

    requires
        old(chain).wf(),
        forall|committee: BeaconCommittee, committees_per_slot: u64|
            map_fn.requires(((committee, committees_per_slot),)),
    ensures
        final(chain).wf(),
        final(chain).collaborators == old(chain).collaborators,
        committee_resolution(
            old(chain).collaborators,
            old(chain)@,
            final(chain)@,
            attestation.data,
        ),
        match cached_committee(final(chain)@, attestation.data) {
            Some(Err(e)) => r == Err::<R, Error>(e),
            Some(Ok((members, committees_per_slot))) => exists|committee: BeaconCommittee|
                {
                    &&& committee.slot == attestation.data.slot
                    &&& committee.index == attestation.data.index
                    &&& committee.committee@ == members
                    &&& map_fn.ensures(((committee, committees_per_slot),), r)
                },
            None => {
                &&& final(chain)@ == old(chain)@
                &&& r matches Err(Error::BeaconChainError(e)) && committee_cache_loaded_for(
                    old(chain).collaborators,
                    old(chain)@,
                    attestation.data,
                    Err(e),
                )
            },
        },
{
    let attestation_epoch = attestation.data.slot.epoch(chain.spec.slots_per_epoch);
    let target = attestation.data.target;
    let target_block = match chain.fork_choice.get_block(&target.root) {
        Some(block) => block,
        None => {
            return Err(Error::UnknownTargetRoot(target.root));
        },
    };
    if !chain.shuffling_cache.contains(attestation_epoch, target.root) {
        let committee_cache = match load_committee_cache(chain, &target_block, attestation_epoch) {
            Ok(committee_cache) => committee_cache,
            Err(e) => {
                return Err(Error::BeaconChainError(e));
            },
        };
        chain.shuffling_cache.insert(attestation_epoch, target.root, committee_cache);
    }
    match chain.shuffling_cache.get(attestation_epoch, target.root) {
        Some(committee_cache) => {
            let committees_per_slot = committee_cache.committees_per_slot();
            match committee_cache.get_beacon_committee(
                attestation.data.slot,
                attestation.data.index,
            ) {
                Some(committee) => map_fn((committee, committees_per_slot)),
                None => Err(
                    Error::NoCommitteeForSlotAndIndex {
                        slot: attestation.data.slot,
                        index: attestation.data.index,
                    },
                ),
            }
        },
        None => vstd::pervasive::unreached(),
    }
}

/// The indexed form of `attestation` and the number of committees per slot, from the
/// committee that was resolved for it. An attestation that does not fit its committee is an
/// internal error here: the committee was resolved for this very attestation.
pub open spec fn indexed_from_committee(
    resolved: Result<(Seq<u64>, u64), Error>,
    attestation: AttestationView,
) -> Result<(IndexedAttestationView, u64), Error> {
    match resolved {
        Err(e) => Err(e),
        Ok((members, committees_per_slot)) => match indexed_attestation_of(members, attestation) {
            Ok(indexed) => Ok((indexed, committees_per_slot)),
            Err(e) => Err(
                Error::BeaconChainError(BeaconChainError::AttestationValidationError(e)),
            ),
        },
    }
}

/// The mathematical value of the result of
/// [`obtain_indexed_attestation_and_committees_per_slot`].
pub open spec fn indexed_result_view(r: Result<(IndexedAttestation, u64), Error>) -> Result<
    (IndexedAttestationView, u64),
    Error,
> {
    match r {
        Ok((indexed, committees_per_slot)) => Ok((indexed@, committees_per_slot)),
        Err(e) => Err(e),
    }
}

/// The indexed form of `attestation` and the number of committees per slot of its epoch.
///
/// The committee is resolved as by [`map_attestation_committee`], which may fill the
/// shuffling cache.
pub fn obtain_indexed_attestation_and_committees_per_slot<T: BeaconChainTypes>(
    chain: &mut BeaconChain<T>,
    attestation: &Attestation,
) -> (r: Result<(IndexedAttestation, u64), Error>)
    requires
        old(chain).wf(),
    ensures
        final(chain).wf(),
        final(chain).collaborators == old(chain).collaborators,
        committee_resolution(
            old(chain).collaborators,
            old(chain)@,
            final(chain)@,
            attestation.data,
        ),
        match cached_committee(final(chain)@, attestation.data) {
            Some(resolved) => indexed_result_view(r) == indexed_from_committee(
                resolved,
                attestation@,
            ),
            None => {
                &&& final(chain)@ == old(chain)@
                &&& r matches Err(Error::BeaconChainError(e)) && committee_cache_loaded_for(
                    old(chain).collaborators,
                    old(chain)@,
                    attestation.data,
                    Err(e),
                )
            },
        },
{
    let map_fn = |arg: (BeaconCommittee, u64)| -> (out: Result<(IndexedAttestation, u64), Error>)
        ensures
            indexed_result_view(out) == indexed_from_committee(
                Ok((arg.0.committee@, arg.1)),
                attestation@,
            ),
        {
            match get_indexed_attestation(arg.0.committee, attestation) {
                Ok(indexed) => Ok((indexed, arg.1)),
                Err(e) => Err(
                    Error::BeaconChainError(BeaconChainError::AttestationValidationError(e)),
                ),
            }
        };
    map_attestation_committee(chain, attestation, map_fn)
}

/// The early checks of an aggregate, none of which looks at a signature: the slot is in the
/// propagation range; the attestation has not been observed; no aggregate by the aggregator
/// has been observed in the target epoch; the block voted for is known, however far behind;
/// and the aggregate has a participant. The first check that fails gives the error. A pass
/// gives the root of the attestation.
pub open spec fn aggregate_early_checks(
    chain: BeaconChainView,
    aggregator_index: u64,
    attestation: AttestationView,
) -> Result<Hash256, Error> {
    let attestation_root = attestation_root(attestation);
    match propagation_slot_range(
        chain.slot_clock,
        chain.spec.slots_per_epoch,
        attestation.data.slot,
    ) {
        Err(e) => Err(e),
        Ok(()) => if chain.observed_attestations.contains(attestation_root) {
            Err(Error::AttestationAlreadyKnown(attestation_root))
        } else {
            match chain.observed_aggregators.observed(
                attestation.data.target.epoch,
                aggregator_index,
            ) {
                Ok(true) => Err(Error::AggregatorAlreadyKnown(aggregator_index)),
                Err(ObservedAttestersError::ValidatorIndexTooHigh(i)) => Err(
                    Error::ValidatorIndexTooHigh(i),
                ),
                Ok(false) => match head_block_known(chain.fork_choice, attestation.data, None) {
                    Err(e) => Err(e),
                    Ok(()) => if count_set_bits(
                        attestation.aggregation_bits,
                        attestation.aggregation_bits.len() as int,
                    ) == 0 {
                        Err(Error::EmptyAggregationBitfield)
                    } else {
                        Ok(attestation_root)
                    },
                },
            }
        },
    }
}

/// The late checks of an aggregate, made once its signatures are known to be valid: the
/// attestation is recorded as observed, and then the aggregator. Either may have been
/// observed since the early checks; then the aggregate is turned down after all. Gives the
/// verdict and the chain as the checks leave it.
pub open spec fn aggregate_late_checks(
    chain: BeaconChainView,
    aggregator_index: u64,
    attestation: AttestationView,
    attestation_root: Hash256,
) -> (Result<(), Error>, BeaconChainView) {
    if chain.observed_attestations.contains(attestation_root) {
        (Err(Error::AttestationAlreadyKnown(attestation_root)), chain)
    } else {
        let recorded = BeaconChainView {
            observed_attestations: chain.observed_attestations.insert(attestation_root),
            ..chain
        };
        match chain.observed_aggregators.observed(
            attestation.data.target.epoch,
            aggregator_index,
        ) {
            Err(e) => (
                Err(Error::BeaconChainError(BeaconChainError::ObservedAttestersError(e))),
                recorded,
            ),
            Ok(true) => (
                Err(
                    Error::PriorAttestationKnown {
                        validator_index: aggregator_index,
                        epoch: attestation.data.target.epoch,
                    },
                ),
                recorded,
            ),
            Ok(false) => (
                Ok(()),
                BeaconChainView {
                    observed_aggregators: chain.observed_aggregators.observe(
                        attestation.data.target.epoch,
                        aggregator_index,
                    ),
                    ..recorded
                },
            ),
        }
    }
}

/// The early checks of an unaggregated attestation: the slot is in the propagation range;
/// exactly one participation bit is set; and the block voted for is known and not further
/// behind the attestation than the node is configured to accept. The first check that fails
/// gives the error.
pub open spec fn unaggregated_early_checks(
    chain: BeaconChainView,
    attestation: AttestationView,
) -> Result<(), Error> {
    let set_bits = count_set_bits(
        attestation.aggregation_bits,
        attestation.aggregation_bits.len() as int,
    );
    match propagation_slot_range(
        chain.slot_clock,
        chain.spec.slots_per_epoch,
        attestation.data.slot,
    ) {
        Err(e) => Err(e),
        Ok(()) => if set_bits != 1 {
            Err(Error::NotExactlyOneAggregationBitSet(set_bits as usize))
        } else {
            head_block_known(
                chain.fork_choice,
                attestation.data,
                chain.config.import_max_skip_slots,
            )
        },
    }
}

/// The middle checks of an unaggregated attestation, made once its indexed form is known:
/// the attestation arrived on the subnet that its committee belongs on; and no attestation by
/// its one attester has been observed in the target epoch. A pass gives the attester's
/// validator index.
pub open spec fn unaggregated_middle_checks(
    chain: BeaconChainView,
    attestation: AttestationView,
    indexed_attestation: IndexedAttestationView,
    committees_per_slot: u64,
    subnet_id: SubnetId,
) -> Result<u64, Error> {
    match SubnetId::subnet_of(
        indexed_attestation.data.slot,
        indexed_attestation.data.index,
        committees_per_slot,
        chain.spec,
    ) {
        Err(e) => Err(Error::BeaconChainError(BeaconChainError::ArithError(e))),
        Ok(expected) => if subnet_id != expected {
            Err(Error::InvalidSubnetId { received: subnet_id, expected })
        } else if indexed_attestation.attesting_indices.len() == 0 {
            Err(Error::NotExactlyOneAggregationBitSet(0))
        } else {
            let validator_index = indexed_attestation.attesting_indices[0];
            match chain.observed_attesters.observed(
                attestation.data.target.epoch,
                validator_index,
            ) {
                Err(e) => Err(
                    Error::BeaconChainError(BeaconChainError::ObservedAttestersError(e)),
                ),
                Ok(true) => Err(
                    Error::PriorAttestationKnown {
                        validator_index,
                        epoch: attestation.data.target.epoch,
                    },
                ),
                Ok(false) => Ok(validator_index),
            }
        },
    }
}

/// The late check of an unaggregated attestation, made once its signature is known to be
/// valid: the attester is recorded as observed in the target epoch. It may have been observed
/// since the middle checks; then the attestation is turned down after all. Gives the verdict
/// and the chain as the check leaves it.
pub open spec fn unaggregated_late_checks(
    chain: BeaconChainView,
    attestation: AttestationView,
    validator_index: u64,
) -> (Result<(), Error>, BeaconChainView) {
    match chain.observed_attesters.observed(attestation.data.target.epoch, validator_index) {
        Err(e) => (
            Err(Error::BeaconChainError(BeaconChainError::ObservedAttestersError(e))),
            chain,
        ),
        Ok(true) => (
            Err(
                Error::PriorAttestationKnown {
                    validator_index,
                    epoch: attestation.data.target.epoch,
                },
            ),
            chain,
        ),
        Ok(false) => (
            Ok(()),
            BeaconChainView {
                observed_attesters: chain.observed_attesters.observe(
                    attestation.data.target.epoch,
                    validator_index,
                ),
                ..chain
            },
        ),
    }
}

impl VerifiedAggregatedAttestation {
    /// The signed aggregate that was verified.
    pub closed spec fn signed_aggregate(self) -> SignedAggregateAndProof {
        self.signed_aggregate
    }

    /// Runs the early checks of an aggregate.
    pub fn verify_early_checks<T: BeaconChainTypes>(
        signed_aggregate: &SignedAggregateAndProof,
        chain: &BeaconChain<T>,
    ) -> (r: Result<Hash256, Error>)
        ensures
            r == aggregate_early_checks(
                chain@,
                signed_aggregate.message.aggregator_index,
                signed_aggregate.message.aggregate@,
            ),
    {
        let attestation = &signed_aggregate.message.aggregate;

        // Future attestations are not kept for later: they are turned down.
        match verify_propagation_slot_range(chain, attestation) {
            Ok(()) => {},
            Err(e) => {
                return Err(e);
            },
        }

        let attestation_root = attestation_tree_hash_root(attestation);
        if chain.observed_attestations.is_known(attestation_root) {
            return Err(Error::AttestationAlreadyKnown(attestation_root));
        }
        let aggregator_index = signed_aggregate.message.aggregator_index;

        // The aggregator is only looked up here. It is recorded once the aggregate has been
        // verified.
        match chain.observed_aggregators.validator_has_been_observed(
            attestation,
            aggregator_index,
        ) {
            Ok(true) => {
                return Err(Error::AggregatorAlreadyKnown(aggregator_index));
            },
            Ok(false) => {},
            Err(ObservedAttestersError::ValidatorIndexTooHigh(i)) => {
                return Err(Error::ValidatorIndexTooHigh(i));
            },
        }

        // An aggregator may rightly aggregate across skipped slots: no limit on them here.
        match verify_head_block_is_known(chain, attestation, None) {
            Ok(()) => {},
            Err(e) => {
                return Err(e);
            },
        }

        if attestation.aggregation_bits.is_zero() {
            Err(Error::EmptyAggregationBitfield)
        } else {
            Ok(attestation_root)
        }
    }

    /// Runs the late checks of an aggregate, recording it as observed.
    pub fn verify_late_checks<T: BeaconChainTypes>(
        signed_aggregate: &SignedAggregateAndProof,
        attestation_root: Hash256,
        chain: &mut BeaconChain<T>,
    ) -> (r: Result<(), Error>)
        requires
            old(chain).wf(),
        ensures
            final(chain).wf(),
            final(chain).collaborators == old(chain).collaborators,
            (r, final(chain)@) == aggregate_late_checks(
                old(chain)@,
                signed_aggregate.message.aggregator_index,
                signed_aggregate.message.aggregate@,
                attestation_root,
            ),
    {
        let attestation = &signed_aggregate.message.aggregate;
        let aggregator_index = signed_aggregate.message.aggregator_index;

        // Two verifications of one attestation may both have passed the early checks: only
        // the first to arrive here passes.
        match chain.observed_attestations.observe_attestation(attestation_root) {
            ObserveOutcome::AlreadyKnown => {
                return Err(Error::AttestationAlreadyKnown(attestation_root));
            },
            ObserveOutcome::New => {},
        }

        match chain.observed_aggregators.observe_validator(attestation, aggregator_index) {
            Err(e) => Err(Error::BeaconChainError(BeaconChainError::ObservedAttestersError(e))),
            Ok(true) => Err(
                Error::PriorAttestationKnown {
                    validator_index: aggregator_index,
                    epoch: attestation.data.target.epoch,
                },
            ),
            Ok(false) => Ok(()),
        }
    }
}

impl VerifiedUnaggregatedAttestation {
    /// The attestation that was verified.
    pub closed spec fn spec_attestation(self) -> Attestation {
        self.attestation
    }

    /// Runs the early checks of an unaggregated attestation.
    pub fn verify_early_checks<T: BeaconChainTypes>(
        attestation: &Attestation,
        chain: &BeaconChain<T>,
    ) -> (r: Result<(), Error>)
        ensures
            r == unaggregated_early_checks(chain@, attestation@),
    {
        // Future attestations are not kept for later: they are turned down.
        match verify_propagation_slot_range(chain, attestation) {
            Ok(()) => {},
            Err(e) => {
                return Err(e);
            },
        }

        let num_aggregation_bits = attestation.aggregation_bits.num_set_bits();
        if num_aggregation_bits != 1 {
            return Err(Error::NotExactlyOneAggregationBitSet(num_aggregation_bits));
        }

        // A single attester has no business far ahead of the block it votes for.
        verify_head_block_is_known(chain, attestation, chain.config.import_max_skip_slots)
    }

    /// Runs the middle checks of an unaggregated attestation.
    pub fn verify_middle_checks<T: BeaconChainTypes>(
        attestation: &Attestation,
        indexed_attestation: &IndexedAttestation,
        committees_per_slot: u64,
        subnet_id: SubnetId,
        chain: &BeaconChain<T>,
    ) -> (r: Result<u64, Error>)
        ensures
            r == unaggregated_middle_checks(
                chain@,
                attestation@,
                indexed_attestation@,
                committees_per_slot,
                subnet_id,
            ),
    {
        let expected_subnet_id = match SubnetId::compute_subnet_for_attestation_data(
            &indexed_attestation.data,
            committees_per_slot,
            &chain.spec,
        ) {
            Ok(subnet) => subnet,
            Err(e) => {
                return Err(Error::BeaconChainError(BeaconChainError::ArithError(e)));
            },
        };
        if subnet_id.0 != expected_subnet_id.0 {
            return Err(
                Error::InvalidSubnetId { received: subnet_id, expected: expected_subnet_id },
            );
        }
        if indexed_attestation.attesting_indices.len() == 0 {
            return Err(Error::NotExactlyOneAggregationBitSet(0));
        }
        let validator_index = indexed_attestation.attesting_indices[0];

        // The attestation must be the first from its attester in the epoch.
        match chain.observed_attesters.validator_has_been_observed(attestation, validator_index) {
            Err(e) => Err(Error::BeaconChainError(BeaconChainError::ObservedAttestersError(e))),
            Ok(true) => Err(
                Error::PriorAttestationKnown {
                    validator_index,
                    epoch: attestation.data.target.epoch,
                },
            ),
            Ok(false) => Ok(validator_index),
        }
    }

    /// Runs the late check of an unaggregated attestation, recording its attester as
    /// observed.
    pub fn verify_late_checks<T: BeaconChainTypes>(
        attestation: &Attestation,
        validator_index: u64,
        chain: &mut BeaconChain<T>,
    ) -> (r: Result<(), Error>)
        requires
            old(chain).wf(),
        ensures
            final(chain).wf(),
            final(chain).collaborators == old(chain).collaborators,
            (r, final(chain)@) == unaggregated_late_checks(
                old(chain)@,
                attestation@,
                validator_index,
            ),
    {
        // Two attestations of one attester may both have passed the middle checks: only the
        // first to arrive here passes.
        match chain.observed_attesters.observe_validator(attestation, validator_index) {
            Err(e) => Err(Error::BeaconChainError(BeaconChainError::ObservedAttestersError(e))),
            Ok(true) => Err(
                Error::PriorAttestationKnown {
                    validator_index,
                    epoch: attestation.data.target.epoch,
                },
            ),
            Ok(false) => Ok(()),
        }
    }
}

/// What has to be checked of the signature of `indexed_attestation`, given the keys and the
/// fork that `chain` knows.
pub open spec fn attestation_signature_set(
    chain: BeaconChainView,
    indexed_attestation: IndexedAttestationView,
) -> Result<SignatureSetView, SignatureSetError> {
    indexed_attestation_signature_set_of(
        chain.validator_pubkey_cache,
        indexed_attestation.signature,
        indexed_attestation,
        chain.fork,
        chain.genesis_validators_root,
        chain.spec,
    )
}

/// What has to be checked of the three signatures of `signed_aggregate`, in the order in
/// which they are handed to the batch: the selection proof, the aggregator's signature over
/// the aggregate, and the attesters' signature over the attestation. An aggregator without a
/// known key is the aggregate's fault; an attester without one is an internal error.
pub open spec fn aggregate_signature_sets(
    chain: BeaconChainView,
    signed_aggregate: SignedAggregateAndProofView,
    indexed_attestation: IndexedAttestationView,
) -> Result<Seq<SignatureSetView>, Error> {
    if signed_aggregate.message.aggregator_index >= chain.validator_pubkey_cache.len() {
        Err(Error::AggregatorPubkeyUnknown(signed_aggregate.message.aggregator_index))
    } else {
        match selection_proof_signature_set_of(
            chain.validator_pubkey_cache,
            signed_aggregate,
            chain.fork,
            chain.genesis_validators_root,
            chain.spec,
        ) {
            Err(e) => Err(Error::BeaconChainError(BeaconChainError::SignatureSetError(e))),
            Ok(selection) => match aggregate_signature_set_of(
                chain.validator_pubkey_cache,
                signed_aggregate,
                chain.fork,
                chain.genesis_validators_root,
                chain.spec,
            ) {
                Err(e) => Err(Error::BeaconChainError(BeaconChainError::SignatureSetError(e))),
                Ok(aggregate) => match attestation_signature_set(chain, indexed_attestation) {
                    Err(e) => Err(
                        Error::BeaconChainError(BeaconChainError::SignatureSetError(e)),
                    ),
                    Ok(attestation) => Ok(seq![selection, aggregate, attestation]),
                },
            },
        }
    }
}

/// Whether the signature scheme was asked about exactly the signature set `expected` and
/// answered `is_valid`.
pub open spec fn signature_was_checked<T: BeaconChainTypes>(
    collaborators: T,
    expected: SignatureSetView,
    is_valid: bool,
) -> bool {
    exists|set: SignatureSet|
        set@ == expected && #[trigger] call_ensures(
            T::verify_signature_set,
            (&collaborators, &set),
            is_valid,
        )
}

/// Whether the signature scheme was asked about exactly the batch `expected` of signature
/// sets and answered `is_valid`.
pub open spec fn batch_was_checked<T: BeaconChainTypes>(
    collaborators: T,
    expected: Seq<SignatureSetView>,
    is_valid: bool,
) -> bool {
    exists|sets: Vec<SignatureSet>|
        sets.deep_view() == expected && #[trigger] call_ensures(
            T::verify_signature_sets,
            (&collaborators, &sets),
            is_valid,
        )
}

/// What a signature check means for an attestation: an invalid signature is the
/// attestation's fault.
pub fn signature_verdict(is_valid: bool) -> (r: Result<(), Error>)
    ensures
        r == if is_valid {
            Ok::<(), Error>(())
        } else {
            Err::<(), Error>(Error::InvalidSignature)
        },
{
    if is_valid {
        Ok(())
    } else {
        Err(Error::InvalidSignature)
    }
}

/// Checks the signature of `indexed_attestation`.
///
/// The signature set is put together here; whether its signature is valid is the signature
/// scheme's to say. Where the set cannot be put together the scheme is not asked.
pub fn verify_attestation_signature<T: BeaconChainTypes>(
    chain: &BeaconChain<T>,
    indexed_attestation: &IndexedAttestation,
) -> (r: Result<(), Error>)
    ensures
        match attestation_signature_set(chain@, indexed_attestation@) {
            Err(e) => r == Err::<(), Error>(
                Error::BeaconChainError(BeaconChainError::SignatureSetError(e)),
            ),
            Ok(expected) => exists|is_valid: bool|
                {
                    &&& #[trigger] signature_was_checked(chain.collaborators, expected, is_valid)
                    &&& r == if is_valid {
                        Ok::<(), Error>(())
                    } else {
                        Err::<(), Error>(Error::InvalidSignature)
                    }
                },
        },
{
    let signature_set = match indexed_attestation_signature_set_from_pubkeys(
        &chain.validator_pubkey_cache,
        &indexed_attestation.signature,
        indexed_attestation,
        &chain.fork,
        &chain.genesis_validators_root,
        &chain.spec,
    ) {
        Ok(set) => set,
        Err(e) => {
            return Err(Error::BeaconChainError(BeaconChainError::SignatureSetError(e)));
        },
    };
    let is_valid = chain.collaborators.verify_signature_set(&signature_set);
    proof {
        let expected = attestation_signature_set(chain@, indexed_attestation@).unwrap();
        assert(signature_was_checked(chain.collaborators, expected, is_valid));
    }
    signature_verdict(is_valid)
}

/// The three signature sets of `signed_aggregate`, in the order in which they are checked.
pub fn signed_aggregate_signature_sets<T: BeaconChainTypes>(
    chain: &BeaconChain<T>,
    signed_aggregate: &SignedAggregateAndProof,
    indexed_attestation: &IndexedAttestation,
) -> (r: Result<Vec<SignatureSet>, Error>)
    requires
        chain.spec.wf(),
    ensures
        match r {
            Ok(sets) => Ok::<Seq<SignatureSetView>, Error>(sets.deep_view())
                == aggregate_signature_sets(chain@, signed_aggregate@, indexed_attestation@),
            Err(e) => Err::<Seq<SignatureSetView>, Error>(e) == aggregate_signature_sets(
                chain@,
                signed_aggregate@,
                indexed_attestation@,
            ),
        },
{
    let aggregator_index = signed_aggregate.message.aggregator_index;
    if aggregator_index >= chain.validator_pubkey_cache.len() as u64 {
        return Err(Error::AggregatorPubkeyUnknown(aggregator_index));
    }
    let selection = match signed_aggregate_selection_proof_signature_set(
        &chain.validator_pubkey_cache,
        signed_aggregate,
        &chain.fork,
        &chain.genesis_validators_root,
        &chain.spec,
    ) {
        Ok(set) => set,
        Err(e) => {
            return Err(Error::BeaconChainError(BeaconChainError::SignatureSetError(e)));
        },
    };
    let aggregate = match signed_aggregate_signature_set(
        &chain.validator_pubkey_cache,
        signed_aggregate,
        &chain.fork,
        &chain.genesis_validators_root,
        &chain.spec,
    ) {
        Ok(set) => set,
        Err(e) => {
            return Err(Error::BeaconChainError(BeaconChainError::SignatureSetError(e)));
        },
    };
    let attestation = match indexed_attestation_signature_set_from_pubkeys(
        &chain.validator_pubkey_cache,
        &indexed_attestation.signature,
        indexed_attestation,
        &chain.fork,
        &chain.genesis_validators_root,
        &chain.spec,
    ) {
        Ok(set) => set,
        Err(e) => {
            return Err(Error::BeaconChainError(BeaconChainError::SignatureSetError(e)));
        },
    };
    let ghost expected = seq![selection@, aggregate@, attestation@];
    let mut sets: Vec<SignatureSet> = Vec::new();
    sets.push(selection);
    sets.push(aggregate);
    sets.push(attestation);
    assert(sets.deep_view() =~= expected);
    Ok(sets)
}

/// Checks the three signatures of `signed_aggregate` as one batch: the aggregator's signature
/// over the aggregate, its selection proof, and the attesters' signature over the
/// attestation.
///
/// `Ok(true)` where the batch is valid, `Ok(false)` where a signature is not, and an error
/// where the batch could not be put together. Whether a batch is valid is the signature
/// scheme's to say. Where the batch cannot be put together the scheme is not asked.
pub fn verify_signed_aggregate_signatures<T: BeaconChainTypes>(
    chain: &BeaconChain<T>,
    signed_aggregate: &SignedAggregateAndProof,
    indexed_attestation: &IndexedAttestation,
) -> (r: Result<bool, Error>)
    requires
        chain.spec.wf(),
    ensures
        match aggregate_signature_sets(chain@, signed_aggregate@, indexed_attestation@) {
            Err(e) => r == Err::<bool, Error>(e),
            Ok(expected) => r matches Ok(is_valid) && batch_was_checked(
                chain.collaborators,
                expected,
                is_valid,
            ),
        },
{
    match signed_aggregate_signature_sets(chain, signed_aggregate, indexed_attestation) {
        Ok(signature_sets) => {
            let is_valid = chain.collaborators.verify_signature_sets(&signature_sets);
            assert(batch_was_checked(
                chain.collaborators,
                signature_sets.deep_view(),
                is_valid,
            ));
            Ok(is_valid)
        },
        Err(e) => Err(e),
    }
}

/// Whether `validator` is a member of `committee`.
pub fn committee_contains(committee: &[u64], validator: u64) -> (r: bool)
    ensures
        r == committee@.contains(validator),
{
    let mut i: usize = 0;
    while i < committee.len()
        invariant
            i <= committee.len(),
            forall|j: int| 0 <= j < i ==> committee@[j] != validator,
        decreases committee.len() - i,
    {
        if committee[i] == validator {
            return true;
        }
        i += 1;
    }
    false
}

/// The indexed form of an aggregate, from the committee that was resolved for it and the
/// digest of its selection proof. Before the indexed form is made, the selection proof must
/// elect the aggregator among a committee of this size, and the aggregator must be a member
/// of the committee.
pub open spec fn aggregate_indexed_from_committee(
    resolved: Result<(Seq<u64>, u64), Error>,
    selection_proof_hash: Hash256,
    aggregator_index: u64,
    attestation: AttestationView,
    spec: ChainSpec,
) -> Result<IndexedAttestationView, Error> {
    match resolved {
        Err(e) => Err(e),
        Ok((members, _)) => match SelectionProof::elected_in_committee(
            selection_proof_hash,
            members.len() as usize,
            spec,
        ) {
            Err(e) => Err(Error::BeaconChainError(BeaconChainError::ArithError(e))),
            Ok(false) => Err(Error::InvalidSelectionProof { aggregator_index }),
            Ok(true) => if !members.contains(aggregator_index) {
                Err(Error::AggregatorNotInCommittee { aggregator_index })
            } else {
                match indexed_attestation_of(members, attestation) {
                    Ok(indexed) => Ok(indexed),
                    Err(e) => Err(
                        Error::BeaconChainError(BeaconChainError::AttestationValidationError(e)),
                    ),
                }
            },
        },
    }
}

/// The indexed form of an aggregate under `committee`, once the selection proof and the
/// aggregator's membership have been checked. `selection_proof_hash` is the digest of the
/// selection proof.
pub fn aggregate_indexed_attestation(
    committee: &[u64],
    selection_proof_hash: &Hash256,
    aggregator_index: u64,
    attestation: &Attestation,
    spec: &ChainSpec,
) -> (r: Result<IndexedAttestation, Error>)
    ensures
        match r {
            Ok(indexed) => Ok::<IndexedAttestationView, Error>(indexed@)
                == aggregate_indexed_from_committee(
                Ok((committee@, 0)),
                *selection_proof_hash,
                aggregator_index,
                attestation@,
                *spec,
            ),
            Err(e) => Err::<IndexedAttestationView, Error>(e) == aggregate_indexed_from_committee(
                Ok((committee@, 0)),
                *selection_proof_hash,
                aggregator_index,
                attestation@,
                *spec,
            ),
        },
{
    let modulo = match SelectionProof::modulo(committee.len(), spec) {
        Ok(modulo) => modulo,
        Err(e) => {
            return Err(Error::BeaconChainError(BeaconChainError::ArithError(e)));
        },
    };
    match SelectionProof::is_aggregator_from_hash(selection_proof_hash, modulo) {
        Ok(true) => {},
        Ok(false) => {
            return Err(Error::InvalidSelectionProof { aggregator_index });
        },
        Err(e) => {
            return Err(Error::BeaconChainError(BeaconChainError::ArithError(e)));
        },
    }

    // The aggregator must be a member of the committee for which it aggregates.
    if !committee_contains(committee, aggregator_index) {
        return Err(Error::AggregatorNotInCommittee { aggregator_index });
    }
    match get_indexed_attestation(committee, attestation) {
        Ok(indexed) => Ok(indexed),
        Err(e) => Err(Error::BeaconChainError(BeaconChainError::AttestationValidationError(e))),
    }
}

/// How the verification of an aggregate ends and what it leaves of the chain, `pre` before
/// and `post` after.
///
/// The early checks decide first; a failure there leaves the chain as it was. Then the
/// committee is resolved, which may fill the shuffling cache, the selection proof and the
/// aggregator's membership are checked and the indexed form is made. Up to here the signature
/// has not been looked at. Then the three signatures are checked: a failure is final and
/// nothing is recorded. Only an aggregate with valid signatures reaches the late checks,
/// which record it as observed.
pub open spec fn aggregate_verification<T: BeaconChainTypes>(
    collaborators: T,
    pre: BeaconChainView,
    post: BeaconChainView,
    signed_aggregate: SignedAggregateAndProof,
    r: Result<VerifiedAggregatedAttestation, AttestationSlashInfo<Error>>,
) -> bool {
    let attestation = signed_aggregate.message.aggregate;
    let aggregator_index = signed_aggregate.message.aggregator_index;
    let resolved_chain = BeaconChainView { shuffling_cache: post.shuffling_cache, ..pre };
    match aggregate_early_checks(pre, aggregator_index, attestation@) {
        Err(e) => post == pre && r == Err::<VerifiedAggregatedAttestation, _>(
            AttestationSlashInfo::SignatureNotChecked(attestation, e),
        ),
        Ok(attestation_root) => {
            &&& committee_resolution(collaborators, pre, resolved_chain, attestation.data)
            &&& match cached_committee(resolved_chain, attestation.data) {
                None => {
                    &&& post == pre
                    &&& r matches Err(
                        AttestationSlashInfo::SignatureNotChecked(a, Error::BeaconChainError(e)),
                    ) && a == attestation && committee_cache_loaded_for(
                        collaborators,
                        pre,
                        attestation.data,
                        Err(e),
                    )
                },
                Some(resolved) => match aggregate_indexed_from_committee(
                    resolved,
                    sha256_of(signed_aggregate.message.selection_proof@),
                    aggregator_index,
                    attestation@,
                    pre.spec,
                ) {
                    Err(e) => post == resolved_chain && r == Err::<
                        VerifiedAggregatedAttestation,
                        _,
                    >(AttestationSlashInfo::SignatureNotChecked(attestation, e)),
                    Ok(indexed) => match aggregate_signature_sets(
                        resolved_chain,
                        signed_aggregate@,
                        indexed,
                    ) {
                        Err(e) => post == resolved_chain && r == Err::<
                            VerifiedAggregatedAttestation,
                            _,
                        >(AttestationSlashInfo::SignatureInvalid(e)),
                        Ok(signature_sets) => {
                            ||| {
                                &&& batch_was_checked(collaborators, signature_sets, false)
                                &&& post == resolved_chain
                                &&& r == Err::<VerifiedAggregatedAttestation, _>(
                                    AttestationSlashInfo::SignatureInvalid(
                                        Error::InvalidSignature,
                                    ),
                                )
                            }
                            ||| {
                                let (late, recorded) = aggregate_late_checks(
                                    resolved_chain,
                                    aggregator_index,
                                    attestation@,
                                    attestation_root,
                                );
                                &&& batch_was_checked(collaborators, signature_sets, true)
                                &&& post == recorded
                                &&& match late {
                                    Ok(()) => r matches Ok(verified)
                                        && verified.signed_aggregate() == signed_aggregate
                                        && verified.indexed_view() == indexed,
                                    Err(e) => r matches Err(
                                        AttestationSlashInfo::SignatureValid(i, err),
                                    ) && i@ == indexed && err == e,
                                }
                            }
                        },
                    },
                },
            }
        },
    }
}

/// How the verification of an unaggregated attestation ends and what it leaves of the chain,
/// `pre` before and `post` after.
///
/// The early checks decide first; a failure there leaves the chain as it was. Then the
/// committee is resolved, which may fill the shuffling cache, and the indexed form is made;
/// then come the middle checks. Up to here the signature has not been looked at. Then the
/// signature is checked: a failure is final and nothing is recorded. Only an attestation with
/// a valid signature reaches the late check, which records its attester as observed.
pub open spec fn unaggregated_verification<T: BeaconChainTypes>(
    collaborators: T,
    pre: BeaconChainView,
    post: BeaconChainView,
    attestation: Attestation,
    subnet_id: SubnetId,
    r: Result<VerifiedUnaggregatedAttestation, AttestationSlashInfo<Error>>,
) -> bool {
    let resolved_chain = BeaconChainView { shuffling_cache: post.shuffling_cache, ..pre };
    match unaggregated_early_checks(pre, attestation@) {
        Err(e) => post == pre && r == Err::<VerifiedUnaggregatedAttestation, _>(
            AttestationSlashInfo::SignatureNotChecked(attestation, e),
        ),
        Ok(()) => {
            &&& committee_resolution(collaborators, pre, resolved_chain, attestation.data)
            &&& match cached_committee(resolved_chain, attestation.data) {
                None => {
                    &&& post == pre
                    &&& r matches Err(
                        AttestationSlashInfo::SignatureNotChecked(a, Error::BeaconChainError(e)),
                    ) && a == attestation && committee_cache_loaded_for(
                        collaborators,
                        pre,
                        attestation.data,
                        Err(e),
                    )
                },
                Some(resolved) => match indexed_from_committee(resolved, attestation@) {
                    Err(e) => post == resolved_chain && r == Err::<
                        VerifiedUnaggregatedAttestation,
                        _,
                    >(AttestationSlashInfo::SignatureNotChecked(attestation, e)),
                    Ok((indexed, committees_per_slot)) => match unaggregated_middle_checks(
                        resolved_chain,
                        attestation@,
                        indexed,
                        committees_per_slot,
                        subnet_id,
                    ) {
                        Err(e) => {
                            &&& post == resolved_chain
                            &&& r matches Err(
                                AttestationSlashInfo::SignatureNotCheckedIndexed(i, err),
                            ) && i@ == indexed && err == e
                        },
                        Ok(validator_index) => match attestation_signature_set(
                            resolved_chain,
                            indexed,
                        ) {
                            Err(e) => post == resolved_chain && r == Err::<
                                VerifiedUnaggregatedAttestation,
                                _,
                            >(
                                AttestationSlashInfo::SignatureInvalid(
                                    Error::BeaconChainError(
                                        BeaconChainError::SignatureSetError(e),
                                    ),
                                ),
                            ),
                            Ok(signature_set) => {
                                ||| {
                                    &&& signature_was_checked(collaborators, signature_set, false)
                                    &&& post == resolved_chain
                                    &&& r == Err::<VerifiedUnaggregatedAttestation, _>(
                                        AttestationSlashInfo::SignatureInvalid(
                                            Error::InvalidSignature,
                                        ),
                                    )
                                }
                                ||| {
                                    let (late, recorded) = unaggregated_late_checks(
                                        resolved_chain,
                                        attestation@,
                                        validator_index,
                                    );
                                    &&& signature_was_checked(collaborators, signature_set, true)
                                    &&& post == recorded
                                    &&& match late {
                                        Ok(()) => r matches Ok(verified)
                                            && verified.spec_attestation() == attestation
                                            && verified.indexed_view() == indexed,
                                        Err(e) => r matches Err(
                                            AttestationSlashInfo::SignatureValid(i, err),
                                        ) && i@ == indexed && err == e,
                                    }
                                }
                            },
                        },
                    },
                },
            }
        },
    }
}

impl VerifiedAggregatedAttestation {
    /// Verifies `signed_aggregate` for propagation on the gossip network. A failure comes
    /// with what is known of the signature, for the slasher.
    pub fn verify_slashable<T: BeaconChainTypes>(
        signed_aggregate: SignedAggregateAndProof,
        chain: &mut BeaconChain<T>,
    ) -> (r: Result<Self, AttestationSlashInfo<Error>>)
        requires
            old(chain).wf(),
        ensures
            final(chain).wf(),
            final(chain).collaborators == old(chain).collaborators,
            aggregate_verification(
                old(chain).collaborators,
                old(chain)@,
                final(chain)@,
                signed_aggregate,
                r,
            ),
    {
        let aggregator_index = signed_aggregate.message.aggregator_index;
        let attestation_root = match Self::verify_early_checks(&signed_aggregate, chain) {
            Ok(root) => root,
            Err(e) => {
                return Err(
                    AttestationSlashInfo::SignatureNotChecked(
                        signed_aggregate.message.aggregate,
                        e,
                    ),
                );
            },
        };

        let selection_proof = SelectionProof::from(signed_aggregate.message.selection_proof);
        let selection_proof_hash = selection_proof.signature_hash();
        let spec = chain.spec;
        let attestation = &signed_aggregate.message.aggregate;
        let map_fn = |arg: (BeaconCommittee, u64)| -> (out: Result<IndexedAttestation, Error>)
            ensures
                match out {
                    Ok(indexed) => Ok::<IndexedAttestationView, Error>(indexed@)
                        == aggregate_indexed_from_committee(
                        Ok((arg.0.committee@, arg.1)),
                        selection_proof_hash,
                        aggregator_index,
                        attestation@,
                        spec,
                    ),
                    Err(e) => Err::<IndexedAttestationView, Error>(e)
                        == aggregate_indexed_from_committee(
                        Ok((arg.0.committee@, arg.1)),
                        selection_proof_hash,
                        aggregator_index,
                        attestation@,
                        spec,
                    ),
                },
            {
                aggregate_indexed_attestation(
                    arg.0.committee,
                    &selection_proof_hash,
                    aggregator_index,
                    attestation,
                    &spec,
                )
            };
        let indexed_attestation = match map_attestation_committee(chain, attestation, map_fn) {
            Ok(indexed_attestation) => indexed_attestation,
            Err(e) => {
                return Err(
                    AttestationSlashInfo::SignatureNotChecked(
                        signed_aggregate.message.aggregate,
                        e,
                    ),
                );
            },
        };

        match verify_signed_aggregate_signatures(chain, &signed_aggregate, &indexed_attestation) {
            Ok(true) => {},
            Ok(false) => {
                return Err(AttestationSlashInfo::SignatureInvalid(Error::InvalidSignature));
            },
            Err(e) => {
                return Err(AttestationSlashInfo::SignatureInvalid(e));
            },
        }

        match Self::verify_late_checks(&signed_aggregate, attestation_root, chain) {
            Ok(()) => {},
            Err(e) => {
                return Err(AttestationSlashInfo::SignatureValid(indexed_attestation, e));
            },
        }

        Ok(VerifiedAggregatedAttestation { signed_aggregate, indexed_attestation })
    }
}

impl VerifiedUnaggregatedAttestation {
    /// Verifies `attestation`, which arrived on subnet `subnet_id`, for propagation on the
    /// gossip network. A failure comes with what is known of the signature, for the slasher.
    pub fn verify_slashable<T: BeaconChainTypes>(
        attestation: Attestation,
        subnet_id: SubnetId,
        chain: &mut BeaconChain<T>,
    ) -> (r: Result<Self, AttestationSlashInfo<Error>>)
        requires
            old(chain).wf(),
        ensures
            final(chain).wf(),
            final(chain).collaborators == old(chain).collaborators,
            unaggregated_verification(
                old(chain).collaborators,
                old(chain)@,
                final(chain)@,
                attestation,
                subnet_id,
                r,
            ),
    {
        match Self::verify_early_checks(&attestation, chain) {
            Ok(()) => {},
            Err(e) => {
                return Err(AttestationSlashInfo::SignatureNotChecked(attestation, e));
            },
        }

        let (indexed_attestation, committees_per_slot) =
            match obtain_indexed_attestation_and_committees_per_slot(chain, &attestation) {
            Ok(x) => x,
            Err(e) => {
                return Err(AttestationSlashInfo::SignatureNotChecked(attestation, e));
            },
        };

        let validator_index = match Self::verify_middle_checks(
            &attestation,
            &indexed_attestation,
            committees_per_slot,
            subnet_id,
            chain,
        ) {
            Ok(validator_index) => validator_index,
            Err(e) => {
                return Err(
                    AttestationSlashInfo::SignatureNotCheckedIndexed(indexed_attestation, e),
                );
            },
        };

        match verify_attestation_signature(chain, &indexed_attestation) {
            Ok(()) => {},
            Err(e) => {
                return Err(AttestationSlashInfo::SignatureInvalid(e));
            },
        }

        match Self::verify_late_checks(&attestation, validator_index, chain) {
            Ok(()) => {},
            Err(e) => {
                return Err(AttestationSlashInfo::SignatureValid(indexed_attestation, e));
            },
        }

        Ok(VerifiedUnaggregatedAttestation { attestation, indexed_attestation })
    }
}

/// What handing a rejected attestation to the slasher leaves of the chain, `pre` before and
/// `post` after.
///
/// Without a slasher nothing happens. With one, an attestation whose signature is invalid is
/// dropped, and one whose signature is valid is put on the slasher's queue. One whose
/// signature was not checked is put on the queue only where the node is configured so; if
/// its indexed form is not known, it is resolved against its committee first, which may fill
/// the shuffling cache, and where that fails, it is dropped.
pub open spec fn slasher_hand_off<T: BeaconChainTypes>(
    collaborators: T,
    pre: BeaconChainView,
    post: BeaconChainView,
    slash_info: AttestationSlashInfo<Error>,
) -> bool {
    match pre.slasher {
        None => post == pre,
        Some(queue) => match slash_info {
            AttestationSlashInfo::SignatureInvalid(_) => post == pre,
            AttestationSlashInfo::SignatureValid(indexed, _) => post == (BeaconChainView {
                slasher: Some(queue.push(indexed@)),
                ..pre
            }),
            AttestationSlashInfo::SignatureNotCheckedIndexed(indexed, _) => post
                == if pre.config.slasher_takes_unchecked_signatures {
                BeaconChainView { slasher: Some(queue.push(indexed@)), ..pre }
            } else {
                pre
            },
            AttestationSlashInfo::SignatureNotChecked(
                attestation,
                _,
            ) => if !pre.config.slasher_takes_unchecked_signatures {
                post == pre
            } else {
                let resolved_chain = BeaconChainView {
                    shuffling_cache: post.shuffling_cache,
                    ..pre
                };
                &&& committee_resolution(collaborators, pre, resolved_chain, attestation.data)
                &&& match cached_committee(resolved_chain, attestation.data) {
                    None => post == pre,
                    Some(resolved) => match indexed_from_committee(resolved, attestation@) {
                        Ok((indexed, _)) => post == (BeaconChainView {
                            slasher: Some(queue.push(indexed)),
                            ..resolved_chain
                        }),
                        Err(_) => post == resolved_chain,
                    },
                }
            },
        },
    }
}

/// Hands a rejected attestation to the slasher, where one is attached and the attestation
/// can be evidence, and gives back the reason it was rejected.
///
/// This is the one place where rejected attestations reach the slasher.
pub fn process_slash_info<T: BeaconChainTypes>(
    slash_info: AttestationSlashInfo<Error>,
    chain: &mut BeaconChain<T>,
) -> (r: Error)
    requires
        old(chain).wf(),
    ensures
        final(chain).wf(),
        final(chain).collaborators == old(chain).collaborators,
        r == slash_info.error(),
        slasher_hand_off(old(chain).collaborators, old(chain)@, final(chain)@, slash_info),
{
    if chain.slasher.is_none() {
        return match slash_info {
            AttestationSlashInfo::SignatureNotChecked(_, e) => e,
            AttestationSlashInfo::SignatureNotCheckedIndexed(_, e) => e,
            AttestationSlashInfo::SignatureInvalid(e) => e,
            AttestationSlashInfo::SignatureValid(_, e) => e,
        };
    }
    let takes_unchecked = chain.config.slasher_takes_unchecked_signatures;
    let (indexed_attestation, err) = match slash_info {
        AttestationSlashInfo::SignatureNotChecked(attestation, err) => {
            if !takes_unchecked {
                return err;
            }
            match obtain_indexed_attestation_and_committees_per_slot(chain, &attestation) {
                Ok((indexed, _)) => (indexed, err),
                Err(_) => {
                    // Without the indexed form the slasher has no use for the attestation.
                    return err;
                },
            }
        },
        AttestationSlashInfo::SignatureNotCheckedIndexed(indexed, err) => {
            if !takes_unchecked {
                return err;
            }
            (indexed, err)
        },
        AttestationSlashInfo::SignatureInvalid(e) => {
            return e;
        },
        AttestationSlashInfo::SignatureValid(indexed, err) => (indexed, err),
    };
    match &mut chain.slasher {
        Some(slasher) => {
            slasher.accept_attestation(indexed_attestation);
        },
        None => {},
    }
    err
}

/// How the gossip verification of an aggregate ends and what it leaves of the chain: as
/// [`aggregate_verification`] says, and, where the aggregate is rejected, followed by the
/// hand-off to the slasher.
pub open spec fn aggregate_gossip_verification<T: BeaconChainTypes>(
    collaborators: T,
    pre: BeaconChainView,
    post: BeaconChainView,
    signed_aggregate: SignedAggregateAndProof,
    r: Result<VerifiedAggregatedAttestation, Error>,
) -> bool {
    match r {
        Ok(verified) => aggregate_verification(
            collaborators,
            pre,
            post,
            signed_aggregate,
            Ok(verified),
        ),
        Err(e) => exists|rejected: BeaconChainView, slash_info: AttestationSlashInfo<Error>|
            {
                &&& #[trigger] aggregate_verification(
                    collaborators,
                    pre,
                    rejected,
                    signed_aggregate,
                    Err(slash_info),
                )
                &&& slash_info.error() == e
                &&& slasher_hand_off(collaborators, rejected, post, slash_info)
            },
    }
}

/// How the gossip verification of an unaggregated attestation ends and what it leaves of the
/// chain: as [`unaggregated_verification`] says, and, where the attestation is rejected,
/// followed by the hand-off to the slasher.
pub open spec fn unaggregated_gossip_verification<T: BeaconChainTypes>(
    collaborators: T,
    pre: BeaconChainView,
    post: BeaconChainView,
    attestation: Attestation,
    subnet_id: SubnetId,
    r: Result<VerifiedUnaggregatedAttestation, Error>,
) -> bool {
    match r {
        Ok(verified) => unaggregated_verification(
            collaborators,
            pre,
            post,
            attestation,
            subnet_id,
            Ok(verified),
        ),
        Err(e) => exists|rejected: BeaconChainView, slash_info: AttestationSlashInfo<Error>|
            {
                &&& #[trigger] unaggregated_verification(
                    collaborators,
                    pre,
                    rejected,
                    attestation,
                    subnet_id,
                    Err(slash_info),
                )
                &&& slash_info.error() == e
                &&& slasher_hand_off(collaborators, rejected, post, slash_info)
            },
    }
}

impl VerifiedAggregatedAttestation {
    /// Verifies `signed_aggregate` for propagation on the gossip network. An aggregate that
    /// is rejected is handed to the slasher where it can be evidence.
    pub fn verify<T: BeaconChainTypes>(
        signed_aggregate: SignedAggregateAndProof,
        chain: &mut BeaconChain<T>,
    ) -> (r: Result<Self, Error>)
        requires
            old(chain).wf(),
        ensures
            final(chain).wf(),
            final(chain).collaborators == old(chain).collaborators,
            aggregate_gossip_verification(
                old(chain).collaborators,
                old(chain)@,
                final(chain)@,
                signed_aggregate,
                r,
            ),
    {
        match Self::verify_slashable(signed_aggregate, chain) {
            Ok(verified) => Ok(verified),
            Err(slash_info) => {
                let ghost rejected = chain@;
                let e = process_slash_info(slash_info, chain);
                assert(aggregate_verification(
                    old(chain).collaborators,
                    old(chain)@,
                    rejected,
                    signed_aggregate,
                    Err(slash_info),
                ));
                Err(e)
            },
        }
    }

    /// Hands this aggregate to the pool from which blocks are filled. The pool is a
    /// collaborator: where it takes the aggregate the aggregate comes back, and where it
    /// does not, its failure is an internal error.
    pub fn add_to_pool<T: BeaconChainTypes>(self, chain: &BeaconChain<T>) -> (r: Result<
        Self,
        Error,
    >)
        ensures
            exists|outcome: Result<(), BeaconChainError>|
                {
                    &&& #[trigger] call_ensures(
                        T::add_to_block_inclusion_pool,
                        (&chain.collaborators, &self.signed_aggregate().message.aggregate),
                        outcome,
                    )
                    &&& r == match outcome {
                        Ok(()) => Ok::<Self, Error>(self),
                        Err(e) => Err::<Self, Error>(Error::BeaconChainError(e)),
                    }
                },
    {
        match chain.collaborators.add_to_block_inclusion_pool(
            &self.signed_aggregate.message.aggregate,
        ) {
            Ok(()) => Ok(self),
            Err(e) => Err(Error::BeaconChainError(e)),
        }
    }

    /// The attestation of the aggregate that was verified.
    pub fn attestation(&self) -> (r: &Attestation)
        ensures
            *r == self.signed_aggregate().message.aggregate,
    {
        &self.signed_aggregate.message.aggregate
    }

    /// The signed aggregate that was verified.
    pub fn aggregate(&self) -> (r: &SignedAggregateAndProof)
        ensures
            *r == self.signed_aggregate(),
    {
        &self.signed_aggregate
    }
}

impl VerifiedUnaggregatedAttestation {
    /// Verifies `attestation`, which arrived on subnet `subnet_id`, for propagation on the
    /// gossip network. An attestation that is rejected is handed to the slasher where it can
    /// be evidence.
    pub fn verify<T: BeaconChainTypes>(
        attestation: Attestation,
        subnet_id: SubnetId,
        chain: &mut BeaconChain<T>,
    ) -> (r: Result<Self, Error>)
        requires
            old(chain).wf(),
        ensures
            final(chain).wf(),
            final(chain).collaborators == old(chain).collaborators,
            unaggregated_gossip_verification(
                old(chain).collaborators,
                old(chain)@,
                final(chain)@,
                attestation,
                subnet_id,
                r,
            ),
    {
        match Self::verify_slashable(attestation, subnet_id, chain) {
            Ok(verified) => Ok(verified),
            Err(slash_info) => {
                let ghost rejected = chain@;
                let e = process_slash_info(slash_info, chain);
                assert(unaggregated_verification(
                    old(chain).collaborators,
                    old(chain)@,
                    rejected,
                    attestation,
                    subnet_id,
                    Err(slash_info),
                ));
                Err(e)
            },
        }
    }

    /// Hands this attestation to the pool that aggregates unaggregated attestations. The pool
    /// is a collaborator: where it takes the attestation the attestation comes back, and
    /// where it does not, its failure is an internal error.
    pub fn add_to_pool<T: BeaconChainTypes>(self, chain: &BeaconChain<T>) -> (r: Result<
        Self,
        Error,
    >)
        ensures
            exists|outcome: Result<(), BeaconChainError>|
                {
                    &&& #[trigger] call_ensures(
                        T::add_to_naive_aggregation_pool,
                        (&chain.collaborators, &self.spec_attestation()),
                        outcome,
                    )
                    &&& r == match outcome {
                        Ok(()) => Ok::<Self, Error>(self),
                        Err(e) => Err::<Self, Error>(Error::BeaconChainError(e)),
                    }
                },
    {
        match chain.collaborators.add_to_naive_aggregation_pool(&self.attestation) {
            Ok(()) => Ok(self),
            Err(e) => Err(Error::BeaconChainError(e)),
        }
    }

    /// The attestation that was verified.
    pub fn attestation(&self) -> (r: &Attestation)
        ensures
            *r == self.spec_attestation(),
    {
        &self.attestation
    }

    /// The indexed form, open to change.
    ///
    /// For tests only: an indexed form that was changed need no longer be the one that was
    /// verified.
    pub fn __indexed_attestation_mut(&mut self) -> (r: &mut IndexedAttestation)
        ensures
            r@ == old(self).indexed_view(),
            final(self).indexed_view() == final(r)@,
            final(self).spec_attestation() == old(self).spec_attestation(),
    {
        &mut self.indexed_attestation
    }
}

impl Clone for VerifiedUnaggregatedAttestation {
    fn clone(&self) -> (r: Self)
        ensures
            r.spec_attestation()@ == self.spec_attestation()@,
            r.indexed_view() == self.indexed_view(),
    {
        VerifiedUnaggregatedAttestation {
            attestation: self.attestation.clone(),
            indexed_attestation: self.indexed_attestation.clone(),
        }
    }
}

impl SignatureVerifiedAttestation for VerifiedAggregatedAttestation {
    closed spec fn indexed_view(&self) -> IndexedAttestationView {
        self.indexed_attestation@
    }

    fn indexed_attestation(&self) -> (r: &IndexedAttestation) {
        &self.indexed_attestation
    }
}

impl SignatureVerifiedAttestation for VerifiedUnaggregatedAttestation {
    closed spec fn indexed_view(&self) -> IndexedAttestationView {
        self.indexed_attestation@
    }

    fn indexed_attestation(&self) -> (r: &IndexedAttestation) {
        &self.indexed_attestation
    }
}

} // verus!
