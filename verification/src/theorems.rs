//! What holds of attestation verification as a whole.
//!
//! Each theorem is stated over the relations that the verification functions ensure, so it
//! holds of every run of those functions, whatever the collaborators answer.

use vstd::prelude::*;
use crate::attestation::{
    count_set_bits,
    Attestation,
    AttestationData,
    AttestationView,
    IndexedAttestationView,
    SignedAggregateAndProof,
};
use crate::attestation_verification::{
    SignatureVerifiedAttestation,
    aggregate_early_checks,
    aggregate_gossip_verification,
    aggregate_late_checks,
    aggregate_verification,
    cached_committee,
    committee_resolution,
    earliest_permissible_slot,
    propagation_slot_range,
    shuffling_key,
    unaggregated_early_checks,
    unaggregated_gossip_verification,
    unaggregated_late_checks,
    unaggregated_middle_checks,
    unaggregated_verification,
    AttestationSlashInfo,
    Error,
    VerifiedAggregatedAttestation,
    VerifiedUnaggregatedAttestation,
};
use crate::beacon_chain::{BeaconChainTypes, BeaconChainView, SlotClock};
use crate::hash256::Hash256;
use crate::merkle::attestation_root;
use crate::selection_proof::{sha256_of, SelectionProof};
use crate::slot_epoch::Slot;
use crate::subnet_id::SubnetId;

verus! {

/// The upper end of the propagation range: an attestation from the slot that the clock shows
/// with the tolerance added is passed on, and one from the slot after it is turned down as
/// from the future.
///
/// The clock's two readings are taken to be in order: the one with the tolerance taken off
/// is not later than the one with the tolerance added.
pub proof fn theorem_latest_slot_is_the_boundary(
    clock: SlotClock,
    slots_per_epoch: u64,
    now_future: Slot,
    now_past: Slot,
)
    requires
        clock.now_with_future_tolerance == Some(now_future),
        clock.now_with_past_tolerance == Some(now_past),
        now_past.0 <= now_future.0,
    ensures
        propagation_slot_range(clock, slots_per_epoch, now_future) == Ok::<(), Error>(()),
        now_future.0 < u64::MAX ==> propagation_slot_range(
            clock,
            slots_per_epoch,
            Slot((now_future.0 + 1) as u64),
        ) == Err::<(), Error>(
            Error::FutureSlot {
                attestation_slot: Slot((now_future.0 + 1) as u64),
                latest_permissible_slot: now_future,
            },
        ),
{
}

/// The lower end of the propagation range: an attestation from one epoch before the slot
/// that the clock shows with the tolerance taken off is passed on, and one from the slot
/// before that is turned down as from the past.
///
/// The clock's two readings are taken to be in order, as above.
pub proof fn theorem_earliest_slot_is_the_boundary(
    clock: SlotClock,
    slots_per_epoch: u64,
    now_future: Slot,
    now_past: Slot,
)
    requires
        clock.now_with_future_tolerance == Some(now_future),
        clock.now_with_past_tolerance == Some(now_past),
        now_past.0 <= now_future.0,
    ensures
        propagation_slot_range(
            clock,
            slots_per_epoch,
            earliest_permissible_slot(now_past, slots_per_epoch),
        ) == Ok::<(), Error>(()),
        now_past.0 >= slots_per_epoch ==> earliest_permissible_slot(now_past, slots_per_epoch).0
            == now_past.0 - slots_per_epoch,
        earliest_permissible_slot(now_past, slots_per_epoch).0 > 0 ==> propagation_slot_range(
            clock,
            slots_per_epoch,
            Slot((earliest_permissible_slot(now_past, slots_per_epoch).0 - 1) as u64),
        ) == Err::<(), Error>(
            Error::PastSlot {
                attestation_slot: Slot(
                    (earliest_permissible_slot(now_past, slots_per_epoch).0 - 1) as u64,
                ),
                earliest_permissible_slot: earliest_permissible_slot(now_past, slots_per_epoch),
            },
        ),
{
}

/// The subnet boundary: where the subnet of an attestation is `expected`, the middle checks
/// turn the attestation down on every other subnet, naming both subnets, and on `expected`
/// they do not object to the subnet.
pub proof fn theorem_only_the_expected_subnet_passes(
    chain: BeaconChainView,
    attestation: AttestationView,
    indexed_attestation: IndexedAttestationView,
    committees_per_slot: u64,
    subnet_id: SubnetId,
    expected: SubnetId,
)
    requires
        SubnetId::subnet_of(
            indexed_attestation.data.slot,
            indexed_attestation.data.index,
            committees_per_slot,
            chain.spec,
        ) == Ok::<SubnetId, crate::errors::ArithError>(expected),
    ensures
        subnet_id != expected ==> unaggregated_middle_checks(
            chain,
            attestation,
            indexed_attestation,
            committees_per_slot,
            subnet_id,
        ) == Err::<u64, Error>(Error::InvalidSubnetId { received: subnet_id, expected }),
        subnet_id == expected ==> !(unaggregated_middle_checks(
            chain,
            attestation,
            indexed_attestation,
            committees_per_slot,
            subnet_id,
        ) matches Err(Error::InvalidSubnetId { .. })),
{
}

/// Committee resolution is idempotent: of two resolutions in a row for the same epoch and
/// target, at most one changes the shuffling cache, and once the chain can say what the
/// committee is, a further resolution changes nothing and so reads the same committees.
pub proof fn theorem_committee_resolution_is_idempotent<T: BeaconChainTypes>(
    collaborators: T,
    before: BeaconChainView,
    between: BeaconChainView,
    after: BeaconChainView,
    first: AttestationData,
    second: AttestationData,
)
    requires
        shuffling_key(before.spec, first) == shuffling_key(before.spec, second),
        committee_resolution(collaborators, before, between, first),
        committee_resolution(collaborators, between, after, second),
    ensures
        between == before || after == between,
        cached_committee(between, first).is_some() ==> after == between && cached_committee(
            after,
            first,
        ) == cached_committee(between, first),
{
}

/// In a run of its own the late checks of an aggregate cannot fail: what they find recorded
/// was recorded after the early checks passed, and nothing else ran in between.
pub proof fn theorem_aggregate_late_checks_pass_after_early_checks(
    chain: BeaconChainView,
    resolved_chain: BeaconChainView,
    aggregator_index: u64,
    attestation: AttestationView,
    attestation_root: Hash256,
)
    requires
        aggregate_early_checks(chain, aggregator_index, attestation) == Ok::<Hash256, Error>(
            attestation_root,
        ),
        resolved_chain == (BeaconChainView {
            shuffling_cache: resolved_chain.shuffling_cache,
            ..chain
        }),
    ensures
        aggregate_late_checks(resolved_chain, aggregator_index, attestation, attestation_root).0
            == Ok::<(), Error>(()),
{
}

/// The late checks of an aggregate pass at most once: after they have passed, they turn the
/// same aggregate down as known. This is what lets only one of two simultaneous
/// verifications of one aggregate succeed.
pub proof fn theorem_aggregate_late_checks_pass_once(
    chain: BeaconChainView,
    aggregator_index: u64,
    attestation: AttestationView,
    attestation_root: Hash256,
)
    requires
        aggregate_late_checks(chain, aggregator_index, attestation, attestation_root).0 is Ok,
    ensures
        aggregate_late_checks(
            aggregate_late_checks(chain, aggregator_index, attestation, attestation_root).1,
            aggregator_index,
            attestation,
            attestation_root,
        ).0 == Err::<(), Error>(Error::AttestationAlreadyKnown(attestation_root)),
{
}

/// The late check of an unaggregated attestation passes at most once: after it has passed,
/// it turns every attestation by the same attester in the same target epoch down. This is
/// what lets only one of two simultaneous verifications of one attestation succeed.
pub proof fn theorem_unaggregated_late_checks_pass_once(
    chain: BeaconChainView,
    attestation: AttestationView,
    validator_index: u64,
)
    requires
        unaggregated_late_checks(chain, attestation, validator_index).0 is Ok,
    ensures
        unaggregated_late_checks(
            unaggregated_late_checks(chain, attestation, validator_index).1,
            attestation,
            validator_index,
        ).0 == Err::<(), Error>(
            Error::PriorAttestationKnown { validator_index, epoch: attestation.data.target.epoch },
        ),
{
}

/// The verification of an aggregate records the aggregate as observed exactly when it
/// succeeds. A rejected aggregate leaves every observation cache as it was.
pub proof fn theorem_aggregate_is_observed_only_on_success<T: BeaconChainTypes>(
    collaborators: T,
    pre: BeaconChainView,
    post: BeaconChainView,
    signed_aggregate: SignedAggregateAndProof,
    r: Result<VerifiedAggregatedAttestation, AttestationSlashInfo<Error>>,
)
    requires
        aggregate_verification(collaborators, pre, post, signed_aggregate, r),
    ensures
        r is Err ==> post.observed_attestations == pre.observed_attestations
            && post.observed_aggregators == pre.observed_aggregators && post.observed_attesters
            == pre.observed_attesters,
        r is Ok ==> post.observed_attestations.contains(
            attestation_root(signed_aggregate.message.aggregate@),
        ) && post.observed_aggregators.seen.contains(
            (
                signed_aggregate.message.aggregate.data.target.epoch,
                signed_aggregate.message.aggregator_index,
            ),
        ),
{
}

/// The verification of an unaggregated attestation records its attester as observed exactly
/// when it succeeds. A rejected attestation leaves every observation cache as it was.
pub proof fn theorem_attester_is_observed_only_on_success<T: BeaconChainTypes>(
    collaborators: T,
    pre: BeaconChainView,
    post: BeaconChainView,
    attestation: Attestation,
    subnet_id: SubnetId,
    r: Result<VerifiedUnaggregatedAttestation, AttestationSlashInfo<Error>>,
)
    requires
        unaggregated_verification(collaborators, pre, post, attestation, subnet_id, r),
    ensures
        r is Err ==> post.observed_attestations == pre.observed_attestations
            && post.observed_aggregators == pre.observed_aggregators && post.observed_attesters
            == pre.observed_attesters,
        r matches Ok(verified) ==> verified.indexed_view().attesting_indices.len() > 0
            && post.observed_attesters.seen.contains(
            (attestation.data.target.epoch, verified.indexed_view().attesting_indices[0]),
        ),
{
}

/// An aggregate is verified once: after an aggregate has been verified, the verification of
/// the same aggregate on the chain as the first left it is turned down, because the
/// attestation is known.
pub proof fn theorem_aggregate_is_verified_once<T: BeaconChainTypes>(
    collaborators: T,
    before: BeaconChainView,
    between: BeaconChainView,
    after: BeaconChainView,
    first: SignedAggregateAndProof,
    second: SignedAggregateAndProof,
    verified: VerifiedAggregatedAttestation,
    again: Result<VerifiedAggregatedAttestation, Error>,
)
    requires
        second@ == first@,
        aggregate_gossip_verification(collaborators, before, between, first, Ok(verified)),
        aggregate_gossip_verification(collaborators, between, after, second, again),
    ensures
        again == Err::<VerifiedAggregatedAttestation, Error>(
            Error::AttestationAlreadyKnown(attestation_root(first.message.aggregate@)),
        ),
        again.unwrap_err().is_already_known(),
{
}

/// An unaggregated attestation is verified once: after an attestation has been verified, the
/// verification of the same attestation on the chain as the first left it is turned down,
/// because an attestation by its attester is known.
pub proof fn theorem_unaggregated_attestation_is_verified_once<T: BeaconChainTypes>(
    collaborators: T,
    before: BeaconChainView,
    between: BeaconChainView,
    after: BeaconChainView,
    first: Attestation,
    second: Attestation,
    subnet_id: SubnetId,
    verified: VerifiedUnaggregatedAttestation,
    again: Result<VerifiedUnaggregatedAttestation, Error>,
)
    requires
        second@ == first@,
        unaggregated_gossip_verification(collaborators, before, between, first, subnet_id, Ok(verified)),
        unaggregated_gossip_verification(collaborators, between, after, second, subnet_id, again),
    ensures
        verified.indexed_view().attesting_indices.len() > 0,
        again == Err::<VerifiedUnaggregatedAttestation, Error>(
            Error::PriorAttestationKnown {
                validator_index: verified.indexed_view().attesting_indices[0],
                epoch: first.data.target.epoch,
            },
        ),
        again.unwrap_err().is_already_known(),
{
}

/// An aggregate that is rejected for an invalid signature leaves no trace: every observation
/// cache is as it was, and nothing reaches the slasher.
pub proof fn theorem_invalid_aggregate_signature_records_nothing<T: BeaconChainTypes>(
    collaborators: T,
    pre: BeaconChainView,
    post: BeaconChainView,
    signed_aggregate: SignedAggregateAndProof,
)
    requires
        aggregate_gossip_verification(
            collaborators,
            pre,
            post,
            signed_aggregate,
            Err(Error::InvalidSignature),
        ),
    ensures
        post.observed_attestations == pre.observed_attestations,
        post.observed_aggregators == pre.observed_aggregators,
        post.observed_attesters == pre.observed_attesters,
        post.slasher == pre.slasher,
{
}

/// An unaggregated attestation that is rejected for an invalid signature leaves no trace:
/// every observation cache is as it was, and nothing reaches the slasher.
pub proof fn theorem_invalid_attestation_signature_records_nothing<T: BeaconChainTypes>(
    collaborators: T,
    pre: BeaconChainView,
    post: BeaconChainView,
    attestation: Attestation,
    subnet_id: SubnetId,
)
    requires
        unaggregated_gossip_verification(
            collaborators,
            pre,
            post,
            attestation,
            subnet_id,
            Err(Error::InvalidSignature),
        ),
    ensures
        post.observed_attestations == pre.observed_attestations,
        post.observed_aggregators == pre.observed_aggregators,
        post.observed_attesters == pre.observed_attesters,
        post.slasher == pre.slasher,
{
}

/// An attestation in the propagation range that has not exactly one participation bit set
/// is turned down for that by the early checks: the rejection says that the signature was not
/// checked, and the chain is left as it was.
pub proof fn theorem_not_exactly_one_bit_is_rejected_before_signatures<T: BeaconChainTypes>(
    collaborators: T,
    pre: BeaconChainView,
    post: BeaconChainView,
    attestation: Attestation,
    subnet_id: SubnetId,
    r: Result<VerifiedUnaggregatedAttestation, AttestationSlashInfo<Error>>,
)
    requires
        unaggregated_verification(collaborators, pre, post, attestation, subnet_id, r),
        propagation_slot_range(pre.slot_clock, pre.spec.slots_per_epoch, attestation.data.slot)
            is Ok,
        count_set_bits(attestation@.aggregation_bits, attestation@.aggregation_bits.len() as int)
            != 1,
    ensures
        r == Err::<VerifiedUnaggregatedAttestation, AttestationSlashInfo<Error>>(
            AttestationSlashInfo::SignatureNotChecked(
                attestation,
                Error::NotExactlyOneAggregationBitSet(
                    count_set_bits(
                        attestation@.aggregation_bits,
                        attestation@.aggregation_bits.len() as int,
                    ) as usize,
                ),
            ),
        ),
        post == pre,
{
}

/// As [`theorem_not_exactly_one_bit_is_rejected_before_signatures`], for the verification
/// that ends with the hand-off to the slasher: the attestation is turned down with the number
/// of bits that are set, and no observation cache changes.
pub proof fn theorem_not_exactly_one_bit_is_rejected_early<T: BeaconChainTypes>(
    collaborators: T,
    pre: BeaconChainView,
    post: BeaconChainView,
    attestation: Attestation,
    subnet_id: SubnetId,
    r: Result<VerifiedUnaggregatedAttestation, Error>,
)
    requires
        unaggregated_gossip_verification(collaborators, pre, post, attestation, subnet_id, r),
        propagation_slot_range(pre.slot_clock, pre.spec.slots_per_epoch, attestation.data.slot)
            is Ok,
        count_set_bits(attestation@.aggregation_bits, attestation@.aggregation_bits.len() as int)
            != 1,
    ensures
        unaggregated_early_checks(pre, attestation@) == Err::<(), Error>(
            Error::NotExactlyOneAggregationBitSet(
                count_set_bits(
                    attestation@.aggregation_bits,
                    attestation@.aggregation_bits.len() as int,
                ) as usize,
            ),
        ),
        r == Err::<VerifiedUnaggregatedAttestation, Error>(
            Error::NotExactlyOneAggregationBitSet(
                count_set_bits(
                    attestation@.aggregation_bits,
                    attestation@.aggregation_bits.len() as int,
                ) as usize,
            ),
        ),
        post.observed_attestations == pre.observed_attestations,
        post.observed_aggregators == pre.observed_aggregators,
        post.observed_attesters == pre.observed_attesters,
{
}

/// An aggregate that passes the early checks and whose selection proof does not elect its
/// aggregator in the committee that is resolved for it is turned down for that, before any
/// signature is looked at: the rejection says that the signature was not checked, and the
/// chain is left as committee resolution left it.
pub proof fn theorem_unelected_aggregator_is_rejected_before_signatures<T: BeaconChainTypes>(
    collaborators: T,
    pre: BeaconChainView,
    post: BeaconChainView,
    signed_aggregate: SignedAggregateAndProof,
    r: Result<VerifiedAggregatedAttestation, AttestationSlashInfo<Error>>,
    members: Seq<u64>,
    committees_per_slot: u64,
)
    requires
        aggregate_verification(collaborators, pre, post, signed_aggregate, r),
        aggregate_early_checks(
            pre,
            signed_aggregate.message.aggregator_index,
            signed_aggregate.message.aggregate@,
        ) is Ok,
        cached_committee(
            BeaconChainView { shuffling_cache: post.shuffling_cache, ..pre },
            signed_aggregate.message.aggregate.data,
        ) == Some(Ok::<(Seq<u64>, u64), Error>((members, committees_per_slot))),
        SelectionProof::elected_in_committee(
            sha256_of(signed_aggregate.message.selection_proof@),
            members.len() as usize,
            pre.spec,
        ) == Ok::<bool, crate::errors::ArithError>(false),
    ensures
        r == Err::<VerifiedAggregatedAttestation, AttestationSlashInfo<Error>>(
            AttestationSlashInfo::SignatureNotChecked(
                signed_aggregate.message.aggregate,
                Error::InvalidSelectionProof {
                    aggregator_index: signed_aggregate.message.aggregator_index,
                },
            ),
        ),
        post == (BeaconChainView { shuffling_cache: post.shuffling_cache, ..pre }),
{
}

/// As [`theorem_unelected_aggregator_is_rejected_before_signatures`], for the verification
/// that ends with the hand-off to the slasher, where the committee is in the shuffling cache
/// from the start: the aggregate is turned down for its selection proof and no observation
/// cache changes.
pub proof fn theorem_unelected_aggregator_is_rejected<T: BeaconChainTypes>(
    collaborators: T,
    pre: BeaconChainView,
    post: BeaconChainView,
    signed_aggregate: SignedAggregateAndProof,
    r: Result<VerifiedAggregatedAttestation, Error>,
    members: Seq<u64>,
    committees_per_slot: u64,
)
    requires
        aggregate_gossip_verification(collaborators, pre, post, signed_aggregate, r),
        aggregate_early_checks(
            pre,
            signed_aggregate.message.aggregator_index,
            signed_aggregate.message.aggregate@,
        ) is Ok,
        cached_committee(pre, signed_aggregate.message.aggregate.data) == Some(
            Ok::<(Seq<u64>, u64), Error>((members, committees_per_slot)),
        ),
        SelectionProof::elected_in_committee(
            sha256_of(signed_aggregate.message.selection_proof@),
            members.len() as usize,
            pre.spec,
        ) == Ok::<bool, crate::errors::ArithError>(false),
    ensures
        r == Err::<VerifiedAggregatedAttestation, Error>(
            Error::InvalidSelectionProof {
                aggregator_index: signed_aggregate.message.aggregator_index,
            },
        ),
        post.observed_attestations == pre.observed_attestations,
        post.observed_aggregators == pre.observed_aggregators,
        post.observed_attesters == pre.observed_attesters,
{
}

/// Whether `post` is `pre` with nothing taken away: the constants, the clock's reading, the
/// known blocks and the known keys are the same; every committee cache that was held is held
/// unchanged; whatever was observed is still observed; and the slasher's queue, where there
/// is one, has at most grown at its end.
pub open spec fn only_grown(pre: BeaconChainView, post: BeaconChainView) -> bool {
    &&& post.spec == pre.spec
    &&& post.config == pre.config
    &&& post.slot_clock == pre.slot_clock
    &&& post.fork == pre.fork
    &&& post.genesis_validators_root == pre.genesis_validators_root
    &&& post.fork_choice == pre.fork_choice
    &&& post.validator_pubkey_cache == pre.validator_pubkey_cache
    &&& forall|key: (crate::slot_epoch::Epoch, Hash256)| #[trigger]
        pre.shuffling_cache.contains_key(key) ==> post.shuffling_cache.contains_key(key)
            && post.shuffling_cache[key] == pre.shuffling_cache[key]
    &&& pre.observed_attestations.subset_of(post.observed_attestations)
    &&& post.observed_attesters.max_validator_index == pre.observed_attesters.max_validator_index
    &&& pre.observed_attesters.seen.subset_of(post.observed_attesters.seen)
    &&& post.observed_aggregators.max_validator_index
        == pre.observed_aggregators.max_validator_index
    &&& pre.observed_aggregators.seen.subset_of(post.observed_aggregators.seen)
    &&& match pre.slasher {
        None => post.slasher.is_none(),
        Some(queue) => post.slasher matches Some(grown) && queue.is_prefix_of(grown),
    }
}

/// The verification of an aggregate takes nothing away from the chain, however it ends: what
/// was observed stays observed, a committee cache that was held is never replaced, and the
/// known keys and blocks are not touched.
pub proof fn theorem_aggregate_verification_only_adds<T: BeaconChainTypes>(
    collaborators: T,
    pre: BeaconChainView,
    post: BeaconChainView,
    signed_aggregate: SignedAggregateAndProof,
    r: Result<VerifiedAggregatedAttestation, Error>,
)
    requires
        aggregate_gossip_verification(collaborators, pre, post, signed_aggregate, r),
    ensures
        only_grown(pre, post),
{
}

/// The verification of an unaggregated attestation takes nothing away from the chain,
/// however it ends: what was observed stays observed, a committee cache that was held is
/// never replaced, and the known keys and blocks are not touched.
pub proof fn theorem_unaggregated_verification_only_adds<T: BeaconChainTypes>(
    collaborators: T,
    pre: BeaconChainView,
    post: BeaconChainView,
    attestation: Attestation,
    subnet_id: SubnetId,
    r: Result<VerifiedUnaggregatedAttestation, Error>,
)
    requires
        unaggregated_gossip_verification(collaborators, pre, post, attestation, subnet_id, r),
    ensures
        only_grown(pre, post),
{
}

} // verus!
