use beacon_chain::attestation::{
    Attestation, AttestationData, BitList, Checkpoint, IndexedAttestation,
};
use beacon_chain::committee_cache::CommitteeCache;
use beacon_chain::fork_choice::{ForkChoice, ProtoBlock};
use beacon_chain::hash256::{Hash256, PublicKey, Signature};
use beacon_chain::observed_attestations::{ObserveOutcome, ObservedAttestations};
use beacon_chain::observed_attesters::{ObservedAggregators, ObservedAttesters, ObservedAttestersError};
use beacon_chain::shuffling_cache::ShufflingCache;
use beacon_chain::slasher::Slasher;
use beacon_chain::slot_epoch::{Epoch, Slot};
use beacon_chain::validator_pubkey_cache::ValidatorPubkeyCache;

fn root(n: u8) -> Hash256 {
    Hash256::from_bytes([n; 32])
}

fn attestation(target_epoch: u64) -> Attestation {
    Attestation {
        aggregation_bits: BitList::with_bits(vec![true]).expect("short enough"),
        data: AttestationData {
            slot: Slot::new(target_epoch * 8),
            index: 0,
            beacon_block_root: root(1),
            source: Checkpoint { epoch: Epoch::new(0), root: root(2) },
            target: Checkpoint { epoch: Epoch::new(target_epoch), root: root(3) },
        },
        signature: Signature { bytes: [4; 96] },
    }
}

#[test]
fn fork_choice_finds_blocks_by_root() {
    let mut fork_choice = ForkChoice::new();
    assert_eq!(fork_choice.get_block(&root(1)), None);
    assert!(!fork_choice.contains_block(&root(1)));

    let first = ProtoBlock { slot: Slot::new(5), root: root(1), state_root: root(11) };
    let second = ProtoBlock { slot: Slot::new(6), root: root(2), state_root: root(12) };
    assert!(fork_choice.insert_block(first));
    assert!(fork_choice.insert_block(second));
    assert_eq!(fork_choice.get_block(&root(1)), Some(first));
    assert_eq!(fork_choice.get_block(&root(2)), Some(second));
    assert_eq!(fork_choice.get_block(&root(11)), None);
    assert!(fork_choice.contains_block(&root(2)));

    // A block that is known stays as it is.
    let usurper = ProtoBlock { slot: Slot::new(9), root: root(1), state_root: root(13) };
    assert!(!fork_choice.insert_block(usurper));
    assert_eq!(fork_choice.get_block(&root(1)), Some(first));
}

#[test]
fn observed_attestations_know_what_they_have_seen() {
    let mut observed = ObservedAttestations::new();
    assert_eq!(observed.len(), 0);
    assert!(!observed.is_known(root(1)));
    assert_eq!(observed.observe_attestation(root(1)), ObserveOutcome::New);
    assert!(observed.is_known(root(1)));
    assert!(!observed.is_known(root(2)));
    assert_eq!(observed.observe_attestation(root(1)), ObserveOutcome::AlreadyKnown);
    assert_eq!(observed.len(), 1);
    assert_eq!(observed.observe_attestation(root(2)), ObserveOutcome::New);
    assert_eq!(observed.observe_attestation(root(2)), ObserveOutcome::AlreadyKnown);
    assert_eq!(observed.len(), 2);
}

#[test]
fn observed_attesters_are_kept_by_target_epoch() {
    let mut observed = ObservedAttesters::new(100);
    assert_eq!(observed.len(), 0);
    assert_eq!(observed.validator_has_been_observed(&attestation(1), 42), Ok(false));
    assert_eq!(observed.observe_validator(&attestation(1), 42), Ok(false));
    assert_eq!(observed.validator_has_been_observed(&attestation(1), 42), Ok(true));
    assert_eq!(observed.observe_validator(&attestation(1), 42), Ok(true));
    assert_eq!(observed.len(), 1);

    // The same validator in another epoch, and another validator in the same epoch, are new.
    assert_eq!(observed.validator_has_been_observed(&attestation(2), 42), Ok(false));
    assert_eq!(observed.validator_has_been_observed(&attestation(1), 43), Ok(false));
    assert_eq!(observed.observe_validator(&attestation(2), 42), Ok(false));
    assert_eq!(observed.observe_validator(&attestation(1), 43), Ok(false));
    assert_eq!(observed.len(), 3);
    assert_eq!(observed.observe_validator(&attestation(2), 42), Ok(true));
    assert_eq!(observed.len(), 3);
}

#[test]
fn observed_attesters_turn_down_indices_above_the_limit() {
    let mut observed: ObservedAggregators = ObservedAttesters::new(100);
    assert_eq!(observed.validator_has_been_observed(&attestation(1), 100), Ok(false));
    assert_eq!(
        observed.validator_has_been_observed(&attestation(1), 101),
        Err(ObservedAttestersError::ValidatorIndexTooHigh(101))
    );
    assert_eq!(
        observed.observe_validator(&attestation(1), 101),
        Err(ObservedAttestersError::ValidatorIndexTooHigh(101))
    );
    assert_eq!(observed.len(), 0);
    assert_eq!(observed.observe_validator(&attestation(1), 100), Ok(false));
    assert_eq!(observed.len(), 1);
}

fn committee_cache(epoch: u64, first_member: u64) -> CommitteeCache {
    CommitteeCache::new(Epoch::new(epoch), 2, 1, vec![vec![first_member], vec![first_member + 1]])
        .expect("two committees")
}

#[test]
fn shuffling_cache_keeps_the_first_entry_under_a_key() {
    let mut cache = ShufflingCache::new();
    assert_eq!(cache.len(), 0);
    assert!(cache.get(Epoch::new(5), root(1)).is_none());
    assert!(!cache.contains(Epoch::new(5), root(1)));

    cache.insert(Epoch::new(5), root(1), committee_cache(5, 100));
    assert_eq!(cache.len(), 1);
    assert!(cache.contains(Epoch::new(5), root(1)));
    assert_eq!(cache.get(Epoch::new(5), root(1)), Some(&committee_cache(5, 100)));
    // Another epoch or another root is another key.
    assert!(cache.get(Epoch::new(6), root(1)).is_none());
    assert!(cache.get(Epoch::new(5), root(2)).is_none());

    // A second entry under the key changes nothing.
    cache.insert(Epoch::new(5), root(1), committee_cache(5, 200));
    assert_eq!(cache.len(), 1);
    assert_eq!(cache.get(Epoch::new(5), root(1)), Some(&committee_cache(5, 100)));

    cache.insert(Epoch::new(5), root(2), committee_cache(5, 300));
    cache.insert(Epoch::new(6), root(1), committee_cache(6, 400));
    assert_eq!(cache.len(), 3);
    assert_eq!(cache.get(Epoch::new(5), root(1)), Some(&committee_cache(5, 100)));
    assert_eq!(cache.get(Epoch::new(5), root(2)), Some(&committee_cache(5, 300)));
    assert_eq!(cache.get(Epoch::new(6), root(1)), Some(&committee_cache(6, 400)));
}

#[test]
fn pubkey_cache_only_grows() {
    let mut cache = ValidatorPubkeyCache::new();
    assert_eq!(cache.len(), 0);
    assert_eq!(cache.get(0), None);
    let first = PublicKey { bytes: [1; 48] };
    let second = PublicKey { bytes: [2; 48] };
    assert_eq!(cache.import(first), 0);
    assert_eq!(cache.get(0), Some(first));
    assert_eq!(cache.get(1), None);
    assert_eq!(cache.import(second), 1);
    assert_eq!(cache.len(), 2);
    // The first key stays where it was.
    assert_eq!(cache.get(0), Some(first));
    assert_eq!(cache.get(1), Some(second));
    assert_eq!(cache.get(2), None);
    assert_eq!(cache.get(u64::MAX), None);
}

#[test]
fn slasher_queue_keeps_the_order_of_arrival() {
    let indexed = |indices: Vec<u64>| IndexedAttestation {
        attesting_indices: indices,
        data: attestation(1).data,
        signature: Signature { bytes: [4; 96] },
    };
    let mut slasher = Slasher::new();
    assert_eq!(slasher.len(), 0);
    slasher.accept_attestation(indexed(vec![1]));
    slasher.accept_attestation(indexed(vec![2, 3]));
    slasher.accept_attestation(indexed(vec![1]));
    assert_eq!(slasher.len(), 3);
    assert_eq!(slasher.take_attestations(), vec![indexed(vec![1]), indexed(vec![2, 3]), indexed(vec![1])]);
    assert_eq!(slasher.len(), 0);
    assert!(slasher.take_attestations().is_empty());
}
