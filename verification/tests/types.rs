use beacon_chain::attestation::{
    Attestation, AttestationData, BitList, Checkpoint, MAX_VALIDATORS_PER_COMMITTEE,
};
use beacon_chain::attesting_indices::{get_attesting_indices, get_indexed_attestation};
use beacon_chain::chain_spec::{ChainSpec, MAXIMUM_GOSSIP_CLOCK_DISPARITY_MILLIS};
use beacon_chain::committee_cache::{CommitteeCache, RelativeEpoch, RelativeEpochError};
use beacon_chain::errors::{ArithError, AttestationValidationError};
use beacon_chain::hash256::{Hash256, Signature};
use beacon_chain::slot_epoch::{Epoch, Slot};
use beacon_chain::subnet_id::SubnetId;

#[test]
fn slots_fall_into_epochs() {
    assert_eq!(Slot::new(0).epoch(32), Epoch::new(0));
    assert_eq!(Slot::new(31).epoch(32), Epoch::new(0));
    assert_eq!(Slot::new(32).epoch(32), Epoch::new(1));
    assert_eq!(Slot::new(80).epoch(8), Epoch::new(10));
    assert_eq!(Slot::new(87).epoch(8), Epoch::new(10));
    assert_eq!(Slot::new(u64::MAX).epoch(1), Epoch::new(u64::MAX));
    assert_eq!(Slot::new(85).position_in_epoch(8), 5);
    assert_eq!(Slot::new(80).position_in_epoch(8), 0);
    assert_eq!(Slot::new(7).as_u64(), 7);
    assert_eq!(Epoch::new(7).as_u64(), 7);
}

#[test]
fn slot_arithmetic_saturates() {
    assert_eq!(Slot::new(5).saturating_sub(8), Slot::new(0));
    assert_eq!(Slot::new(40).saturating_sub(32), Slot::new(8));
    assert_eq!(Slot::new(32).saturating_sub(32), Slot::new(0));
    assert_eq!(Slot::new(5).saturating_add(8), Slot::new(13));
    assert_eq!(Slot::new(u64::MAX - 1).saturating_add(1), Slot::new(u64::MAX));
    assert_eq!(Slot::new(u64::MAX - 1).saturating_add(2), Slot::new(u64::MAX));
    assert_eq!(Slot::new(u64::MAX).saturating_add(u64::MAX), Slot::new(u64::MAX));
}

#[test]
fn roots_compare_by_their_bytes() {
    let mut bytes = [7u8; 32];
    let a = Hash256::from_bytes(bytes);
    assert!(a.same(&Hash256::from_bytes(bytes)));
    bytes[31] = 8;
    assert!(!a.same(&Hash256::from_bytes(bytes)));
    bytes[31] = 7;
    bytes[0] = 8;
    assert!(!a.same(&Hash256::from_bytes(bytes)));
    assert_eq!(Hash256::zero().bytes, [0u8; 32]);
    assert!(Hash256::zero().same(&Hash256::from_bytes([0; 32])));
}

#[test]
fn bit_list_counts_its_set_bits() {
    let bits = BitList::with_bits(vec![true, false, true, true, false]).expect("short enough");
    assert_eq!(bits.len(), 5);
    assert_eq!(bits.num_set_bits(), 3);
    assert!(!bits.is_zero());
    assert_eq!(bits.get(0), Some(true));
    assert_eq!(bits.get(1), Some(false));
    assert_eq!(bits.get(4), Some(false));
    assert_eq!(bits.get(5), None);
    assert_eq!(bits.clone(), bits);

    let empty = BitList::with_bits(vec![]).expect("short enough");
    assert_eq!(empty.len(), 0);
    assert_eq!(empty.num_set_bits(), 0);
    assert!(empty.is_zero());
    assert!(BitList::with_bits(vec![false; 9]).expect("short enough").is_zero());
}

#[test]
fn bit_list_holds_at_most_a_committee() {
    assert_eq!(MAX_VALIDATORS_PER_COMMITTEE, 2048);
    let full = BitList::with_bits(vec![true; 2048]).expect("a full committee");
    assert_eq!(full.num_set_bits(), 2048);
    assert!(BitList::with_bits(vec![true; 2049]).is_none());
}

#[test]
fn relative_epoch_reaches_one_epoch_either_way() {
    let base = Epoch::new(10);
    assert_eq!(RelativeEpoch::from_epoch(base, Epoch::new(10)), Ok(RelativeEpoch::Current));
    assert_eq!(RelativeEpoch::from_epoch(base, Epoch::new(9)), Ok(RelativeEpoch::Previous));
    assert_eq!(RelativeEpoch::from_epoch(base, Epoch::new(11)), Ok(RelativeEpoch::Next));
    assert_eq!(
        RelativeEpoch::from_epoch(base, Epoch::new(8)),
        Err(RelativeEpochError::EpochTooLow { base, other: Epoch::new(8) })
    );
    assert_eq!(
        RelativeEpoch::from_epoch(base, Epoch::new(12)),
        Err(RelativeEpochError::EpochTooHigh { base, other: Epoch::new(12) })
    );
    let last = Epoch::new(u64::MAX);
    assert_eq!(RelativeEpoch::from_epoch(last, last), Ok(RelativeEpoch::Current));
    assert_eq!(RelativeEpoch::from_epoch(Epoch::new(0), last), Err(RelativeEpochError::EpochTooHigh { base: Epoch::new(0), other: last }));
    assert_eq!(RelativeEpoch::from_epoch(last, Epoch::new(0)), Err(RelativeEpochError::EpochTooLow { base: last, other: Epoch::new(0) }));
    assert_eq!(RelativeEpoch::from_epoch(Epoch::new(0), Epoch::new(1)), Ok(RelativeEpoch::Next));
    assert_eq!(RelativeEpoch::from_epoch(Epoch::new(1), Epoch::new(0)), Ok(RelativeEpoch::Previous));
}

fn committees(count: u64) -> Vec<Vec<u64>> {
    (0..count).map(|n| vec![n * 10, n * 10 + 1, n * 10 + 2]).collect()
}

#[test]
fn committee_cache_finds_committees_by_slot_and_index() {
    // Epoch 10 of eight slots, two committees per slot.
    let cache = CommitteeCache::new(Epoch::new(10), 8, 2, committees(16)).expect("sixteen committees");
    assert_eq!(cache.initialized_epoch(), Epoch::new(10));
    assert_eq!(cache.committees_per_slot(), 2);

    let first = cache.get_beacon_committee(Slot::new(80), 0).expect("the first committee");
    assert_eq!(first.slot, Slot::new(80));
    assert_eq!(first.index, 0);
    assert_eq!(first.committee, &[0, 1, 2]);
    let eleventh = cache.get_beacon_committee(Slot::new(85), 1).expect("committee number 11");
    assert_eq!(eleventh.slot, Slot::new(85));
    assert_eq!(eleventh.index, 1);
    assert_eq!(eleventh.committee, &[110, 111, 112]);
    let last = cache.get_beacon_committee(Slot::new(87), 1).expect("the last committee");
    assert_eq!(last.committee, &[150, 151, 152]);

    // No third committee in a slot, and no slot outside the epoch.
    assert!(cache.get_beacon_committee(Slot::new(80), 2).is_none());
    assert!(cache.get_beacon_committee(Slot::new(79), 0).is_none());
    assert!(cache.get_beacon_committee(Slot::new(88), 0).is_none());
    assert!(cache.get_beacon_committee(Slot::new(80), u64::MAX).is_none());

    let copy = cache.clone();
    assert_eq!(copy, cache);
    assert_eq!(copy.get_beacon_committee(Slot::new(85), 1).expect("copied").committee, &[110, 111, 112]);
}

#[test]
fn committee_cache_needs_one_committee_for_each_slot_and_index() {
    assert!(CommitteeCache::new(Epoch::new(0), 8, 2, committees(16)).is_some());
    assert!(CommitteeCache::new(Epoch::new(0), 8, 2, committees(15)).is_none());
    assert!(CommitteeCache::new(Epoch::new(0), 8, 2, committees(17)).is_none());
    assert!(CommitteeCache::new(Epoch::new(0), 0, 2, committees(0)).is_none());
    assert!(CommitteeCache::new(Epoch::new(0), u64::MAX, u64::MAX, committees(1)).is_none());
    // An epoch without committees has none to find.
    let empty = CommitteeCache::new(Epoch::new(0), 8, 0, committees(0)).expect("no committees");
    assert!(empty.get_beacon_committee(Slot::new(0), 0).is_none());
}

fn attestation(bits: Vec<bool>) -> Attestation {
    Attestation {
        aggregation_bits: BitList::with_bits(bits).expect("short enough"),
        data: AttestationData {
            slot: Slot::new(80),
            index: 1,
            beacon_block_root: Hash256::from_bytes([1; 32]),
            source: Checkpoint { epoch: Epoch::new(9), root: Hash256::from_bytes([2; 32]) },
            target: Checkpoint { epoch: Epoch::new(10), root: Hash256::from_bytes([3; 32]) },
        },
        signature: Signature { bytes: [4; 96] },
    }
}

#[test]
fn indexed_attestation_lists_the_attesters_in_ascending_order() {
    let committee = [50u64, 7, 19, 3, 88, 42];
    let attestation = attestation(vec![true, true, false, true, false, true]);
    let indexed = get_indexed_attestation(&committee, &attestation).expect("one bit per member");
    assert_eq!(indexed.attesting_indices, vec![3, 7, 42, 50]);
    assert_eq!(indexed.data, attestation.data);
    assert_eq!(indexed.signature, attestation.signature);
    assert_eq!(indexed.clone(), indexed);

    let nobody = get_indexed_attestation(&committee, &self::attestation(vec![false; 6])).expect("one bit per member");
    assert!(nobody.attesting_indices.is_empty());
    let everybody = get_indexed_attestation(&committee, &self::attestation(vec![true; 6])).expect("one bit per member");
    assert_eq!(everybody.attesting_indices, vec![3, 7, 19, 42, 50, 88]);
    // A validator that sits in the committee twice attests twice.
    let twice = get_indexed_attestation(&[9, 4, 9], &self::attestation(vec![true; 3])).expect("one bit per member");
    assert_eq!(twice.attesting_indices, vec![4, 9, 9]);
}

#[test]
fn indexed_attestation_needs_one_bit_for_each_member() {
    let committee = [50u64, 7, 19];
    for len in [0usize, 2, 4] {
        assert_eq!(
            get_indexed_attestation(&committee, &attestation(vec![true; len])),
            Err(AttestationValidationError::BadAggregationBitfieldLength { committee_len: 3, bitfield_len: len })
        );
    }
    let bits = BitList::with_bits(vec![false, true, true]).expect("short enough");
    assert_eq!(get_attesting_indices(&committee, &bits), Ok(vec![7, 19]));
    let empty = BitList::with_bits(vec![]).expect("short enough");
    assert_eq!(get_attesting_indices(&[], &empty), Ok(vec![]));
}

#[test]
fn subnet_is_the_committee_number_modulo_the_subnet_count() {
    let spec = ChainSpec::mainnet();
    // Slot 35 is the fourth slot of its epoch of 32 slots; with 4 committees per slot,
    // committee 2 has number 3 * 4 + 2.
    assert_eq!(SubnetId::compute_subnet(Slot::new(35), 2, 4, &spec), Ok(SubnetId::new(14)));
    // Slot 63 is the last slot of its epoch; with 3 committees per slot, committee 1 has
    // number 31 * 3 + 1 = 94, on subnet 94 - 64.
    assert_eq!(SubnetId::compute_subnet(Slot::new(63), 1, 3, &spec), Ok(SubnetId::new(30)));
    assert_eq!(SubnetId::compute_subnet(Slot::new(0), 0, 1, &spec), Ok(SubnetId::new(0)));
    assert_eq!(SubnetId::compute_subnet(Slot::new(32), 64, 1, &spec), Ok(SubnetId::new(0)));

    let data = attestation(vec![true]).data;
    // Slot 80 is the first slot of an epoch of eight.
    assert_eq!(
        SubnetId::compute_subnet_for_attestation_data(&data, 2, &ChainSpec::minimal()),
        Ok(SubnetId::new(1))
    );
    // In epochs of 32 slots slot 80 is the seventeenth: 16 * 2 + 1.
    assert_eq!(SubnetId::compute_subnet_for_attestation_data(&data, 2, &spec), Ok(SubnetId::new(33)));
}

#[test]
fn subnet_arithmetic_reports_what_has_no_result() {
    let spec = ChainSpec::mainnet();
    assert_eq!(SubnetId::compute_subnet(Slot::new(33), 0, u64::MAX, &spec), Ok(SubnetId::new(u64::MAX % 64)));
    assert_eq!(SubnetId::compute_subnet(Slot::new(34), 0, u64::MAX, &spec), Err(ArithError::Overflow));
    assert_eq!(SubnetId::compute_subnet(Slot::new(33), 1, u64::MAX, &spec), Err(ArithError::Overflow));
    let mut no_slots = spec;
    no_slots.slots_per_epoch = 0;
    assert_eq!(SubnetId::compute_subnet(Slot::new(33), 0, 1, &no_slots), Err(ArithError::DivisionByZero));
    let mut no_subnets = spec;
    no_subnets.attestation_subnet_count = 0;
    assert_eq!(SubnetId::compute_subnet(Slot::new(33), 0, 1, &no_subnets), Err(ArithError::DivisionByZero));
}

#[test]
fn presets_hold_the_protocol_constants() {
    let mainnet = ChainSpec::mainnet();
    assert_eq!(mainnet.slots_per_epoch, 32);
    assert_eq!(mainnet.target_aggregators_per_committee, 16);
    assert_eq!(mainnet.attestation_subnet_count, 64);
    assert_eq!(mainnet.validator_registry_limit, 1 << 40);
    assert_eq!(mainnet.domain_beacon_attester, 1);
    assert_eq!(mainnet.domain_selection_proof, 5);
    assert_eq!(mainnet.domain_aggregate_and_proof, 6);
    assert!(mainnet.is_valid());
    let minimal = ChainSpec::minimal();
    assert_eq!(minimal.slots_per_epoch, 8);
    assert_eq!(ChainSpec { slots_per_epoch: 32, ..minimal }, mainnet);
    assert!(minimal.is_valid());
    assert_eq!(MAXIMUM_GOSSIP_CLOCK_DISPARITY_MILLIS, 500);
}
