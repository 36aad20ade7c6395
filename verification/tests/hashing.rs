use beacon_chain::attestation::{
    AggregateAndProof, Attestation, AttestationData, BitList, Checkpoint, IndexedAttestation,
    SignedAggregateAndProof,
};
use beacon_chain::chain_spec::{ChainSpec, Fork};
use beacon_chain::errors::{ArithError, SignatureSetError};
use beacon_chain::hash256::{Hash256, PublicKey, Signature};
use beacon_chain::merkle::{
    aggregate_and_proof_tree_hash_root, attestation_data_tree_hash_root,
    attestation_tree_hash_root, bitlist_tree_hash_root, checkpoint_tree_hash_root, compute_domain,
    compute_signing_root, public_key_tree_hash_root, signature_tree_hash_root, uint64_chunk_bytes,
};
use beacon_chain::selection_proof::SelectionProof;
use beacon_chain::signature_sets::{
    get_domain, indexed_attestation_signature_set_from_pubkeys,
    signed_aggregate_selection_proof_signature_set, signed_aggregate_signature_set,
};
use beacon_chain::signed_beacon_block_header::{BeaconBlockHeader, SignedBeaconBlockHeader};
use beacon_chain::slot_epoch::{Epoch, Slot};
use beacon_chain::validator_pubkey_cache::ValidatorPubkeyCache;
use tree_hash::TreeHash;

/// SHA-256 of the concatenation of two chunks.
fn h(left: &[u8], right: &[u8]) -> [u8; 32] {
    ethereum_hashing::hash32_concat(left, right)
}

const ZERO: [u8; 32] = [0; 32];

fn chunk(value: u64) -> [u8; 32] {
    let mut out = [0u8; 32];
    out[..8].copy_from_slice(&value.to_le_bytes());
    out
}

fn root(n: u8) -> Hash256 {
    Hash256::from_bytes([n; 32])
}

fn signature() -> Signature {
    let mut bytes = [0u8; 96];
    for (i, b) in bytes.iter_mut().enumerate() {
        *b = (i as u8).wrapping_mul(7).wrapping_add(1);
    }
    Signature { bytes }
}

fn data() -> AttestationData {
    AttestationData {
        slot: Slot::new(0x0102_0304_0506_0708),
        index: 3,
        beacon_block_root: root(0xbb),
        source: Checkpoint { epoch: Epoch::new(9), root: root(0x01) },
        target: Checkpoint { epoch: Epoch::new(10), root: root(0xaa) },
    }
}

fn expected_checkpoint_root(checkpoint: &Checkpoint) -> [u8; 32] {
    h(&chunk(checkpoint.epoch.as_u64()), &checkpoint.root.bytes)
}

fn expected_data_root(data: &AttestationData) -> [u8; 32] {
    let left = h(
        &h(&chunk(data.slot.as_u64()), &chunk(data.index)),
        &h(&data.beacon_block_root.bytes, &expected_checkpoint_root(&data.source)),
    );
    let right = h(&h(&expected_checkpoint_root(&data.target), &ZERO), &h(&ZERO, &ZERO));
    h(&left, &right)
}

fn expected_signature_root(signature: &Signature) -> [u8; 32] {
    h(
        &h(&signature.bytes[0..32], &signature.bytes[32..64]),
        &h(&signature.bytes[64..96], &ZERO),
    )
}

/// The root over eight leaves that hold `bytes` and zeros after them, with `len` mixed in.
fn expected_bitlist_root(bytes: &[u8], len: u64) -> [u8; 32] {
    let mut leaves = [[0u8; 32]; 8];
    for (i, b) in bytes.iter().enumerate() {
        leaves[i / 32][i % 32] = *b;
    }
    let quarter = |a: usize| h(&h(&leaves[a], &leaves[a + 1]), &h(&leaves[a + 2], &leaves[a + 3]));
    h(&h(&quarter(0), &quarter(4)), &chunk(len))
}

fn bits(len: usize, set: &[usize]) -> BitList {
    let mut bits = vec![false; len];
    for position in set {
        bits[*position] = true;
    }
    BitList::with_bits(bits).expect("fits a committee")
}

#[test]
fn sha256_is_the_standard_digest() {
    // The digest of "abc" from the standard.
    let expected = [
        0xba, 0x78, 0x16, 0xbf, 0x8f, 0x01, 0xcf, 0xea, 0x41, 0x41, 0x40, 0xde, 0x5d, 0xae, 0x22,
        0x23, 0xb0, 0x03, 0x61, 0xa3, 0x96, 0x17, 0x7a, 0x9c, 0xb4, 0x10, 0xff, 0x61, 0xf2, 0x00,
        0x15, 0xad,
    ];
    assert_eq!(ethereum_hashing::hash(b"abc"), expected.to_vec());
}

#[test]
fn uint64_chunk_is_little_endian_and_zero_padded() {
    let mut expected = vec![0u8; 32];
    expected[0] = 0x08;
    expected[1] = 0x07;
    expected[2] = 0x06;
    expected[3] = 0x05;
    expected[4] = 0x04;
    expected[5] = 0x03;
    expected[6] = 0x02;
    expected[7] = 0x01;
    assert_eq!(uint64_chunk_bytes(0x0102_0304_0506_0708), expected);
    assert_eq!(uint64_chunk_bytes(0), vec![0u8; 32]);
    assert_eq!(uint64_chunk_bytes(u64::MAX)[..8], [0xff; 8]);
    assert_eq!(uint64_chunk_bytes(u64::MAX)[8..], [0u8; 24]);
    // As the hashing crate lays a number out.
    assert_eq!(uint64_chunk_bytes(42), 42u64.tree_hash_root().as_slice().to_vec());
}

#[test]
fn checkpoint_root_hashes_epoch_and_root() {
    let checkpoint = Checkpoint { epoch: Epoch::new(10), root: root(0xaa) };
    assert_eq!(checkpoint_tree_hash_root(&checkpoint).bytes, expected_checkpoint_root(&checkpoint));
    let other = Checkpoint { epoch: Epoch::new(11), root: root(0xaa) };
    assert_ne!(checkpoint_tree_hash_root(&checkpoint), checkpoint_tree_hash_root(&other));
}

#[test]
fn attestation_data_root_is_the_root_over_its_five_fields() {
    let data = data();
    assert_eq!(attestation_data_tree_hash_root(&data).bytes, expected_data_root(&data));
}

#[test]
fn signature_and_public_key_roots_are_over_their_bytes() {
    let signature = signature();
    assert_eq!(signature_tree_hash_root(&signature).bytes, expected_signature_root(&signature));

    let mut bytes = [0u8; 48];
    for (i, b) in bytes.iter_mut().enumerate() {
        *b = i as u8 + 1;
    }
    let mut second = [0u8; 32];
    second[..16].copy_from_slice(&bytes[32..48]);
    assert_eq!(public_key_tree_hash_root(&PublicKey { bytes }).bytes, h(&bytes[0..32], &second));
}

#[test]
fn bitlist_root_packs_the_bits_and_mixes_in_the_length() {
    // Bits 0 and 9 of ten: the bytes 0x01 and 0x02.
    assert_eq!(bitlist_tree_hash_root(&bits(10, &[0, 9])).bytes, expected_bitlist_root(&[0x01, 0x02], 10));
    // Bit 7 of eight: the byte 0x80.
    assert_eq!(bitlist_tree_hash_root(&bits(8, &[7])).bytes, expected_bitlist_root(&[0x80], 8));
    // The empty list.
    assert_eq!(bitlist_tree_hash_root(&bits(0, &[])).bytes, expected_bitlist_root(&[], 0));
    // Lists that differ only in length differ in root.
    assert_ne!(bitlist_tree_hash_root(&bits(9, &[0])), bitlist_tree_hash_root(&bits(10, &[0])));
    // A full list of the greatest length fills all eight leaves.
    let all: Vec<usize> = (0..2048).collect();
    assert_eq!(bitlist_tree_hash_root(&bits(2048, &all)).bytes, expected_bitlist_root(&[0xff; 256], 2048));
    // Bit 256 is the lowest bit of the first byte of the second leaf.
    let mut packed = [0u8; 33];
    packed[32] = 0x01;
    assert_eq!(bitlist_tree_hash_root(&bits(300, &[256])).bytes, expected_bitlist_root(&packed, 300));
}

fn attestation() -> Attestation {
    Attestation { aggregation_bits: bits(10, &[0, 9]), data: data(), signature: signature() }
}

fn expected_attestation_root(attestation: &Attestation, packed: &[u8], len: u64) -> [u8; 32] {
    h(
        &h(&expected_bitlist_root(packed, len), &expected_data_root(&attestation.data)),
        &h(&expected_signature_root(&attestation.signature), &ZERO),
    )
}

#[test]
fn attestation_root_is_the_root_over_bits_data_and_signature() {
    let attestation = attestation();
    let expected = expected_attestation_root(&attestation, &[0x01, 0x02], 10);
    assert_eq!(attestation_tree_hash_root(&attestation).bytes, expected);
    assert_eq!(attestation_tree_hash_root(&attestation.clone()).bytes, expected);

    let mut other = attestation.clone();
    other.data.index = 4;
    assert_ne!(attestation_tree_hash_root(&other), attestation_tree_hash_root(&attestation));
    let mut other = attestation.clone();
    other.signature.bytes[95] ^= 1;
    assert_ne!(attestation_tree_hash_root(&other), attestation_tree_hash_root(&attestation));
    let mut other = attestation.clone();
    other.aggregation_bits = bits(10, &[0, 8]);
    assert_ne!(attestation_tree_hash_root(&other), attestation_tree_hash_root(&attestation));
}

#[test]
fn aggregate_and_proof_root_is_the_root_over_index_aggregate_and_proof() {
    let message = AggregateAndProof {
        aggregator_index: 42,
        aggregate: attestation(),
        selection_proof: Signature { bytes: [0x55; 96] },
    };
    let expected = h(
        &h(&chunk(42), &expected_attestation_root(&message.aggregate, &[0x01, 0x02], 10)),
        &h(&expected_signature_root(&message.selection_proof), &ZERO),
    );
    assert_eq!(aggregate_and_proof_tree_hash_root(&message).bytes, expected);
}

fn expected_domain(domain_type: u32, version: [u8; 4], genesis: &Hash256) -> Vec<u8> {
    let mut version_chunk = [0u8; 32];
    version_chunk[..4].copy_from_slice(&version);
    let fork_data_root = h(&version_chunk, &genesis.bytes);
    let mut domain = domain_type.to_le_bytes().to_vec();
    domain.extend_from_slice(&fork_data_root[..28]);
    domain
}

#[test]
fn domain_is_the_kind_and_the_start_of_the_fork_data_root() {
    let genesis = root(0x11);
    let domain = compute_domain(1, [1, 2, 3, 4], &genesis);
    assert_eq!(domain.len(), 32);
    assert_eq!(domain[..4], [1, 0, 0, 0]);
    assert_eq!(domain, expected_domain(1, [1, 2, 3, 4], &genesis));
    assert_eq!(compute_domain(0x0605_0403, [0; 4], &genesis)[..4], [3, 4, 5, 6]);
    assert_ne!(compute_domain(1, [1, 2, 3, 4], &genesis)[4..], compute_domain(1, [1, 2, 3, 5], &genesis)[4..]);
}

#[test]
fn domain_follows_the_fork_schedule() {
    let genesis = root(0x11);
    let fork = Fork { previous_version: [0, 0, 0, 1], current_version: [0, 0, 0, 2], epoch: Epoch::new(5) };
    assert_eq!(fork.get_fork_version(Epoch::new(4)), [0, 0, 0, 1]);
    assert_eq!(fork.get_fork_version(Epoch::new(5)), [0, 0, 0, 2]);
    assert_eq!(fork.get_fork_version(Epoch::new(6)), [0, 0, 0, 2]);
    assert_eq!(get_domain(Epoch::new(4), 5, &fork, &genesis), expected_domain(5, [0, 0, 0, 1], &genesis));
    assert_eq!(get_domain(Epoch::new(5), 5, &fork, &genesis), expected_domain(5, [0, 0, 0, 2], &genesis));
}

#[test]
fn signing_root_hashes_object_root_and_domain() {
    let object_root = [0x21u8; 32];
    let domain = [0x43u8; 32];
    assert_eq!(compute_signing_root(&object_root, &domain).bytes, h(&object_root, &domain));
}

fn pubkeys(count: u64) -> ValidatorPubkeyCache {
    let mut cache = ValidatorPubkeyCache::new();
    for i in 0..count {
        cache.import(PublicKey { bytes: [i as u8; 48] });
    }
    cache
}

fn fork() -> Fork {
    Fork { previous_version: [0, 0, 0, 1], current_version: [0, 0, 0, 2], epoch: Epoch::new(10) }
}

#[test]
fn indexed_attestation_signature_set_names_the_attesters_and_the_data() {
    let cache = pubkeys(50);
    let genesis = root(0x11);
    let spec = ChainSpec::minimal();
    let indexed = IndexedAttestation { attesting_indices: vec![3, 42], data: data(), signature: signature() };

    let set = indexed_attestation_signature_set_from_pubkeys(
        &cache, &indexed.signature, &indexed, &fork(), &genesis, &spec,
    )
    .expect("both keys are known");
    assert_eq!(set.signature, indexed.signature);
    assert_eq!(set.signing_keys, vec![PublicKey { bytes: [3; 48] }, PublicKey { bytes: [42; 48] }]);
    // The attester domain, under the version of the target epoch 10.
    let domain = expected_domain(1, [0, 0, 0, 2], &genesis);
    assert_eq!(set.message.bytes, h(&expected_data_root(&indexed.data), &domain));

    // The first attester without a key is named.
    let unknown = IndexedAttestation { attesting_indices: vec![3, 50, 42, 51], data: data(), signature: signature() };
    assert_eq!(
        indexed_attestation_signature_set_from_pubkeys(&cache, &unknown.signature, &unknown, &fork(), &genesis, &spec),
        Err(SignatureSetError::ValidatorUnknown(50))
    );
    // Nobody signed: no keys.
    let nobody = IndexedAttestation { attesting_indices: vec![], data: data(), signature: signature() };
    let set = indexed_attestation_signature_set_from_pubkeys(&cache, &nobody.signature, &nobody, &fork(), &genesis, &spec)
        .expect("no key is missing");
    assert!(set.signing_keys.is_empty());
}

#[test]
fn aggregate_signature_sets_name_the_aggregator() {
    let cache = pubkeys(50);
    let genesis = root(0x11);
    let spec = ChainSpec::minimal();
    let mut aggregate = attestation();
    // Slot 79 lies in epoch 9, before the fork; the target epoch 10 lies after it.
    aggregate.data.slot = Slot::new(79);
    let signed = SignedAggregateAndProof {
        message: AggregateAndProof {
            aggregator_index: 42,
            aggregate,
            selection_proof: Signature { bytes: [0x55; 96] },
        },
        signature: Signature { bytes: [0x66; 96] },
    };

    let selection = signed_aggregate_selection_proof_signature_set(&cache, &signed, &fork(), &genesis, &spec)
        .expect("the key is known");
    assert_eq!(selection.signature, signed.message.selection_proof);
    assert_eq!(selection.signing_keys, vec![PublicKey { bytes: [42; 48] }]);
    // The slot is signed, under the selection domain and the version of the slot's epoch.
    assert_eq!(selection.message.bytes, h(&chunk(79), &expected_domain(5, [0, 0, 0, 1], &genesis)));

    let outer = signed_aggregate_signature_set(&cache, &signed, &fork(), &genesis, &spec)
        .expect("the key is known");
    assert_eq!(outer.signature, signed.signature);
    assert_eq!(outer.signing_keys, vec![PublicKey { bytes: [42; 48] }]);
    // The aggregate with its proof is signed, under the version of the target epoch.
    assert_eq!(
        outer.message.bytes,
        h(
            &aggregate_and_proof_tree_hash_root(&signed.message).bytes,
            &expected_domain(6, [0, 0, 0, 2], &genesis)
        )
    );

    let mut unknown = signed.clone();
    unknown.message.aggregator_index = 50;
    assert_eq!(
        signed_aggregate_selection_proof_signature_set(&cache, &unknown, &fork(), &genesis, &spec),
        Err(SignatureSetError::ValidatorUnknown(50))
    );
    assert_eq!(
        signed_aggregate_signature_set(&cache, &unknown, &fork(), &genesis, &spec),
        Err(SignatureSetError::ValidatorUnknown(50))
    );
}

#[test]
fn selection_proof_digest_is_sha256_of_the_signature() {
    let proof = SelectionProof::from(signature());
    assert_eq!(proof.signature_hash().bytes.to_vec(), ethereum_hashing::hash(&signature().bytes));
    assert_ne!(proof.signature_hash().bytes[..], signature().bytes[..32]);
}

#[test]
fn selection_odds_follow_the_committee_size() {
    let spec = ChainSpec::mainnet();
    assert_eq!(SelectionProof::modulo(0, &spec), Ok(1));
    assert_eq!(SelectionProof::modulo(15, &spec), Ok(1));
    assert_eq!(SelectionProof::modulo(16, &spec), Ok(1));
    assert_eq!(SelectionProof::modulo(31, &spec), Ok(1));
    assert_eq!(SelectionProof::modulo(32, &spec), Ok(2));
    assert_eq!(SelectionProof::modulo(2048, &spec), Ok(128));
    let mut none = spec;
    none.target_aggregators_per_committee = 0;
    assert_eq!(SelectionProof::modulo(32, &none), Err(ArithError::DivisionByZero));
}

#[test]
fn selection_is_decided_by_the_first_eight_bytes_of_the_digest() {
    let mut digest = [0xffu8; 32];
    digest[..8].copy_from_slice(&12u64.to_le_bytes());
    let digest = Hash256::from_bytes(digest);
    assert_eq!(SelectionProof::is_aggregator_from_hash(&digest, 1), Ok(true));
    assert_eq!(SelectionProof::is_aggregator_from_hash(&digest, 2), Ok(true));
    assert_eq!(SelectionProof::is_aggregator_from_hash(&digest, 3), Ok(true));
    assert_eq!(SelectionProof::is_aggregator_from_hash(&digest, 4), Ok(true));
    assert_eq!(SelectionProof::is_aggregator_from_hash(&digest, 5), Ok(false));
    assert_eq!(SelectionProof::is_aggregator_from_hash(&digest, 12), Ok(true));
    assert_eq!(SelectionProof::is_aggregator_from_hash(&digest, 13), Ok(false));
    assert_eq!(SelectionProof::is_aggregator_from_hash(&digest, 0), Err(ArithError::DivisionByZero));

    let mut high = [0u8; 32];
    high[7] = 0x80;
    let high = Hash256::from_bytes(high);
    assert_eq!(SelectionProof::is_aggregator_from_hash(&high, 1 << 63), Ok(true));
    assert_eq!(SelectionProof::is_aggregator_from_hash(&high, 3), Ok(false));
}

#[test]
fn selection_proof_is_judged_by_its_digest() {
    let spec = ChainSpec::mainnet();
    let proof = SelectionProof::from(signature());
    let digest = ethereum_hashing::hash(&signature().bytes);
    let mut leading = [0u8; 8];
    leading.copy_from_slice(&digest[..8]);
    let number = u64::from_le_bytes(leading);

    assert_eq!(proof.is_aggregator_from_modulo(7), Ok(number % 7 == 0));
    assert_eq!(proof.is_aggregator_from_modulo(2), Ok(number % 2 == 0));
    assert_eq!(proof.is_aggregator_from_modulo(0), Err(ArithError::DivisionByZero));
    // A committee of 80 members: one validator in five.
    assert_eq!(proof.is_aggregator(80, &spec), Ok(number % 5 == 0));
    // A small committee: every member.
    assert_eq!(proof.is_aggregator(5, &spec), Ok(true));
}

#[test]
fn block_header_roots_are_over_their_fields() {
    let header = BeaconBlockHeader {
        slot: Slot::new(7),
        proposer_index: 9,
        parent_root: root(1),
        state_root: root(2),
        body_root: root(3),
    };
    let expected_header = h(
        &h(&h(&chunk(7), &chunk(9)), &h(&[1; 32], &[2; 32])),
        &h(&h(&[3; 32], &ZERO), &h(&ZERO, &ZERO)),
    );
    assert_eq!(header.canonical_root().bytes, expected_header);

    let signed = SignedBeaconBlockHeader { message: header, signature: signature() };
    assert_eq!(
        signed.tree_hash_root().bytes,
        h(&expected_header, &expected_signature_root(&signed.signature))
    );
    assert_eq!(signed.clone(), signed);
}
