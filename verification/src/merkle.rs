//! Merkle roots of the objects that attestation verification hashes.
//!
//! The hashing itself is done by the `tree_hash` crate. This module lays the objects out as
//! the consensus encoding prescribes (fixed-size fields as 32-byte chunks, a container as the
//! root over its fields' roots, a bit list as the root over its packed bits with the length
//! mixed in) and says, for each object, which bytes are hashed.

use vstd::prelude::*;
use vstd::bytes::{spec_u32_to_le_bytes, spec_u64_to_le_bytes, u32_to_le_bytes, u64_to_le_bytes};
use crate::attestation::{
    AggregateAndProof,
    AggregateAndProofView,
    Attestation,
    AttestationData,
    AttestationView,
    BitList,
    Checkpoint,
    MAX_VALIDATORS_PER_COMMITTEE,
};
use crate::hash256::{Hash256, PublicKey, Signature};

verus! {

/// The most bytes that are hashed in one call.
pub const MAX_MERKLE_INPUT_BYTES: usize = 65536;

/// The most leaves that are asked for in one call.
pub const MAX_MERKLE_LEAVES: usize = 2048;

/// The root that `tree_hash::merkle_root` computes over `bytes`, cut into 32-byte leaves and
/// padded with zero leaves up to at least `minimum_leaf_count` leaves and to a power of two.
pub uninterp spec fn merkle_root_of(bytes: Seq<u8>, minimum_leaf_count: nat) -> Hash256;

/// The root that `tree_hash::mix_in_length` computes: the hash of `root` followed by `length`
/// as a 32-byte little-endian number.
pub uninterp spec fn mix_in_length_of(root: Hash256, length: nat) -> Hash256;

/// Calls `tree_hash::merkle_root`. The result is a function of the bytes and the leaf count
/// alone; the contract gives it its name and claims nothing else of it. Inputs are bounded
/// well below the tree depth at which the outside function gives up.
#[verifier::external_body]
pub(crate) fn merkle_root(bytes: &[u8], minimum_leaf_count: usize) -> (root: Hash256)
    requires
        bytes@.len() <= MAX_MERKLE_INPUT_BYTES,
        minimum_leaf_count <= MAX_MERKLE_LEAVES,
    ensures
        root == merkle_root_of(bytes@, minimum_leaf_count as nat),
{
    Hash256 { bytes: ::tree_hash::merkle_root(bytes, minimum_leaf_count).0 }
}

/// Calls `tree_hash::mix_in_length`. The result is a function of the root and the length
/// alone; the contract gives it its name and claims nothing else of it.
#[verifier::external_body]
fn mix_in_length(root: &Hash256, length: usize) -> (mixed: Hash256)
    ensures
        mixed == mix_in_length_of(*root, length as nat),
{
    Hash256 { bytes: ::tree_hash::mix_in_length(&::tree_hash::Hash256::from(root.bytes), length).0 }
}

/// `n` zero bytes.
pub open spec fn zero_bytes(n: nat) -> Seq<u8> {
    Seq::new(n, |i: int| 0u8)
}

/// The 32-byte chunk of a 64-bit number: its little-endian bytes, then zeros.
pub open spec fn uint64_chunk(value: u64) -> Seq<u8> {
    spec_u64_to_le_bytes(value) + zero_bytes(24)
}

/// The 32-byte chunk of a four-byte string: the bytes, then zeros.
pub open spec fn bytes4_chunk(value: [u8; 4]) -> Seq<u8> {
    value@ + zero_bytes(28)
}

/// Byte `j` of a packed bit list: bit `8 * j + k` of the list is bit `k` of the byte, and
/// positions past the end of the list count as unset.
pub open spec fn packed_byte(bits: Seq<bool>, j: int) -> u8 {
    packed_byte_upto(bits, j, 8)
}

/// The low `k` bits of byte `j` of a packed bit list.
pub open spec fn packed_byte_upto(bits: Seq<bool>, j: int, k: int) -> u8
    decreases k,
{
    if k <= 0 {
        0u8
    } else {
        let rest = packed_byte_upto(bits, j, k - 1);
        if 8 * j + k - 1 < bits.len() && bits[8 * j + k - 1] {
            (rest | (1u8 << ((k - 1) as u8))) as u8
        } else {
            rest
        }
    }
}

/// How many bytes a bit list of `len` bits packs into: one byte for every eight bits, and one
/// byte for the empty list.
pub open spec fn packed_len(len: nat) -> nat {
    if len == 0 {
        1
    } else {
        ((len + 7) / 8) as nat
    }
}

/// A bit list packed into bytes, eight bits to the byte, lowest bit first.
pub open spec fn packed_bits(bits: Seq<bool>) -> Seq<u8> {
    Seq::new(packed_len(bits.len()), |j: int| packed_byte(bits, j))
}

/// The number of leaves a bit list of the greatest length fills.
pub open spec fn bitlist_leaves() -> nat {
    ((MAX_VALIDATORS_PER_COMMITTEE + 255) / 256) as nat
}

/// The root of a participation list.
pub open spec fn bitlist_root(bits: Seq<bool>) -> Hash256 {
    mix_in_length_of(merkle_root_of(packed_bits(bits), bitlist_leaves()), bits.len())
}

/// The root of a checkpoint: over its epoch and its root.
pub open spec fn checkpoint_root(checkpoint: Checkpoint) -> Hash256 {
    merkle_root_of(uint64_chunk(checkpoint.epoch.0) + checkpoint.root@, 2)
}

/// The root of attestation data: over slot, committee index, head block root, source and
/// target.
pub open spec fn attestation_data_root(data: AttestationData) -> Hash256 {
    merkle_root_of(
        uint64_chunk(data.slot.0) + uint64_chunk(data.index) + data.beacon_block_root@
            + checkpoint_root(data.source)@ + checkpoint_root(data.target)@,
        5,
    )
}

/// The root of a signature: over its 96 bytes.
pub open spec fn signature_root(signature: Signature) -> Hash256 {
    merkle_root_of(signature@, 3)
}

/// The root of a public key: over its 48 bytes.
pub open spec fn public_key_root(public_key: PublicKey) -> Hash256 {
    merkle_root_of(public_key@, 2)
}

/// The root of an attestation: over its participation list, its data and its signature.
pub open spec fn attestation_root(attestation: AttestationView) -> Hash256 {
    merkle_root_of(
        bitlist_root(attestation.aggregation_bits)@ + attestation_data_root(attestation.data)@
            + signature_root(attestation.signature)@,
        3,
    )
}

/// The root of an aggregate with its selection proof: over the aggregator's index, the
/// aggregate and the proof.
pub open spec fn aggregate_and_proof_root(message: AggregateAndProofView) -> Hash256 {
    merkle_root_of(
        uint64_chunk(message.aggregator_index) + attestation_root(message.aggregate)@
            + signature_root(message.selection_proof)@,
        3,
    )
}

/// The root of the fork data that a signing domain commits to.
pub open spec fn fork_data_root(fork_version: [u8; 4], genesis_validators_root: Hash256) -> Hash256 {
    merkle_root_of(bytes4_chunk(fork_version) + genesis_validators_root@, 2)
}

/// The signing domain of messages of kind `domain_type` under a fork version and a genesis:
/// the kind as four little-endian bytes, then the first 28 bytes of the fork data root.
pub open spec fn domain_bytes(
    domain_type: u32,
    fork_version: [u8; 4],
    genesis_validators_root: Hash256,
) -> Seq<u8> {
    spec_u32_to_le_bytes(domain_type) + fork_data_root(
        fork_version,
        genesis_validators_root,
    )@.subrange(0, 28)
}

/// The root that is signed for an object with root `object_root` under `domain`.
pub open spec fn signing_root_of(object_root: Seq<u8>, domain: Seq<u8>) -> Hash256 {
    merkle_root_of(object_root + domain, 2)
}

/// Appends `bytes` to `buffer`.
pub(crate) fn append(buffer: &mut Vec<u8>, bytes: &[u8])
    ensures
        final(buffer)@ == old(buffer)@ + bytes@,
{
    let mut i: usize = 0;
    while i < bytes.len()
        invariant
            i <= bytes.len(),
            buffer@ == old(buffer)@ + bytes@.subrange(0, i as int),
        decreases bytes.len() - i,
    {
        buffer.push(bytes[i]);
        assert(bytes@.subrange(0, i + 1) =~= bytes@.subrange(0, i as int).push(bytes@[i as int]));
        i += 1;
    }
    assert(bytes@.subrange(0, bytes@.len() as int) =~= bytes@);
}

/// Appends `count` zero bytes to `buffer`.
fn append_zeros(buffer: &mut Vec<u8>, count: usize)
    ensures
        final(buffer)@ == old(buffer)@ + zero_bytes(count as nat),
{
    let mut i: usize = 0;
    while i < count
        invariant
            i <= count,
            buffer@ == old(buffer)@ + zero_bytes(i as nat),
        decreases count - i,
    {
        buffer.push(0u8);
        assert(zero_bytes((i + 1) as nat) =~= zero_bytes(i as nat).push(0u8));
        i += 1;
    }
}

/// Appends the 32-byte chunk of `value` to `buffer`.
pub(crate) fn append_uint64(buffer: &mut Vec<u8>, value: u64)
    ensures
        final(buffer)@ == old(buffer)@ + uint64_chunk(value),
        uint64_chunk(value).len() == 32,
{
    let le = u64_to_le_bytes(value);
    append(buffer, le.as_slice());
    append_zeros(buffer, 24);
    assert(buffer@ =~= old(buffer)@ + uint64_chunk(value));
}

/// Whether bit `position` of `bits` is set; positions past the end count as unset.
fn bit_at(bits: &BitList, position: usize) -> (r: bool)
    ensures
        r == (position < bits@.len() && bits@[position as int]),
{
    match bits.get(position) {
        Some(bit) => bit,
        None => false,
    }
}

/// Packs a bit list into bytes.
fn pack_bits(bits: &BitList) -> (r: Vec<u8>)
    ensures
        r@ == packed_bits(bits@),
        r@.len() <= MAX_VALIDATORS_PER_COMMITTEE / 8,
{
    let len = bits.len();
    let byte_count: usize = if len == 0 {
        1
    } else {
        (len + 7) / 8
    };
    let mut out: Vec<u8> = Vec::new();
    let mut j: usize = 0;
    while j < byte_count
        invariant
            j <= byte_count,
            byte_count == packed_len(bits@.len()),
            byte_count <= MAX_VALIDATORS_PER_COMMITTEE / 8,
            out@.len() == j,
            forall|m: int| 0 <= m < j ==> out@[m] == packed_byte(bits@, m),
        decreases byte_count - j,
    {
        let mut byte: u8 = 0;
        let mut k: u8 = 0;
        while k < 8
            invariant
                k <= 8,
                j < byte_count,
                byte_count <= MAX_VALIDATORS_PER_COMMITTEE / 8,
                byte == packed_byte_upto(bits@, j as int, k as int),
            decreases 8 - k,
        {
            if bit_at(bits, 8 * j + k as usize) {
                byte = byte | (1u8 << k);
            }
            k += 1;
        }
        out.push(byte);
        j += 1;
    }
    assert(out@ =~= packed_bits(bits@));
    out
}

/// The root of a participation list.
pub fn bitlist_tree_hash_root(bits: &BitList) -> (root: Hash256)
    ensures
        root == bitlist_root(bits@),
{
    let packed = pack_bits(bits);
    let leaves: usize = (MAX_VALIDATORS_PER_COMMITTEE + 255) / 256;
    let data_root = merkle_root(packed.as_slice(), leaves);
    mix_in_length(&data_root, bits.len())
}

/// The root of a checkpoint.
pub fn checkpoint_tree_hash_root(checkpoint: &Checkpoint) -> (root: Hash256)
    ensures
        root == checkpoint_root(*checkpoint),
{
    let mut buffer: Vec<u8> = Vec::new();
    append_uint64(&mut buffer, checkpoint.epoch.0);
    append(&mut buffer, checkpoint.root.bytes.as_slice());
    assert(buffer@ =~= uint64_chunk(checkpoint.epoch.0) + checkpoint.root@);
    merkle_root(buffer.as_slice(), 2)
}

/// The root of attestation data.
pub fn attestation_data_tree_hash_root(data: &AttestationData) -> (root: Hash256)
    ensures
        root == attestation_data_root(*data),
{
    let source = checkpoint_tree_hash_root(&data.source);
    let target = checkpoint_tree_hash_root(&data.target);
    let mut buffer: Vec<u8> = Vec::new();
    append_uint64(&mut buffer, data.slot.0);
    append_uint64(&mut buffer, data.index);
    append(&mut buffer, data.beacon_block_root.bytes.as_slice());
    append(&mut buffer, source.bytes.as_slice());
    append(&mut buffer, target.bytes.as_slice());
    assert(buffer@ =~= uint64_chunk(data.slot.0) + uint64_chunk(data.index)
        + data.beacon_block_root@ + checkpoint_root(data.source)@ + checkpoint_root(
        data.target,
    )@);
    merkle_root(buffer.as_slice(), 5)
}

/// The root of a signature.
pub fn signature_tree_hash_root(signature: &Signature) -> (root: Hash256)
    ensures
        root == signature_root(*signature),
{
    merkle_root(signature.bytes.as_slice(), 3)
}

/// The root of a public key.
pub fn public_key_tree_hash_root(public_key: &PublicKey) -> (root: Hash256)
    ensures
        root == public_key_root(*public_key),
{
    merkle_root(public_key.bytes.as_slice(), 2)
}

/// The root of an attestation.
pub fn attestation_tree_hash_root(attestation: &Attestation) -> (root: Hash256)
    ensures
        root == attestation_root(attestation@),
{
    let bits = bitlist_tree_hash_root(&attestation.aggregation_bits);
    let data = attestation_data_tree_hash_root(&attestation.data);
    let signature = signature_tree_hash_root(&attestation.signature);
    let mut buffer: Vec<u8> = Vec::new();
    append(&mut buffer, bits.bytes.as_slice());
    append(&mut buffer, data.bytes.as_slice());
    append(&mut buffer, signature.bytes.as_slice());
    assert(buffer@ =~= bitlist_root(attestation@.aggregation_bits)@ + attestation_data_root(
        attestation@.data,
    )@ + signature_root(attestation@.signature)@);
    merkle_root(buffer.as_slice(), 3)
}

/// The root of an aggregate with its selection proof.
pub fn aggregate_and_proof_tree_hash_root(message: &AggregateAndProof) -> (root: Hash256)
    ensures
        root == aggregate_and_proof_root(message@),
{
    let aggregate = attestation_tree_hash_root(&message.aggregate);
    let proof = signature_tree_hash_root(&message.selection_proof);
    let mut buffer: Vec<u8> = Vec::new();
    append_uint64(&mut buffer, message.aggregator_index);
    append(&mut buffer, aggregate.bytes.as_slice());
    append(&mut buffer, proof.bytes.as_slice());
    assert(buffer@ =~= uint64_chunk(message.aggregator_index) + attestation_root(
        message.aggregate@,
    )@ + signature_root(message.selection_proof)@);
    merkle_root(buffer.as_slice(), 3)
}

/// The 32-byte chunk of a 64-bit number.
pub fn uint64_chunk_bytes(value: u64) -> (chunk: Vec<u8>)
    ensures
        chunk@ == uint64_chunk(value),
        chunk@.len() == 32,
{
    let mut buffer: Vec<u8> = Vec::new();
    append_uint64(&mut buffer, value);
    assert(buffer@ =~= uint64_chunk(value));
    buffer
}

/// The signing domain of messages of kind `domain_type`.
pub fn compute_domain(
    domain_type: u32,
    fork_version: [u8; 4],
    genesis_validators_root: &Hash256,
) -> (domain: Vec<u8>)
    ensures
        domain@ == domain_bytes(domain_type, fork_version, *genesis_validators_root),
        domain@.len() == 32,
{
    let mut fork_data: Vec<u8> = Vec::new();
    append(&mut fork_data, fork_version.as_slice());
    append_zeros(&mut fork_data, 28);
    append(&mut fork_data, genesis_validators_root.bytes.as_slice());
    assert(fork_data@ =~= bytes4_chunk(fork_version) + genesis_validators_root@);
    let root = merkle_root(fork_data.as_slice(), 2);
    let mut domain = u32_to_le_bytes(domain_type);
    let root_bytes = root.bytes.as_slice();
    append(&mut domain, vstd::slice::slice_subrange(root_bytes, 0, 28));
    domain
}

/// The root that is signed for an object with root `object_root` under `domain`.
pub fn compute_signing_root(object_root: &[u8], domain: &[u8]) -> (root: Hash256)
    requires
        object_root@.len() == 32,
        domain@.len() == 32,
    ensures
        root == signing_root_of(object_root@, domain@),
{
    let mut buffer: Vec<u8> = Vec::new();
    append(&mut buffer, object_root);
    append(&mut buffer, domain);
    assert(buffer@ =~= object_root@ + domain@);
    merkle_root(buffer.as_slice(), 2)
}

} // verus!
