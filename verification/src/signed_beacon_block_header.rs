//! Block headers under their proposer's signature.

use vstd::prelude::*;
use crate::hash256::{Hash256, Signature};
use crate::merkle::{
    append,
    append_uint64,
    merkle_root,
    merkle_root_of,
    signature_root,
    signature_tree_hash_root,
    uint64_chunk,
};
use crate::slot_epoch::Slot;

verus! {

/// The header of a beacon block.
#[derive(Clone, Copy, Debug, PartialEq, Eq)]
pub struct BeaconBlockHeader {
    pub slot: Slot,
    pub proposer_index: u64,
    pub parent_root: Hash256,
    pub state_root: Hash256,
    pub body_root: Hash256,
}

/// A block header signed by the block's proposer.
#[derive(Clone, Copy, Debug, PartialEq, Eq)]
pub struct SignedBeaconBlockHeader {
    pub message: BeaconBlockHeader,
    pub signature: Signature,
}

/// The root of a block header: over slot, proposer, parent root, state root and body root.
pub open spec fn beacon_block_header_root(header: BeaconBlockHeader) -> Hash256 {
    merkle_root_of(
        uint64_chunk(header.slot.0) + uint64_chunk(header.proposer_index) + header.parent_root@
            + header.state_root@ + header.body_root@,
        5,
    )
}

/// The root of a signed block header: over the header and the signature.
pub open spec fn signed_beacon_block_header_root(signed: SignedBeaconBlockHeader) -> Hash256 {
    merkle_root_of(
        beacon_block_header_root(signed.message)@ + signature_root(signed.signature)@,
        2,
    )
}

impl BeaconBlockHeader {
    /// The root of this header. It is the root of the block the header belongs to.
    pub fn canonical_root(&self) -> (root: Hash256)
        ensures
            root == beacon_block_header_root(*self),
    {
        let mut buffer: Vec<u8> = Vec::new();
        append_uint64(&mut buffer, self.slot.0);
        append_uint64(&mut buffer, self.proposer_index);
        append(&mut buffer, self.parent_root.bytes.as_slice());
        append(&mut buffer, self.state_root.bytes.as_slice());
        append(&mut buffer, self.body_root.bytes.as_slice());
        assert(buffer@ =~= uint64_chunk(self.slot.0) + uint64_chunk(self.proposer_index)
            + self.parent_root@ + self.state_root@ + self.body_root@);
        merkle_root(buffer.as_slice(), 5)
    }
}

impl SignedBeaconBlockHeader {
    /// The root of this signed header.
    pub fn tree_hash_root(&self) -> (root: Hash256)
        ensures
            root == signed_beacon_block_header_root(*self),
    {
        let header = self.message.canonical_root();
        let signature = signature_tree_hash_root(&self.signature);
        let mut buffer: Vec<u8> = Vec::new();
        append(&mut buffer, header.bytes.as_slice());
        append(&mut buffer, signature.bytes.as_slice());
        assert(buffer@ =~= beacon_block_header_root(self.message)@ + signature_root(
            self.signature,
        )@);
        merkle_root(buffer.as_slice(), 2)
    }
}

} // verus!
