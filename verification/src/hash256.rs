//! Fixed-width byte strings: 32-byte roots, BLS signatures and BLS public keys.

use vstd::prelude::*;

verus! {

/// A 32-byte root: the identity of a block, a state or a hashed object.
#[derive(Clone, Copy, Debug, PartialEq, Eq, Hash)]
pub struct Hash256 {
    pub bytes: [u8; 32],
}

/// A compressed BLS signature, single or aggregate.
#[derive(Clone, Copy, Debug, PartialEq, Eq)]
pub struct Signature {
    pub bytes: [u8; 96],
}

/// A compressed BLS public key.
#[derive(Clone, Copy, Debug, PartialEq, Eq)]
pub struct PublicKey {
    pub bytes: [u8; 48],
}

impl View for Hash256 {
    type V = Seq<u8>;

    open spec fn view(&self) -> Seq<u8> {
        self.bytes@
    }
}

impl View for Signature {
    type V = Seq<u8>;

    open spec fn view(&self) -> Seq<u8> {
        self.bytes@
    }
}

impl View for PublicKey {
    type V = Seq<u8>;

    open spec fn view(&self) -> Seq<u8> {
        self.bytes@
    }
}

impl Hash256 {
    /// The root of thirty-two zero bytes.
    pub open spec fn zero_root() -> Hash256 {
        Hash256 { bytes: vstd::array::spec_array_fill_for_copy_type::<u8, 32>(0u8) }
    }

    /// The root of thirty-two zero bytes.
    pub fn zero() -> (r: Hash256)
        ensures
            r == Hash256::zero_root(),
            forall|i: int| 0 <= i < 32 ==> r@[i] == 0u8,
    {
        Hash256 { bytes: [0u8; 32] }
    }

    pub fn from_bytes(bytes: [u8; 32]) -> (r: Hash256)
        ensures
            r.bytes == bytes,
    {
        Hash256 { bytes }
    }

    /// Whether `self` and `other` are the same root.
    pub fn same(&self, other: &Hash256) -> (r: bool)
        ensures
            r == (*self == *other),
    {
        let mut i: usize = 0;
        while i < 32
            invariant
                i <= 32,
                forall|j: int| 0 <= j < i ==> self.bytes[j] == other.bytes[j],
            decreases 32 - i,
        {
            if self.bytes[i] != other.bytes[i] {
                return false;
            }
            i += 1;
        }
        assert(self.bytes =~= other.bytes);
        true
    }
}

} // verus!
