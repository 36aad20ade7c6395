//! The public keys of the validators, by validator index.

use vstd::prelude::*;
use crate::hash256::PublicKey;

verus! {

/// The public key of every validator the node has seen, at the position of the validator's
/// index. Keys are only ever added at the end.
#[derive(Debug)]
pub struct ValidatorPubkeyCache {
    pubkeys: Vec<PublicKey>,
}

impl View for ValidatorPubkeyCache {
    type V = Seq<PublicKey>;

    closed spec fn view(&self) -> Seq<PublicKey> {
        self.pubkeys@
    }
}

impl ValidatorPubkeyCache {
    /// A cache without keys.
    pub fn new() -> (r: ValidatorPubkeyCache)
        ensures
            r@ == Seq::<PublicKey>::empty(),
    {
        ValidatorPubkeyCache { pubkeys: Vec::new() }
    }

    /// The number of validators whose key is known.
    pub fn len(&self) -> (r: usize)
        ensures
            r == self@.len(),
    {
        self.pubkeys.len()
    }

    /// The key of validator `validator_index`, if it is known.
    pub fn get(&self, validator_index: u64) -> (r: Option<PublicKey>)
        ensures
            r == if validator_index < self@.len() {
                Some(self@[validator_index as int])
            } else {
                None
            },
    {
        if validator_index < self.pubkeys.len() as u64 {
            Some(self.pubkeys[validator_index as usize])
        } else {
            None
        }
    }

    /// Adds the key of the next validator and returns the index it received. Every key that
    /// was known stays where it is.
    pub fn import(&mut self, pubkey: PublicKey) -> (r: usize)
        ensures
            r == old(self)@.len(),
            final(self)@ == old(self)@.push(pubkey),
    {
        let index = self.pubkeys.len();
        self.pubkeys.push(pubkey);
        index
    }
}

} // verus!
