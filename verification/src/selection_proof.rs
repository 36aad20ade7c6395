//! The lottery that elects the aggregators of a committee.

use vstd::prelude::*;
use vstd::bytes::{spec_u64_from_le_bytes, u64_from_le_bytes};
use crate::chain_spec::ChainSpec;
use crate::errors::ArithError;
use crate::hash256::{Hash256, Signature};

verus! {

/// The SHA-256 digest of `input`, as `ethereum_hashing::hash_fixed` computes it.
pub uninterp spec fn sha256_of(input: Seq<u8>) -> Hash256;

/// Calls `ethereum_hashing::hash_fixed`. The digest is a function of the input alone; the
/// contract gives it its name and claims nothing else of it.
#[verifier::external_body]
fn hash_fixed(input: &[u8]) -> (digest: Hash256)
    ensures
        digest == sha256_of(input@),
{
    Hash256 { bytes: ::ethereum_hashing::hash_fixed(input) }
}

/// A validator's signature over a slot, which enters it into the lottery for that slot.
#[derive(Clone, Copy, Debug, PartialEq, Eq)]
pub struct SelectionProof(pub Signature);

impl SelectionProof {
    /// The odds of the lottery: one validator in `modulo_of` is elected, so that a committee
    /// of `committee_len` members has about `target_aggregators_per_committee` aggregators,
    /// and at least every validator of a small committee is elected.
    pub open spec fn modulo_of(committee_len: usize, spec: ChainSpec) -> Result<u64, ArithError> {
        if spec.target_aggregators_per_committee == 0 {
            Err(ArithError::DivisionByZero)
        } else if committee_len as u64 / spec.target_aggregators_per_committee >= 1 {
            Ok(committee_len as u64 / spec.target_aggregators_per_committee)
        } else {
            Ok(1)
        }
    }

    /// Whether a proof whose digest is `signature_hash` wins at odds of one in `modulo`: the
    /// first eight bytes of the digest, read as a little-endian number, are a multiple of
    /// `modulo`. No odds are zero.
    pub open spec fn elected(signature_hash: Hash256, modulo: u64) -> Result<bool, ArithError> {
        if modulo == 0 {
            Err(ArithError::DivisionByZero)
        } else {
            Ok(spec_u64_from_le_bytes(signature_hash@.subrange(0, 8)) % modulo == 0)
        }
    }

    /// Whether a proof whose digest is `signature_hash` elects its signer in a committee of
    /// `committee_len` members.
    pub open spec fn elected_in_committee(
        signature_hash: Hash256,
        committee_len: usize,
        spec: ChainSpec,
    ) -> Result<bool, ArithError> {
        match SelectionProof::modulo_of(committee_len, spec) {
            Ok(modulo) => SelectionProof::elected(signature_hash, modulo),
            Err(e) => Err(e),
        }
    }

    pub fn from(signature: Signature) -> (r: SelectionProof)
        ensures
            r.0 == signature,
    {
        SelectionProof(signature)
    }

    /// The odds of the lottery in a committee of `committee_len` members.
    pub fn modulo(committee_len: usize, spec: &ChainSpec) -> (r: Result<u64, ArithError>)
        ensures
            r == SelectionProof::modulo_of(committee_len, *spec),
    {
        if spec.target_aggregators_per_committee == 0 {
            return Err(ArithError::DivisionByZero);
        }
        let quotient: u64 = committee_len as u64 / spec.target_aggregators_per_committee;
        if quotient >= 1 {
            Ok(quotient)
        } else {
            Ok(1)
        }
    }

    /// The digest that decides the lottery for this proof.
    pub fn signature_hash(&self) -> (r: Hash256)
        ensures
            r == sha256_of(self.0@),
    {
        hash_fixed(self.0.bytes.as_slice())
    }

    /// Whether a proof whose digest is `signature_hash` wins at odds of one in `modulo`.
    pub fn is_aggregator_from_hash(signature_hash: &Hash256, modulo: u64) -> (r: Result<
        bool,
        ArithError,
    >)
        ensures
            r == SelectionProof::elected(*signature_hash, modulo),
    {
        if modulo == 0 {
            return Err(ArithError::DivisionByZero);
        }
        let leading = vstd::slice::slice_subrange(signature_hash.bytes.as_slice(), 0, 8);
        let number: u64 = u64_from_le_bytes(leading);
        Ok(number % modulo == 0)
    }

    /// Whether this proof wins at odds of one in `modulo`.
    pub fn is_aggregator_from_modulo(&self, modulo: u64) -> (r: Result<bool, ArithError>)
        ensures
            r == SelectionProof::elected(sha256_of(self.0@), modulo),
    {
        let signature_hash = self.signature_hash();
        SelectionProof::is_aggregator_from_hash(&signature_hash, modulo)
    }

    /// Whether this proof elects its signer in a committee of `committee_len` members.
    pub fn is_aggregator(&self, committee_len: usize, spec: &ChainSpec) -> (r: Result<
        bool,
        ArithError,
    >)
        ensures
            r == SelectionProof::elected_in_committee(sha256_of(self.0@), committee_len, *spec),
    {
        match SelectionProof::modulo(committee_len, spec) {
            Ok(modulo) => self.is_aggregator_from_modulo(modulo),
            Err(e) => Err(e),
        }
    }
}

} // verus!
