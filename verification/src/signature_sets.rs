//! What has to be checked of a signature: who signed, and which message.

use vstd::prelude::*;
use crate::attestation::{
    IndexedAttestation,
    IndexedAttestationView,
    SignedAggregateAndProof,
    SignedAggregateAndProofView,
};
use crate::chain_spec::{ChainSpec, Fork};
use crate::errors::SignatureSetError;
use crate::hash256::{Hash256, PublicKey, Signature};
use crate::merkle::{
    aggregate_and_proof_root,
    aggregate_and_proof_tree_hash_root,
    attestation_data_root,
    attestation_data_tree_hash_root,
    compute_domain,
    compute_signing_root,
    domain_bytes,
    signing_root_of,
    uint64_chunk,
    uint64_chunk_bytes,
};
use crate::slot_epoch::Epoch;
use crate::validator_pubkey_cache::ValidatorPubkeyCache;

verus! {

/// A signature with the keys that are claimed to have made it and the message they are
/// claimed to have signed. The signature is valid when it is the aggregate of one signature
/// by each key over the message.
#[derive(Debug, PartialEq, Eq)]
pub struct SignatureSet {
    pub signature: Signature,
    pub signing_keys: Vec<PublicKey>,
    pub message: Hash256,
}

/// The mathematical value of a [`SignatureSet`].
pub struct SignatureSetView {
    pub signature: Signature,
    pub signing_keys: Seq<PublicKey>,
    pub message: Hash256,
}

impl View for SignatureSet {
    type V = SignatureSetView;

    open spec fn view(&self) -> SignatureSetView {
        SignatureSetView {
            signature: self.signature,
            signing_keys: self.signing_keys@,
            message: self.message,
        }
    }
}

impl DeepView for SignatureSet {
    type V = SignatureSetView;

    open spec fn deep_view(&self) -> SignatureSetView {
        self@
    }
}

/// The public keys of the validators `indices`, in that order, or the first of them whose key
/// is not among `pubkeys`.
pub open spec fn signing_keys_of(pubkeys: Seq<PublicKey>, indices: Seq<u64>) -> Result<
    Seq<PublicKey>,
    SignatureSetError,
>
    decreases indices.len(),
{
    if indices.len() == 0 {
        Ok(Seq::empty())
    } else {
        match signing_keys_of(pubkeys, indices.drop_last()) {
            Err(e) => Err(e),
            Ok(keys) => if indices.last() < pubkeys.len() {
                Ok(keys.push(pubkeys[indices.last() as int]))
            } else {
                Err(SignatureSetError::ValidatorUnknown(indices.last()))
            },
        }
    }
}

/// The signing domain of messages of kind `domain_type` that belong to `epoch`.
pub open spec fn domain_at(
    epoch: Epoch,
    domain_type: u32,
    fork: Fork,
    genesis_validators_root: Hash256,
) -> Seq<u8> {
    domain_bytes(domain_type, fork.version_at(epoch), genesis_validators_root)
}

/// What has to hold of the signature of an indexed attestation: every attesting validator
/// signed the attestation's data, under the attester domain of the target epoch.
pub open spec fn indexed_attestation_signature_set_of(
    pubkeys: Seq<PublicKey>,
    signature: Signature,
    indexed_attestation: IndexedAttestationView,
    fork: Fork,
    genesis_validators_root: Hash256,
    spec: ChainSpec,
) -> Result<SignatureSetView, SignatureSetError> {
    match signing_keys_of(pubkeys, indexed_attestation.attesting_indices) {
        Err(e) => Err(e),
        Ok(signing_keys) => Ok(
            SignatureSetView {
                signature,
                signing_keys,
                message: signing_root_of(
                    attestation_data_root(indexed_attestation.data)@,
                    domain_at(
                        indexed_attestation.data.target.epoch,
                        spec.domain_beacon_attester,
                        fork,
                        genesis_validators_root,
                    ),
                ),
            },
        ),
    }
}

/// What has to hold of the selection proof of an aggregate: the aggregator signed the
/// attestation's slot, under the selection domain of the slot's epoch.
pub open spec fn selection_proof_signature_set_of(
    pubkeys: Seq<PublicKey>,
    signed_aggregate: SignedAggregateAndProofView,
    fork: Fork,
    genesis_validators_root: Hash256,
    spec: ChainSpec,
) -> Result<SignatureSetView, SignatureSetError> {
    let aggregator_index = signed_aggregate.message.aggregator_index;
    if aggregator_index < pubkeys.len() {
        Ok(
            SignatureSetView {
                signature: signed_aggregate.message.selection_proof,
                signing_keys: seq![pubkeys[aggregator_index as int]],
                message: signing_root_of(
                    uint64_chunk(signed_aggregate.message.aggregate.data.slot.0),
                    domain_at(
                        signed_aggregate.message.aggregate.data.slot.epoch_of(
                            spec.slots_per_epoch,
                        ),
                        spec.domain_selection_proof,
                        fork,
                        genesis_validators_root,
                    ),
                ),
            },
        )
    } else {
        Err(SignatureSetError::ValidatorUnknown(aggregator_index))
    }
}

/// What has to hold of the outer signature of an aggregate: the aggregator signed the
/// aggregate with its selection proof, under the aggregate domain of the target epoch.
pub open spec fn aggregate_signature_set_of(
    pubkeys: Seq<PublicKey>,
    signed_aggregate: SignedAggregateAndProofView,
    fork: Fork,
    genesis_validators_root: Hash256,
    spec: ChainSpec,
) -> Result<SignatureSetView, SignatureSetError> {
    let aggregator_index = signed_aggregate.message.aggregator_index;
    if aggregator_index < pubkeys.len() {
        Ok(
            SignatureSetView {
                signature: signed_aggregate.signature,
                signing_keys: seq![pubkeys[aggregator_index as int]],
                message: signing_root_of(
                    aggregate_and_proof_root(signed_aggregate.message)@,
                    domain_at(
                        signed_aggregate.message.aggregate.data.target.epoch,
                        spec.domain_aggregate_and_proof,
                        fork,
                        genesis_validators_root,
                    ),
                ),
            },
        )
    } else {
        Err(SignatureSetError::ValidatorUnknown(aggregator_index))
    }
}

/// The signing domain of messages of kind `domain_type` that belong to `epoch`.
pub fn get_domain(epoch: Epoch, domain_type: u32, fork: &Fork, genesis_validators_root: &Hash256) -> (domain:
    Vec<u8>)
    ensures
        domain@ == domain_at(epoch, domain_type, *fork, *genesis_validators_root),
        domain@.len() == 32,
{
    compute_domain(domain_type, fork.get_fork_version(epoch), genesis_validators_root)
}

/// The public keys of the validators `indices`, in that order.
fn collect_signing_keys(pubkey_cache: &ValidatorPubkeyCache, indices: &Vec<u64>) -> (r: Result<
    Vec<PublicKey>,
    SignatureSetError,
>)
    ensures
        match r {
            Ok(keys) => Ok::<Seq<PublicKey>, SignatureSetError>(keys@) == signing_keys_of(
                pubkey_cache@,
                indices@,
            ),
            Err(e) => Err::<Seq<PublicKey>, SignatureSetError>(e) == signing_keys_of(
                pubkey_cache@,
                indices@,
            ),
        },
{
    let mut keys: Vec<PublicKey> = Vec::new();
    let mut i: usize = 0;
    while i < indices.len()
        invariant
            i <= indices.len(),
            Ok::<Seq<PublicKey>, SignatureSetError>(keys@) == signing_keys_of(
                pubkey_cache@,
                indices@.subrange(0, i as int),
            ),
        decreases indices.len() - i,
    {
        assert(indices@.subrange(0, i + 1).drop_last() =~= indices@.subrange(0, i as int));
        match pubkey_cache.get(indices[i]) {
            Some(key) => {
                keys.push(key);
            },
            None => {
                proof {
                    lemma_signing_keys_error_stays(
                        pubkey_cache@,
                        indices@,
                        i + 1,
                        SignatureSetError::ValidatorUnknown(indices@[i as int]),
                    );
                }
                return Err(SignatureSetError::ValidatorUnknown(indices[i]));
            },
        }
        i += 1;
    }
    assert(indices@.subrange(0, indices@.len() as int) =~= indices@);
    Ok(keys)
}

/// Once a validator without a key has been met, the validators after it do not matter.
proof fn lemma_signing_keys_error_stays(
    pubkeys: Seq<PublicKey>,
    indices: Seq<u64>,
    n: int,
    e: SignatureSetError,
)
    requires
        0 <= n <= indices.len(),
        signing_keys_of(pubkeys, indices.subrange(0, n)) == Err::<
            Seq<PublicKey>,
            SignatureSetError,
        >(e),
    ensures
        signing_keys_of(pubkeys, indices) == Err::<Seq<PublicKey>, SignatureSetError>(e),
    decreases indices.len() - n,
{
    if n < indices.len() {
        assert(indices.subrange(0, n + 1).drop_last() =~= indices.subrange(0, n));
        lemma_signing_keys_error_stays(pubkeys, indices, n + 1, e);
    } else {
        assert(indices.subrange(0, n) =~= indices);
    }
}

/// The signature set of an indexed attestation.
pub fn indexed_attestation_signature_set_from_pubkeys(
    pubkey_cache: &ValidatorPubkeyCache,
    signature: &Signature,
    indexed_attestation: &IndexedAttestation,
    fork: &Fork,
    genesis_validators_root: &Hash256,
    spec: &ChainSpec,
) -> (r: Result<SignatureSet, SignatureSetError>)
    ensures
        match r {
            Ok(set) => Ok::<SignatureSetView, SignatureSetError>(set@)
                == indexed_attestation_signature_set_of(
                pubkey_cache@,
                *signature,
                indexed_attestation@,
                *fork,
                *genesis_validators_root,
                *spec,
            ),
            Err(e) => Err::<SignatureSetView, SignatureSetError>(e)
                == indexed_attestation_signature_set_of(
                pubkey_cache@,
                *signature,
                indexed_attestation@,
                *fork,
                *genesis_validators_root,
                *spec,
            ),
        },
{
    let signing_keys = match collect_signing_keys(
        pubkey_cache,
        &indexed_attestation.attesting_indices,
    ) {
        Ok(keys) => keys,
        Err(e) => {
            return Err(e);
        },
    };
    let domain = get_domain(
        indexed_attestation.data.target.epoch,
        spec.domain_beacon_attester,
        fork,
        genesis_validators_root,
    );
    let data_root = attestation_data_tree_hash_root(&indexed_attestation.data);
    let message = compute_signing_root(data_root.bytes.as_slice(), domain.as_slice());
    Ok(SignatureSet { signature: *signature, signing_keys, message })
}

/// The signature set of the selection proof of `signed_aggregate`.
pub fn signed_aggregate_selection_proof_signature_set(
    pubkey_cache: &ValidatorPubkeyCache,
    signed_aggregate: &SignedAggregateAndProof,
    fork: &Fork,
    genesis_validators_root: &Hash256,
    spec: &ChainSpec,
) -> (r: Result<SignatureSet, SignatureSetError>)
    requires
        spec.wf(),
    ensures
        match r {
            Ok(set) => Ok::<SignatureSetView, SignatureSetError>(set@)
                == selection_proof_signature_set_of(
                pubkey_cache@,
                signed_aggregate@,
                *fork,
                *genesis_validators_root,
                *spec,
            ),
            Err(e) => Err::<SignatureSetView, SignatureSetError>(e)
                == selection_proof_signature_set_of(
                pubkey_cache@,
                signed_aggregate@,
                *fork,
                *genesis_validators_root,
                *spec,
            ),
        },
{
    let aggregator_index = signed_aggregate.message.aggregator_index;
    let key = match pubkey_cache.get(aggregator_index) {
        Some(key) => key,
        None => {
            return Err(SignatureSetError::ValidatorUnknown(aggregator_index));
        },
    };
    let slot = signed_aggregate.message.aggregate.data.slot;
    let domain = get_domain(
        slot.epoch(spec.slots_per_epoch),
        spec.domain_selection_proof,
        fork,
        genesis_validators_root,
    );
    let slot_chunk = uint64_chunk_bytes(slot.0);
    let message = compute_signing_root(slot_chunk.as_slice(), domain.as_slice());
    let mut signing_keys: Vec<PublicKey> = Vec::new();
    signing_keys.push(key);
    assert(signing_keys@ =~= seq![key]);
    Ok(
        SignatureSet {
            signature: signed_aggregate.message.selection_proof,
            signing_keys,
            message,
        },
    )
}

/// The signature set of the outer signature of `signed_aggregate`.
pub fn signed_aggregate_signature_set(
    pubkey_cache: &ValidatorPubkeyCache,
    signed_aggregate: &SignedAggregateAndProof,
    fork: &Fork,
    genesis_validators_root: &Hash256,
    spec: &ChainSpec,
) -> (r: Result<SignatureSet, SignatureSetError>)
    ensures
        match r {
            Ok(set) => Ok::<SignatureSetView, SignatureSetError>(set@)
                == aggregate_signature_set_of(
                pubkey_cache@,
                signed_aggregate@,
                *fork,
                *genesis_validators_root,
                *spec,
            ),
            Err(e) => Err::<SignatureSetView, SignatureSetError>(e) == aggregate_signature_set_of(
                pubkey_cache@,
                signed_aggregate@,
                *fork,
                *genesis_validators_root,
                *spec,
            ),
        },
{
    let aggregator_index = signed_aggregate.message.aggregator_index;
    let key = match pubkey_cache.get(aggregator_index) {
        Some(key) => key,
        None => {
            return Err(SignatureSetError::ValidatorUnknown(aggregator_index));
        },
    };
    let domain = get_domain(
        signed_aggregate.message.aggregate.data.target.epoch,
        spec.domain_aggregate_and_proof,
        fork,
        genesis_validators_root,
    );
    let message_root = aggregate_and_proof_tree_hash_root(&signed_aggregate.message);
    let message = compute_signing_root(message_root.bytes.as_slice(), domain.as_slice());
    let mut signing_keys: Vec<PublicKey> = Vec::new();
    signing_keys.push(key);
    assert(signing_keys@ =~= seq![key]);
    Ok(SignatureSet { signature: signed_aggregate.signature, signing_keys, message })
}

} // verus!
