//! Errors of the chain's own making, as opposed to faults of a message.

use vstd::prelude::*;
use crate::committee_cache::RelativeEpochError;
use crate::hash256::Hash256;
use crate::observed_attesters::ObservedAttestersError;

verus! {

/// An arithmetic step that has no result.
#[derive(Clone, Copy, Debug, PartialEq, Eq, Structural)]
pub enum ArithError {
    Overflow,
    DivisionByZero,
}

/// Why an attestation could not be resolved against a committee.
#[derive(Clone, Copy, Debug, PartialEq, Eq, Structural)]
pub enum AttestationValidationError {
    /// The participation list has another length than the committee.
    BadAggregationBitfieldLength { committee_len: usize, bitfield_len: usize },
}

/// Why a signature set could not be put together.
#[derive(Clone, Copy, Debug, PartialEq, Eq, Structural)]
pub enum SignatureSetError {
    /// No public key is known for this validator index.
    ValidatorUnknown(u64),
}

/// An internal failure: the node could not decide, and the message is not to blame.
#[derive(Clone, Copy, Debug, PartialEq, Eq)]
pub enum BeaconChainError {
    /// The slot clock could not be read.
    UnableToReadSlot,
    /// The lock on the shuffling cache was not had in time.
    AttestationCacheLockTimeout,
    /// The lock on the public keys was not had in time.
    ValidatorPubkeyCacheLockTimeout,
    /// The lock on the canonical head was not had in time.
    CanonicalHeadLockTimeout,
    /// The store holds no state under this root.
    MissingBeaconState(Hash256),
    /// The state that was loaded cannot give the committees of the attestation's epoch.
    IncorrectStateForAttestation(RelativeEpochError),
    SignatureSetError(SignatureSetError),
    AttestationValidationError(AttestationValidationError),
    ObservedAttestersError(ObservedAttestersError),
    ArithError(ArithError),
    /// The store failed.
    DBError,
    /// A state could not be advanced by a slot.
    SlotProcessingError,
    /// A state could not build its committees.
    BeaconStateError,
    /// The pool of unaggregated attestations turned an attestation down.
    NaiveAggregationError,
    /// The pool from which blocks are filled turned an attestation down.
    OpPoolError,
}

} // verus!
