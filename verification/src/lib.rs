//! Gossip verification of beacon-chain attestations.
//!
//! The crate decides whether an attestation that arrived from the network, either a
//! single-validator attestation or a signed aggregate, may be forwarded to other peers and
//! handed to fork choice and the operation pools. Every decision is stated as a contract over a
//! mathematical model of the chain's caches, and proved.
//!
//! [`attestation_verification`] holds the verification itself and [`theorems`] what holds of
//! it as a whole. [`beacon_chain`] holds the chain with its caches and names the
//! collaborators that a chain is built on. The other modules hold the data that attestations
//! are made of and the rules that the verification draws on.

pub mod attestation;
pub mod attestation_verification;
pub mod attesting_indices;
pub mod beacon_chain;
pub mod chain_spec;
pub mod committee_cache;
pub mod errors;
pub mod fork_choice;
pub mod hash256;
pub mod merkle;
pub mod observed_attestations;
pub mod observed_attesters;
pub mod selection_proof;
pub mod shuffling_cache;
pub mod signature_sets;
pub mod signed_beacon_block_header;
pub mod slasher;
pub mod slot_epoch;
pub mod subnet_id;
pub mod theorems;
pub mod validator_pubkey_cache;
