//! Core of a quorum-based (multisig) authorization program: validation and
//! normalization of creation parameters, derivation of the multisig's unique
//! address from an ephemeral create key, initialization of the record in a
//! directly-addressable or a compressed (Merkle-leaf) store, and the optional
//! creation-fee transfer tied to a global configuration record.

pub mod derivation;
pub mod errors;
pub mod multisig_create;
pub mod pubkey;
pub mod state;
pub mod store;
