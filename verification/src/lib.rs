//! Cryptographic core of a threshold proxy re-encryption scheme.
//!
//! A delegator encapsulates a symmetric key seed into a self-verifying
//! [`capsule`]; a receiver holding enough re-encryption fragments recombines
//! them into the same seed. Group and field arithmetic is carried out by the
//! `k256` backend on canonical byte encodings; everything around those calls
//! is verified.

pub mod capsule;
pub mod capsule_frag;
pub mod curve;
pub mod errors;
pub mod hashing;
pub mod keys;
pub mod secret_box;
