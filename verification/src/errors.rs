//! Errors of decoding.

use vstd::prelude::*;

verus! {

/// Why bytes were not accepted as a capsule.
#[derive(Clone, Copy, Debug, PartialEq, Eq)]
pub enum ConstructionError {
    /// The bytes do not have the width of the encoding.
    SizeMismatch,
    /// One of the two points is not the canonical encoding of a point.
    InvalidPoint,
    /// The signature is not the canonical encoding of a scalar.
    InvalidScalar,
    /// The parts do not pass the capsule's self-check.
    VerificationFailed,
}

impl ConstructionError {
    /// A sentence for the error.
    pub fn message(&self) -> (text: &'static str)
        ensures
            text == self.spec_message(),
    {
        match self {
            ConstructionError::SizeMismatch => "Bytestring size mismatch",
            ConstructionError::InvalidPoint => "Invalid curve point",
            ConstructionError::InvalidScalar => "Invalid curve scalar",
            ConstructionError::VerificationFailed => "Self-verification failed",
        }
    }

    /// The sentence that [`ConstructionError::message`] gives.
    pub open spec fn spec_message(&self) -> &'static str {
        match self {
            ConstructionError::SizeMismatch => "Bytestring size mismatch",
            ConstructionError::InvalidPoint => "Invalid curve point",
            ConstructionError::InvalidScalar => "Invalid curve scalar",
            ConstructionError::VerificationFailed => "Self-verification failed",
        }
    }
}

} // verus!
