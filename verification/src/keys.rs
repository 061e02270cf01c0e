//! Key pairs: a secret scalar and the point it takes the generator to.

use crate::curve::{
    generator_repr, group_mul, group_order, is_point_repr, scales_multiple, CurvePoint,
    SecretScalar,
};
use crate::secret_box::SecretBox;
use vstd::prelude::*;

verus! {

/// A secret key: a scalar other than zero, kept in a secret container.
pub struct SecretKey {
    scalar: SecretScalar,
}

impl View for SecretKey {
    type V = nat;

    closed spec fn view(&self) -> nat {
        self.scalar@
    }
}

impl SecretKey {
    /// Draws a key from the operating system's generator.
    pub fn random(rng: &mut rand_core::OsRng) -> (key: SecretKey)
        ensures
            0 < key@ < group_order(),
    {
        SecretKey { scalar: SecretScalar::random(rng) }
    }

    /// Takes a boxed encoding of a scalar other than zero as a key.
    pub fn from_secret(boxed: SecretBox) -> (key: Option<SecretKey>)
        ensures
            key is Some <==> crate::curve::is_nonzero_scalar_repr(boxed@),
            key matches Some(k) ==> k@ == crate::curve::be_value(boxed@),
    {
        match SecretScalar::from_secret(boxed) {
            Some(scalar) => Some(SecretKey { scalar }),
            None => None,
        }
    }

    /// Lends the secret scalar.
    pub fn to_secret_scalar(&self) -> (scalar: &SecretScalar)
        ensures
            scalar@ == self@,
    {
        &self.scalar
    }

    /// The public key that belongs to this key: the generator taken `self`
    /// times.
    pub fn public_key(&self) -> (key: PublicKey)
        ensures
            key@ == group_mul(generator_repr(), self@),
            is_point_repr(generator_repr()),
            scales_multiple(generator_repr(), self@, key@),
    {
        PublicKey { point: CurvePoint::generator().mul_secret(&self.scalar) }
    }
}

/// A public key: a point of the group.
#[derive(Clone, Copy, Debug, PartialEq, Eq)]
pub struct PublicKey {
    point: CurvePoint,
}

impl View for PublicKey {
    type V = Seq<u8>;

    closed spec fn view(&self) -> Seq<u8> {
        self.point@
    }
}

impl PublicKey {
    /// Takes a point as a public key.
    pub fn from_point(point: CurvePoint) -> (key: PublicKey)
        ensures
            key@ == point@,
    {
        PublicKey { point }
    }

    /// The point of the key.
    pub fn to_point(&self) -> (point: CurvePoint)
        ensures
            point@ == self@,
    {
        self.point
    }
}

} // verus!
