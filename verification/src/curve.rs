//! Scalars and points of the secp256k1 group, held as canonical encodings.
//!
//! A scalar is the 32-byte big-endian encoding of a number below the group
//! order; a point is its 33-byte compressed encoding (all zeroes for the
//! identity). Arithmetic is done by `k256` on these encodings. Scalar
//! arithmetic is specified as arithmetic modulo the group order. The group
//! law is not written out: [`group_add`] and [`group_mul`] stand for what the
//! backend computes.

use crate::secret_box::SecretBox;
use k256::elliptic_curve::group::GroupEncoding;
use k256::elliptic_curve::ops::ReduceNonZero;
use k256::elliptic_curve::PrimeField;
use vstd::arithmetic::power::{lemma_pow1, lemma_pow_adds, pow};
use vstd::prelude::*;

verus! {

/// Width of an encoded scalar.
pub const SCALAR_SIZE: usize = 32;

/// Width of an encoded point.
pub const POINT_SIZE: usize = 33;

/// Order `n` of the secp256k1 group, the modulus of scalar arithmetic.
pub open spec fn group_order() -> nat {
    0xFFFFFFFF_FFFFFFFF_FFFFFFFF_FFFFFFFE_BAAEDCE6_AF48A03B_BFD25E8C_D0364141nat
}

/// The number that `bytes` spell in big-endian order.
pub open spec fn be_value(bytes: Seq<u8>) -> nat
    decreases bytes.len(),
{
    if bytes.len() == 0 {
        0
    } else {
        256 * be_value(bytes.drop_last()) + bytes.last() as nat
    }
}

/// `bytes` is the canonical encoding of a scalar: 32 bytes spelling a number
/// below the group order.
pub open spec fn is_scalar_repr(bytes: Seq<u8>) -> bool {
    bytes.len() == 32 && be_value(bytes) < group_order()
}

/// `bytes` is the canonical encoding of a scalar other than zero.
pub open spec fn is_nonzero_scalar_repr(bytes: Seq<u8>) -> bool {
    is_scalar_repr(bytes) && be_value(bytes) != 0
}

/// `a - b` modulo the group order.
pub open spec fn scalar_sub(a: nat, b: nat) -> nat {
    ((a + group_order() - b) % (group_order() as int)) as nat
}

/// `b` is the inverse of `a` modulo the group order.
pub open spec fn is_inverse(a: nat, b: nat) -> bool {
    b < group_order() && (a * b) % group_order() == 1
}

/// The inverse of `a` modulo the group order, where it has one.
pub open spec fn scalar_inverse(a: nat) -> nat {
    choose|b: nat| is_inverse(a, b)
}

/// The scalar that a 32-byte digest is reduced to: the digest's number
/// folded into `1..n`.
pub open spec fn digest_to_scalar(digest: Seq<u8>) -> nat {
    let w = be_value(digest);
    if w >= group_order() - 1 {
        (w - (group_order() - 1) + 1) as nat
    } else {
        w + 1
    }
}

/// Canonical encoding of the point that the backend decodes `bytes` to, if it
/// decodes them.
pub uninterp spec fn point_decode(bytes: Seq<u8>) -> Option<Seq<u8>>;

/// Canonical encoding of the sum of the points encoded by `a` and `b`.
pub uninterp spec fn group_add(a: Seq<u8>, b: Seq<u8>) -> Seq<u8>;

/// Canonical encoding of `k` times the point encoded by `p`.
pub uninterp spec fn group_mul(p: Seq<u8>, k: nat) -> Seq<u8>;

/// `bytes` is the canonical encoding of a point: 33 bytes that decode to the
/// point whose encoding they are.
pub open spec fn is_point_repr(bytes: Seq<u8>) -> bool {
    bytes.len() == 33 && point_decode(bytes) == Some(bytes)
}

/// Encoding of the base point `G`.
pub open spec fn generator_repr() -> Seq<u8> {
    seq![
        0x02u8, 0x79, 0xBE, 0x66, 0x7E, 0xF9, 0xDC, 0xBB, 0xAC, 0x55, 0xA0, 0x62, 0x95, 0xCE, 0x87,
        0x0B, 0x07, 0x02, 0x9B, 0xFC, 0xDB, 0x2D, 0xCE, 0x28, 0xD9, 0x59, 0xF2, 0x81, 0x5B, 0x16,
        0xF8, 0x17, 0x98,
    ]
}

/// Encoding of the neutral element.
pub open spec fn identity_repr() -> Seq<u8> {
    Seq::new(33, |i: int| 0u8)
}

/// `sum` is related to `a` and `b` as a sum of two multiples of one point is:
/// wherever `a = s·q` and `b = t·q`, `sum = (s + t mod n)·q`.
pub open spec fn adds_multiples(a: Seq<u8>, b: Seq<u8>, sum: Seq<u8>) -> bool {
    forall|q: Seq<u8>, s: nat, t: nat|
        #![trigger group_mul(q, s), group_mul(q, t)]
        is_point_repr(q) && s < group_order() && t < group_order() && a == group_mul(q, s) && b
            == group_mul(q, t) ==> sum == group_mul(q, (s + t) % group_order())
}

/// `product` is related to `p` and `k` as a multiple of a multiple is:
/// wherever `p = t·q`, `product = (t·k mod n)·q`.
pub open spec fn scales_multiple(p: Seq<u8>, k: nat, product: Seq<u8>) -> bool {
    forall|q: Seq<u8>, t: nat|
        #![trigger group_mul(q, t)]
        is_point_repr(q) && t < group_order() && p == group_mul(q, t) ==> product == group_mul(
            q,
            (t * k) % group_order(),
        )
}

/// A big-endian number of `k` bytes is below `256^k`.
pub proof fn lemma_be_value_bound(bytes: Seq<u8>)
    ensures
        be_value(bytes) < pow(256, bytes.len()),
    decreases bytes.len(),
{
    reveal(pow);
    if bytes.len() > 0 {
        lemma_be_value_bound(bytes.drop_last());
    }
}

/// 32 bytes spell a number below `2^256`.
pub proof fn lemma_be_value_32(bytes: Seq<u8>)
    requires
        bytes.len() == 32,
    ensures
        be_value(bytes) < 0x1_00000000_00000000_00000000_00000000_00000000_00000000_00000000_00000000,
{
    lemma_be_value_bound(bytes);
    lemma_pow1(256);
    lemma_pow_adds(256, 1, 1);
    lemma_pow_adds(256, 2, 2);
    lemma_pow_adds(256, 4, 4);
    lemma_pow_adds(256, 8, 8);
    lemma_pow_adds(256, 16, 16);
    let p2 = pow(256, 2);
    let p4 = pow(256, 4);
    let p8 = pow(256, 8);
    let p16 = pow(256, 16);
    assert(p2 == 0x1_0000);
    assert(p4 == 0x1_0000_0000) by (nonlinear_arith)
        requires
            p4 == p2 * p2,
            p2 == 0x1_0000,
    ;
    assert(p8 == 0x1_0000_0000_0000_0000) by (nonlinear_arith)
        requires
            p8 == p4 * p4,
            p4 == 0x1_0000_0000,
    ;
    assert(p16 == 0x1_0000_0000_0000_0000_0000_0000_0000_0000) by (nonlinear_arith)
        requires
            p16 == p8 * p8,
            p8 == 0x1_0000_0000_0000_0000,
    ;
    assert(pow(256, 32)
        == 0x1_00000000_00000000_00000000_00000000_00000000_00000000_00000000_00000000)
        by (nonlinear_arith)
        requires
            pow(256, 32) == p16 * p16,
            p16 == 0x1_0000_0000_0000_0000_0000_0000_0000_0000,
    ;
}

/// Bytes that are all zero spell zero.
pub proof fn lemma_be_value_zeros(bytes: Seq<u8>)
    requires
        forall|i: int| 0 <= i < bytes.len() ==> bytes[i] == 0,
    ensures
        be_value(bytes) == 0,
    decreases bytes.len(),
{
    if bytes.len() > 0 {
        lemma_be_value_zeros(bytes.drop_last());
    }
}

/// A digest is reduced to a scalar other than zero.
pub proof fn lemma_digest_to_scalar_range(digest: Seq<u8>)
    requires
        digest.len() == 32,
    ensures
        0 < digest_to_scalar(digest) < group_order(),
{
    lemma_be_value_32(digest);
}

/// Whether two byte strings are the same.
pub fn bytes_equal(a: &[u8], b: &[u8]) -> (same: bool)
    ensures
        same == (a@ == b@),
{
    if a.len() != b.len() {
        return false;
    }
    let mut i: usize = 0;
    while i < a.len()
        invariant
            i <= a.len(),
            a@.len() == b@.len(),
            forall|j: int| 0 <= j < i ==> a@[j] == b@[j],
        decreases a.len() - i,
    {
        if a[i] != b[i] {
            return false;
        }
        i += 1;
    }
    assert(a@ =~= b@);
    true
}

/// Calls `k256::Scalar::from_repr`, which accepts exactly the 32-byte
/// big-endian integers below the group order.
#[verifier::external_body]
fn backend_scalar_decodes(bytes: &[u8]) -> (ok: bool)
    requires
        bytes@.len() == 32,
    ensures
        ok == (be_value(bytes@) < group_order()),
{
    let repr = <[u8; 32]>::try_from(bytes).unwrap();
    let parsed: Option<k256::Scalar> = k256::Scalar::from_repr(repr.into()).into();
    parsed.is_some()
}

/// Calls `k256::Scalar`'s `+`: addition modulo the group order.
#[verifier::external_body]
fn backend_scalar_add(a: &[u8], b: &[u8]) -> (r: [u8; 32])
    requires
        is_scalar_repr(a@),
        is_scalar_repr(b@),
    ensures
        be_value(r@) == (be_value(a@) + be_value(b@)) % group_order(),
{
    let x = k256::Scalar::from_repr(<[u8; 32]>::try_from(a).unwrap().into()).unwrap();
    let y = k256::Scalar::from_repr(<[u8; 32]>::try_from(b).unwrap().into()).unwrap();
    (x + y).to_bytes().into()
}

/// Calls `k256::Scalar`'s `-`: subtraction modulo the group order.
#[verifier::external_body]
fn backend_scalar_sub(a: &[u8], b: &[u8]) -> (r: [u8; 32])
    requires
        is_scalar_repr(a@),
        is_scalar_repr(b@),
    ensures
        be_value(r@) == scalar_sub(be_value(a@), be_value(b@)),
{
    let x = k256::Scalar::from_repr(<[u8; 32]>::try_from(a).unwrap().into()).unwrap();
    let y = k256::Scalar::from_repr(<[u8; 32]>::try_from(b).unwrap().into()).unwrap();
    (x - y).to_bytes().into()
}

/// Calls `k256::Scalar`'s `*`: multiplication modulo the group order.
#[verifier::external_body]
fn backend_scalar_mul(a: &[u8], b: &[u8]) -> (r: [u8; 32])
    requires
        is_scalar_repr(a@),
        is_scalar_repr(b@),
    ensures
        be_value(r@) == (be_value(a@) * be_value(b@)) % group_order(),
{
    let x = k256::Scalar::from_repr(<[u8; 32]>::try_from(a).unwrap().into()).unwrap();
    let y = k256::Scalar::from_repr(<[u8; 32]>::try_from(b).unwrap().into()).unwrap();
    (x * y).to_bytes().into()
}

/// Calls `k256::Scalar::invert`, which has no result for zero and otherwise
/// gives the scalar whose product with the argument is one.
#[verifier::external_body]
fn backend_scalar_invert(a: &[u8]) -> (r: Option<[u8; 32]>)
    requires
        is_scalar_repr(a@),
    ensures
        r is None <==> be_value(a@) == 0,
        r matches Some(inv) ==> is_inverse(be_value(a@), be_value(inv@)),
{
    let x = k256::Scalar::from_repr(<[u8; 32]>::try_from(a).unwrap().into()).unwrap();
    let inverse: Option<k256::Scalar> = x.invert().into();
    match inverse {
        Some(y) => Some(y.to_bytes().into()),
        None => None,
    }
}

/// Calls `k256::Scalar`'s `ReduceNonZero::reduce_nonzero_bytes`, which folds a
/// 256-bit number `w` into `1..n`: `w + 1`, less `n - 1` where `w` reaches it.
#[verifier::external_body]
fn backend_reduce_nonzero(digest: &[u8; 32]) -> (r: [u8; 32])
    ensures
        be_value(r@) == digest_to_scalar(digest@),
{
    let reduced = <k256::Scalar as ReduceNonZero<k256::U256>>::reduce_nonzero_bytes(
        &(*digest).into(),
    );
    reduced.to_bytes().into()
}

/// Calls `k256::NonZeroScalar::random` on the operating system's generator.
/// All that is known of the outcome is that it encodes a scalar other than
/// zero. The call does not return if the system has no randomness to give.
#[verifier::external_body]
fn backend_random_nonzero(rng: &mut rand_core::OsRng) -> (r: Vec<u8>)
    ensures
        is_nonzero_scalar_repr(r@),
{
    k256::NonZeroScalar::random(rng).to_repr().to_vec()
}

/// Calls `k256::ProjectivePoint::from_bytes` and, where that decodes a
/// point, the point's `to_bytes`. Encodings that the backend produced decode
/// to themselves.
#[verifier::external_body]
fn backend_point_decode(bytes: &[u8]) -> (r: Option<[u8; 33]>)
    requires
        bytes@.len() == 33,
    ensures
        r is None <==> point_decode(bytes@) is None,
        r matches Some(canonical) ==> point_decode(bytes@) == Some(canonical@) && is_point_repr(
            canonical@,
        ),
{
    let repr = <[u8; 33]>::try_from(bytes).unwrap();
    let decoded: Option<k256::ProjectivePoint> = k256::ProjectivePoint::from_bytes(
        &repr.into(),
    ).into();
    match decoded {
        Some(point) => Some(point.to_bytes().into()),
        None => None,
    }
}

/// Encodes `k256::ProjectivePoint::GENERATOR`.
#[verifier::external_body]
fn backend_generator() -> (r: [u8; 33])
    ensures
        r@ == generator_repr(),
        is_point_repr(r@),
{
    k256::ProjectivePoint::GENERATOR.to_bytes().into()
}

/// Encodes `k256::ProjectivePoint::IDENTITY`.
#[verifier::external_body]
fn backend_identity() -> (r: [u8; 33])
    ensures
        r@ == identity_repr(),
        is_point_repr(r@),
{
    k256::ProjectivePoint::IDENTITY.to_bytes().into()
}

/// Calls `k256::ProjectivePoint`'s `+`, the group operation. The group has
/// `n` elements, so multiples of one point add as their factors do modulo
/// `n`.
#[verifier::external_body]
fn backend_point_add(a: &[u8; 33], b: &[u8; 33]) -> (r: [u8; 33])
    requires
        is_point_repr(a@),
        is_point_repr(b@),
    ensures
        r@ == group_add(a@, b@),
        is_point_repr(r@),
        adds_multiples(a@, b@, r@),
{
    let x = k256::ProjectivePoint::from_bytes(&(*a).into()).unwrap();
    let y = k256::ProjectivePoint::from_bytes(&(*b).into()).unwrap();
    (x + y).to_bytes().into()
}

/// Calls `k256::ProjectivePoint`'s `*` with a scalar, the repeated group
/// operation. A multiple of a multiple of a point is the multiple by the
/// product of the factors modulo `n`.
#[verifier::external_body]
fn backend_point_mul(p: &[u8; 33], k: &[u8]) -> (r: [u8; 33])
    requires
        is_point_repr(p@),
        is_scalar_repr(k@),
    ensures
        r@ == group_mul(p@, be_value(k@)),
        is_point_repr(r@),
        scales_multiple(p@, be_value(k@), r@),
{
    let x = k256::ProjectivePoint::from_bytes(&(*p).into()).unwrap();
    let y = k256::Scalar::from_repr(<[u8; 32]>::try_from(k).unwrap().into()).unwrap();
    (x * y).to_bytes().into()
}

#[verifier::external_type_specification]
#[verifier::external_body]
pub struct ExOsRng(rand_core::OsRng);

/// An element of the scalar field.
#[derive(Clone, Copy, Debug, PartialEq, Eq)]
pub struct CurveScalar {
    bytes: [u8; 32],
}

impl View for CurveScalar {
    type V = nat;

    /// The number that the encoding spells.
    open spec fn view(&self) -> nat {
        be_value(self.repr())
    }
}

impl CurveScalar {
    /// The encoding.
    pub closed spec fn repr(self) -> Seq<u8> {
        self.bytes@
    }

    /// Every scalar is held as its canonical encoding.
    #[verifier::type_invariant]
    pub open spec fn wf(self) -> bool {
        is_scalar_repr(self.repr())
    }

    /// Two scalars with the same encoding are the same scalar.
    pub proof fn lemma_same_encoding(self, other: CurveScalar)
        requires
            self.repr() == other.repr(),
        ensures
            self == other,
    {
        assert(self.bytes =~= other.bytes);
    }

    /// The scalar one.
    pub fn one() -> (r: CurveScalar)
        ensures
            r@ == 1,
    {
        let mut bytes: [u8; 32] = [0u8; 32];
        bytes[31] = 1;
        proof {
            lemma_be_value_zeros(bytes@.drop_last());
        }
        CurveScalar { bytes }
    }

    /// Decodes a scalar: 32 bytes that spell a number below the group order.
    pub fn from_bytes(bytes: &[u8]) -> (r: Option<CurveScalar>)
        ensures
            r is Some <==> is_scalar_repr(bytes@),
            r matches Some(s) ==> s.repr() == bytes@ && s@ == be_value(bytes@),
    {
        if bytes.len() != 32 {
            return None;
        }
        if !backend_scalar_decodes(bytes) {
            return None;
        }
        let mut out: [u8; 32] = [0u8; 32];
        let mut i: usize = 0;
        while i < 32
            invariant
                i <= 32,
                bytes@.len() == 32,
                forall|j: int| 0 <= j < i ==> out@[j] == bytes@[j],
            decreases 32 - i,
        {
            out[i] = bytes[i];
            i += 1;
        }
        assert(out@ =~= bytes@);
        Some(CurveScalar { bytes: out })
    }

    /// The canonical encoding.
    pub fn to_array(&self) -> (r: [u8; 32])
        ensures
            r@ == self.repr(),
            is_scalar_repr(r@),
            be_value(r@) == self@,
    {
        proof {
            use_type_invariant(self);
        }
        self.bytes
    }

    /// The sum of the scalars encoded by `a` and `b`.
    pub(crate) fn sum_of(a: &[u8], b: &[u8]) -> (r: CurveScalar)
        requires
            is_scalar_repr(a@),
            is_scalar_repr(b@),
        ensures
            r@ == (be_value(a@) + be_value(b@)) % group_order(),
    {
        CurveScalar { bytes: backend_scalar_add(a, b) }
    }

    /// The product of the scalars encoded by `a` and `b`.
    pub(crate) fn product_of(a: &[u8], b: &[u8]) -> (r: CurveScalar)
        requires
            is_scalar_repr(a@),
            is_scalar_repr(b@),
        ensures
            r@ == (be_value(a@) * be_value(b@)) % group_order(),
    {
        CurveScalar { bytes: backend_scalar_mul(a, b) }
    }

    /// `self + other` modulo the group order.
    pub fn add(&self, other: &CurveScalar) -> (r: CurveScalar)
        ensures
            r@ == (self@ + other@) % group_order(),
    {
        proof {
            use_type_invariant(self);
            use_type_invariant(other);
        }
        CurveScalar::sum_of(self.bytes.as_slice(), other.bytes.as_slice())
    }

    /// `self - other` modulo the group order.
    pub fn sub(&self, other: &CurveScalar) -> (r: CurveScalar)
        ensures
            r@ == scalar_sub(self@, other@),
    {
        proof {
            use_type_invariant(self);
            use_type_invariant(other);
        }
        CurveScalar { bytes: backend_scalar_sub(self.bytes.as_slice(), other.bytes.as_slice()) }
    }

    /// `self * other` modulo the group order.
    pub fn mul(&self, other: &CurveScalar) -> (r: CurveScalar)
        ensures
            r@ == (self@ * other@) % group_order(),
    {
        proof {
            use_type_invariant(self);
            use_type_invariant(other);
        }
        CurveScalar::product_of(self.bytes.as_slice(), other.bytes.as_slice())
    }

    /// The inverse modulo the group order; zero has none.
    pub fn invert(&self) -> (r: Option<CurveScalar>)
        ensures
            r is None <==> self@ == 0,
            r matches Some(inv) ==> is_inverse(self@, inv@) && inv@ == scalar_inverse(self@),
    {
        proof {
            use_type_invariant(self);
        }
        match backend_scalar_invert(self.bytes.as_slice()) {
            Some(bytes) => {
                proof {
                    lemma_inverse_unique(self@, be_value(bytes@), scalar_inverse(self@));
                }
                Some(CurveScalar { bytes })
            },
            None => None,
        }
    }

    /// Whether two scalars are the same.
    pub fn equals(&self, other: &CurveScalar) -> (same: bool)
        ensures
            same == (self.repr() == other.repr()),
    {
        bytes_equal(self.bytes.as_slice(), other.bytes.as_slice())
    }
}

/// Two scalars differ by zero exactly if they are equal.
pub proof fn lemma_scalar_sub_zero(a: nat, b: nat)
    requires
        a < group_order(),
        b < group_order(),
    ensures
        scalar_sub(a, b) == 0 <==> a == b,
        scalar_sub(a, b) < group_order(),
{
    let n = group_order() as int;
    if a >= b {
        vstd::arithmetic::div_mod::lemma_mod_add_multiples_vanish(a - b, n);
        vstd::arithmetic::div_mod::lemma_small_mod((a - b) as nat, n as nat);
    } else {
        vstd::arithmetic::div_mod::lemma_small_mod((a + n - b) as nat, n as nat);
    }
}

/// A number has at most one inverse modulo the group order.
pub proof fn lemma_inverse_unique(a: nat, b: nat, c: nat)
    requires
        is_inverse(a, b),
    ensures
        is_inverse(a, scalar_inverse(a)),
        is_inverse(a, c) ==> b == c,
{
    let n = group_order() as int;
    let (x, y, z) = (a as int, b as int, c as int);
    if is_inverse(a, c) {
        // b = (a·c)·b = (a·b)·c = c  (mod n)
        assert(((x * y) * z) % n == z) by {
            vstd::arithmetic::div_mod::lemma_mul_mod_noop_left(x * y, z, n);
            vstd::arithmetic::div_mod::lemma_small_mod(c, n as nat);
        }
        assert(((x * z) * y) % n == y) by {
            vstd::arithmetic::div_mod::lemma_mul_mod_noop_left(x * z, y, n);
            vstd::arithmetic::div_mod::lemma_small_mod(b, n as nat);
        }
        assert((x * y) * z == (x * z) * y) by (nonlinear_arith);
    }
}

/// A scalar other than zero.
#[derive(Clone, Copy, Debug, PartialEq, Eq)]
pub struct NonZeroCurveScalar {
    scalar: CurveScalar,
}

impl View for NonZeroCurveScalar {
    type V = nat;

    /// The number that the encoding spells.
    open spec fn view(&self) -> nat {
        be_value(self.repr())
    }
}

impl NonZeroCurveScalar {
    /// The encoding.
    pub closed spec fn repr(self) -> Seq<u8> {
        self.scalar.repr()
    }

    /// The encoding is canonical and does not spell zero.
    #[verifier::type_invariant]
    pub open spec fn wf(self) -> bool {
        is_nonzero_scalar_repr(self.repr())
    }

    /// Reduces a 32-byte digest to a scalar other than zero.
    pub fn from_digest(digest: &[u8; 32]) -> (r: NonZeroCurveScalar)
        ensures
            r@ == digest_to_scalar(digest@),
    {
        proof {
            lemma_digest_to_scalar_range(digest@);
        }
        NonZeroCurveScalar { scalar: CurveScalar { bytes: backend_reduce_nonzero(digest) } }
    }

    /// Decodes a scalar and accepts it unless it is zero.
    pub fn from_bytes(bytes: &[u8]) -> (r: Option<NonZeroCurveScalar>)
        ensures
            r is Some <==> is_nonzero_scalar_repr(bytes@),
            r matches Some(s) ==> s.repr() == bytes@ && s@ == be_value(bytes@),
    {
        match CurveScalar::from_bytes(bytes) {
            Some(scalar) => {
                if scalar.invert().is_none() {
                    None
                } else {
                    Some(NonZeroCurveScalar { scalar })
                }
            },
            None => None,
        }
    }

    /// The same number as a plain scalar.
    pub fn to_scalar(&self) -> (r: CurveScalar)
        ensures
            r@ == self@,
            r@ != 0,
            r.repr() == self.repr(),
    {
        proof {
            use_type_invariant(self);
        }
        self.scalar
    }

    /// The inverse modulo the group order.
    pub fn invert(&self) -> (r: NonZeroCurveScalar)
        ensures
            is_inverse(self@, r@),
            r@ == scalar_inverse(self@),
    {
        proof {
            use_type_invariant(self);
        }
        match self.scalar.invert() {
            Some(inv) => {
                assert(inv@ != 0) by {
                    assert(self@ * 0 == 0);
                }
                NonZeroCurveScalar { scalar: inv }
            },
            None => vstd::pervasive::unreached(),
        }
    }
}

/// A scalar other than zero, kept in a [`SecretBox`].
pub struct SecretScalar {
    boxed: SecretBox,
}

impl View for SecretScalar {
    type V = nat;

    /// The number that the encoding spells.
    open spec fn view(&self) -> nat {
        be_value(self.repr())
    }
}

impl SecretScalar {
    /// The encoding, which the box holds.
    pub closed spec fn repr(self) -> Seq<u8> {
        self.boxed@
    }

    /// The encoding is canonical and does not spell zero.
    #[verifier::type_invariant]
    pub open spec fn wf(self) -> bool {
        is_nonzero_scalar_repr(self.repr())
    }

    /// Draws a scalar other than zero from the operating system's generator.
    pub fn random(rng: &mut rand_core::OsRng) -> (r: SecretScalar)
        ensures
            0 < r@ < group_order(),
    {
        SecretScalar { boxed: SecretBox::new(backend_random_nonzero(rng)) }
    }

    /// Takes a boxed encoding of a scalar other than zero.
    pub fn from_secret(boxed: SecretBox) -> (r: Option<SecretScalar>)
        ensures
            r is Some <==> is_nonzero_scalar_repr(boxed@),
            r matches Some(s) ==> s@ == be_value(boxed@),
    {
        let accepted = NonZeroCurveScalar::from_bytes(boxed.as_secret()).is_some();
        if accepted {
            Some(SecretScalar { boxed })
        } else {
            None
        }
    }

    /// Lends the encoding of the secret.
    pub fn as_secret(&self) -> (bytes: &[u8])
        ensures
            is_nonzero_scalar_repr(bytes@),
            be_value(bytes@) == self@,
    {
        proof {
            use_type_invariant(self);
        }
        self.boxed.as_secret()
    }

    /// `self + other` modulo the group order.
    pub fn add(&self, other: &SecretScalar) -> (r: CurveScalar)
        ensures
            r@ == (self@ + other@) % group_order(),
    {
        CurveScalar::sum_of(self.as_secret(), other.as_secret())
    }

    /// `self + other` modulo the group order, for a scalar that is no
    /// secret.
    pub fn add_scalar(&self, other: &CurveScalar) -> (r: CurveScalar)
        ensures
            r@ == (self@ + other@) % group_order(),
    {
        let term = other.to_array();
        CurveScalar::sum_of(self.as_secret(), term.as_slice())
    }

    /// `self * other` modulo the group order.
    pub fn mul(&self, other: &CurveScalar) -> (r: CurveScalar)
        ensures
            r@ == (self@ * other@) % group_order(),
    {
        let factor = other.to_array();
        CurveScalar::product_of(self.as_secret(), factor.as_slice())
    }
}

/// An element of the group.
#[derive(Clone, Copy, Debug, PartialEq, Eq)]
pub struct CurvePoint {
    bytes: [u8; 33],
}

impl View for CurvePoint {
    type V = Seq<u8>;

    closed spec fn view(&self) -> Seq<u8> {
        self.bytes@
    }
}

impl CurvePoint {
    /// Every point is held as its canonical encoding.
    #[verifier::type_invariant]
    pub open spec fn wf(self) -> bool {
        is_point_repr(self@)
    }

    /// Two points with the same encoding are the same point.
    pub proof fn lemma_same_encoding(self, other: CurvePoint)
        requires
            self@ == other@,
        ensures
            self == other,
    {
        assert(self.bytes =~= other.bytes);
    }

    /// The base point `G`.
    pub fn generator() -> (r: CurvePoint)
        ensures
            r@ == generator_repr(),
            is_point_repr(r@),
    {
        CurvePoint { bytes: backend_generator() }
    }

    /// The neutral element.
    pub fn identity() -> (r: CurvePoint)
        ensures
            r@ == identity_repr(),
            is_point_repr(r@),
    {
        CurvePoint { bytes: backend_identity() }
    }

    /// Decodes a point. Only the canonical encoding of a point is accepted.
    pub fn from_bytes(bytes: &[u8]) -> (r: Option<CurvePoint>)
        ensures
            r is Some <==> is_point_repr(bytes@),
            r matches Some(p) ==> p@ == bytes@,
    {
        if bytes.len() != 33 {
            return None;
        }
        match backend_point_decode(bytes) {
            Some(canonical) => {
                if bytes_equal(canonical.as_slice(), bytes) {
                    Some(CurvePoint { bytes: canonical })
                } else {
                    None
                }
            },
            None => None,
        }
    }

    /// The canonical encoding.
    pub fn to_array(&self) -> (r: [u8; 33])
        ensures
            r@ == self@,
            is_point_repr(r@),
    {
        proof {
            use_type_invariant(self);
        }
        self.bytes
    }

    /// `self + other` in the group.
    pub fn add(&self, other: &CurvePoint) -> (r: CurvePoint)
        ensures
            r@ == group_add(self@, other@),
            adds_multiples(self@, other@, r@),
    {
        proof {
            use_type_invariant(self);
            use_type_invariant(other);
        }
        CurvePoint { bytes: backend_point_add(&self.bytes, &other.bytes) }
    }

    /// `k` times `self`, for the scalar that `k` encodes.
    pub(crate) fn multiple_by(&self, k: &[u8]) -> (r: CurvePoint)
        requires
            is_scalar_repr(k@),
        ensures
            r@ == group_mul(self@, be_value(k@)),
            scales_multiple(self@, be_value(k@), r@),
    {
        proof {
            use_type_invariant(self);
        }
        CurvePoint { bytes: backend_point_mul(&self.bytes, k) }
    }

    /// `k` times `self`.
    pub fn mul(&self, k: &CurveScalar) -> (r: CurvePoint)
        ensures
            r@ == group_mul(self@, k@),
            scales_multiple(self@, k@, r@),
    {
        let factor = k.to_array();
        self.multiple_by(factor.as_slice())
    }

    /// `k` times `self`, for a secret `k`.
    pub fn mul_secret(&self, k: &SecretScalar) -> (r: CurvePoint)
        ensures
            r@ == group_mul(self@, k@),
            scales_multiple(self@, k@, r@),
    {
        self.multiple_by(k.as_secret())
    }

    /// Whether two points are the same.
    pub fn equals(&self, other: &CurvePoint) -> (same: bool)
        ensures
            same == (self@ == other@),
    {
        bytes_equal(self.bytes.as_slice(), other.bytes.as_slice())
    }
}

} // verus!
