//! The capsule: an encapsulated key seed that proves its own integrity, and
//! the two ways of opening it.

use crate::capsule_frag::{CapsuleFrag, CapsuleFragView};
use crate::curve::{
    adds_multiples, be_value, generator_repr, group_add, group_mul, group_order, identity_repr,
    is_point_repr, is_scalar_repr, lemma_scalar_sub_zero, scalar_inverse, scalar_sub,
    scales_multiple, CurvePoint, CurveScalar, NonZeroCurveScalar, SecretScalar,
};
use crate::errors::ConstructionError;
use crate::hashing::{
    append_bytes, hash_capsule_points, hash_to_polynomial_arg, hash_to_shared_secret,
    spec_hash_capsule_points, spec_hash_to_polynomial_arg, spec_hash_to_shared_secret,
};
use crate::keys::{PublicKey, SecretKey};
use crate::secret_box::SecretBox;
use vstd::arithmetic::div_mod::{lemma_mul_mod_noop_left, lemma_mul_mod_noop_right};
use vstd::prelude::*;
use vstd::slice::{slice_subrange, slice_to_vec};

verus! {

/// Width of an encoded capsule: two points and a scalar.
pub const CAPSULE_SIZE: usize = 98;

/// Why re-encrypted fragments did not open a capsule.
#[derive(Clone, Copy, Debug, PartialEq, Eq)]
pub enum OpenReencryptedError {
    /// No fragment was given.
    NoCapsuleFrags,
    /// The fragments come from different issuance runs.
    MismatchedCapsuleFrags,
    /// Two of the fragments have the same polynomial argument.
    RepeatingCapsuleFrags,
    /// The combined fragments do not match the capsule and the keys.
    ValidationFailed,
}

impl OpenReencryptedError {
    /// A sentence for the error.
    pub fn message(&self) -> (text: &'static str)
        ensures
            text == self.spec_message(),
    {
        match self {
            OpenReencryptedError::NoCapsuleFrags => "Empty CapsuleFrag sequence",
            OpenReencryptedError::MismatchedCapsuleFrags => {
                "CapsuleFrags are not pairwise consistent"
            },
            OpenReencryptedError::RepeatingCapsuleFrags => "Some of the CapsuleFrags are repeated",
            OpenReencryptedError::ValidationFailed => "Internal validation failed",
        }
    }

    /// The sentence that [`OpenReencryptedError::message`] gives.
    pub open spec fn spec_message(&self) -> &'static str {
        match self {
            OpenReencryptedError::NoCapsuleFrags => "Empty CapsuleFrag sequence",
            OpenReencryptedError::MismatchedCapsuleFrags => {
                "CapsuleFrags are not pairwise consistent"
            },
            OpenReencryptedError::RepeatingCapsuleFrags => "Some of the CapsuleFrags are repeated",
            OpenReencryptedError::ValidationFailed => "Internal validation failed",
        }
    }
}

/// What a capsule holds: two encoded points and the number of its signature.
pub struct CapsuleView {
    pub point_e: Seq<u8>,
    pub point_v: Seq<u8>,
    pub signature: nat,
}

/// The capsule's self-check: `signature·G == point_v + h·point_e`, where `h`
/// is the hash of the two points.
pub open spec fn capsule_verifies(point_e: Seq<u8>, point_v: Seq<u8>, signature: nat) -> bool {
    group_mul(generator_repr(), signature) == group_add(
        point_v,
        group_mul(point_e, spec_hash_capsule_points(point_e, point_v)),
    )
}

/// The backend's results in the self-check of `point_e` and `point_v`
/// combine as multiples of a point do.
pub open spec fn self_check_is_linear(point_e: Seq<u8>, point_v: Seq<u8>) -> bool {
    let h = spec_hash_capsule_points(point_e, point_v);
    let scaled = group_mul(point_e, h);
    scales_multiple(point_e, h, scaled) && adds_multiples(
        point_v,
        scaled,
        group_add(point_v, scaled),
    )
}

/// What encapsulation under `delegating_pk` gives for the ephemeral secrets
/// `r` and `u`: the capsule and the encoded shared point.
pub open spec fn spec_encapsulate(r: nat, u: nat, delegating_pk: Seq<u8>) -> (
    CapsuleView,
    Seq<u8>,
) {
    let point_e = group_mul(generator_repr(), r);
    let point_v = group_mul(generator_repr(), u);
    let h = spec_hash_capsule_points(point_e, point_v);
    (
        CapsuleView {
            point_e,
            point_v,
            signature: (u + (r * h) % group_order()) % group_order(),
        },
        group_mul(delegating_pk, (r + u) % group_order()),
    )
}

/// The seed that the delegator's secret `delegating_sk` opens a capsule to.
pub open spec fn spec_open_original(capsule: CapsuleView, delegating_sk: nat) -> Seq<u8> {
    group_mul(group_add(capsule.point_e, capsule.point_v), delegating_sk)
}

/// The backend's results in encapsulation under `delegating_pk` combine as
/// multiples of a point do.
pub open spec fn encapsulation_is_linear(r: nat, u: nat, delegating_pk: Seq<u8>) -> bool {
    let sum = (r + u) % group_order();
    is_point_repr(generator_repr()) && scales_multiple(
        delegating_pk,
        sum,
        group_mul(delegating_pk, sum),
    )
}

/// The backend's results in opening a capsule with `delegating_sk` combine
/// as multiples of a point do.
pub open spec fn open_original_is_linear(capsule: CapsuleView, delegating_sk: nat) -> bool {
    let sum = group_add(capsule.point_e, capsule.point_v);
    adds_multiples(capsule.point_e, capsule.point_v, sum) && scales_multiple(
        sum,
        delegating_sk,
        group_mul(sum, delegating_sk),
    )
}

/// The numbers of a list of scalars.
pub open spec fn scalar_values(xs: Seq<NonZeroCurveScalar>) -> Seq<nat> {
    Seq::new(xs.len(), |j: int| xs[j]@)
}

/// What a list of fragments holds.
pub open spec fn frag_views(cfrags: Seq<CapsuleFrag>) -> Seq<CapsuleFragView> {
    Seq::new(cfrags.len(), |i: int| cfrags[i]@)
}

/// All fragments have the precursor of the first.
pub open spec fn same_precursor(cfrags: Seq<CapsuleFragView>) -> bool {
    forall|i: int| 0 <= i < cfrags.len() ==> (#[trigger] cfrags[i]).precursor == cfrags[0].precursor
}

/// The polynomial arguments of a list of fragments, for a receiver's public
/// point and the point shared with the issuer.
pub open spec fn polynomial_args(
    cfrags: Seq<CapsuleFragView>,
    pub_key: Seq<u8>,
    dh_point: Seq<u8>,
) -> Seq<nat> {
    Seq::new(
        cfrags.len(),
        |i: int|
            spec_hash_to_polynomial_arg(cfrags[0].precursor, pub_key, dh_point, cfrags[i].kfrag_id),
    )
}

/// Another entry of `xs` is equal to the one at `i`.
pub open spec fn collides(xs: Seq<nat>, i: int) -> bool {
    exists|j: int| 0 <= j < xs.len() && j != i && #[trigger] xs[j] == xs[i]
}

/// Two entries of `xs` are equal.
pub open spec fn has_repeats(xs: Seq<nat>) -> bool {
    exists|i: int| 0 <= i < xs.len() && #[trigger] collides(xs, i)
}

/// The factor that `xs[j]` adds to the weight of `xs[i]`:
/// `xs[j] / (xs[j] - xs[i])` modulo the group order.
pub open spec fn lagrange_factor(xs: Seq<nat>, i: int, j: int) -> nat {
    (xs[j] * scalar_inverse(scalar_sub(xs[j], xs[i]))) % group_order()
}

/// The product of the factors that the first `k` entries other than
/// `xs[i]` add to its weight.
pub open spec fn lagrange_product(xs: Seq<nat>, i: int, k: nat) -> nat
    decreases k,
{
    if k == 0 {
        1
    } else if k - 1 == i {
        lagrange_product(xs, i, (k - 1) as nat)
    } else {
        (lagrange_product(xs, i, (k - 1) as nat) * lagrange_factor(xs, i, k - 1)) % group_order()
    }
}

/// The weight of `xs[i]` in the interpolation at zero: the product over
/// `j != i` of `xs[j] / (xs[j] - xs[i])`.
pub open spec fn lagrange_weight(xs: Seq<nat>, i: int) -> nat {
    lagrange_product(xs, i, xs.len())
}

/// The sum of the first `k` points, each taken by its weight.
pub open spec fn weighted_sum(points: Seq<Seq<u8>>, weights: Seq<nat>, k: nat) -> Seq<u8>
    decreases k,
{
    if k == 0 {
        identity_repr()
    } else {
        group_add(
            weighted_sum(points, weights, (k - 1) as nat),
            group_mul(points[k - 1], weights[k - 1]),
        )
    }
}

/// What opening `capsule` with re-encrypted fragments gives: the encoded
/// shared point, or the first check that fails.
pub open spec fn spec_open_reencrypted(
    capsule: CapsuleView,
    receiving_sk: nat,
    delegating_pk: Seq<u8>,
    cfrags: Seq<CapsuleFragView>,
) -> Result<Seq<u8>, OpenReencryptedError> {
    if cfrags.len() == 0 {
        Err(OpenReencryptedError::NoCapsuleFrags)
    } else if !same_precursor(cfrags) {
        Err(OpenReencryptedError::MismatchedCapsuleFrags)
    } else {
        let precursor = cfrags[0].precursor;
        let pub_key = group_mul(generator_repr(), receiving_sk);
        let dh_point = group_mul(precursor, receiving_sk);
        let xs = polynomial_args(cfrags, pub_key, dh_point);
        if has_repeats(xs) {
            Err(OpenReencryptedError::RepeatingCapsuleFrags)
        } else {
            let weights = Seq::new(cfrags.len(), |i: int| lagrange_weight(xs, i));
            let e_prime = weighted_sum(
                Seq::new(cfrags.len(), |i: int| cfrags[i].point_e1),
                weights,
                cfrags.len(),
            );
            let v_prime = weighted_sum(
                Seq::new(cfrags.len(), |i: int| cfrags[i].point_v1),
                weights,
                cfrags.len(),
            );
            let d = spec_hash_to_shared_secret(precursor, pub_key, dh_point);
            let h = spec_hash_capsule_points(capsule.point_e, capsule.point_v);
            let inv_d = scalar_inverse(d);
            if group_mul(delegating_pk, (capsule.signature * inv_d) % group_order()) != group_add(
                group_mul(e_prime, h),
                v_prime,
            ) {
                Err(OpenReencryptedError::ValidationFailed)
            } else {
                Ok(group_mul(group_add(e_prime, v_prime), d))
            }
        }
    }
}

/// What decoding `bytes` as a capsule gives: the capsule's contents, or the
/// first check that fails.
pub open spec fn spec_from_bytes(bytes: Seq<u8>) -> Result<CapsuleView, ConstructionError> {
    if bytes.len() != 98 {
        Err(ConstructionError::SizeMismatch)
    } else {
        let point_e = bytes.subrange(0, 33);
        let point_v = bytes.subrange(33, 66);
        let signature = bytes.subrange(66, 98);
        if !is_point_repr(point_e) || !is_point_repr(point_v) {
            Err(ConstructionError::InvalidPoint)
        } else if !is_scalar_repr(signature) {
            Err(ConstructionError::InvalidScalar)
        } else if !capsule_verifies(point_e, point_v, be_value(signature)) {
            Err(ConstructionError::VerificationFailed)
        } else {
            Ok(CapsuleView { point_e, point_v, signature: be_value(signature) })
        }
    }
}

/// An encapsulated key seed. Every capsule passes its self-check.
#[derive(Clone, Copy, Debug, PartialEq, Eq)]
pub struct Capsule {
    point_e: CurvePoint,
    point_v: CurvePoint,
    signature: CurveScalar,
}

impl View for Capsule {
    type V = CapsuleView;

    closed spec fn view(&self) -> CapsuleView {
        CapsuleView {
            point_e: self.point_e@,
            point_v: self.point_v@,
            signature: self.signature@,
        }
    }
}

impl Capsule {
    /// The parts are well formed and pass the self-check.
    #[verifier::type_invariant]
    pub closed spec fn wf(self) -> bool {
        &&& self.point_e.wf()
        &&& self.point_v.wf()
        &&& self.signature.wf()
        &&& capsule_verifies(self.point_e@, self.point_v@, self.signature@)
    }

    /// The fixed-width encoding: `point_e`, `point_v`, `signature`.
    pub closed spec fn repr(self) -> Seq<u8> {
        self.point_e@ + self.point_v@ + self.signature.repr()
    }

    /// Runs the self-check on the parts of a capsule.
    fn verify_parts(point_e: &CurvePoint, point_v: &CurvePoint, signature: &CurveScalar) -> (ok:
        bool)
        ensures
            ok == capsule_verifies(point_e@, point_v@, signature@),
            self_check_is_linear(point_e@, point_v@),
    {
        let g = CurvePoint::generator();
        let h = hash_capsule_points(point_e, point_v);
        let signed = g.mul(signature);
        let expected = point_v.add(&point_e.mul(&h.to_scalar()));
        signed.equals(&expected)
    }

    /// Puts a capsule together from parts that pass the self-check.
    pub fn new(point_e: CurvePoint, point_v: CurvePoint, signature: CurveScalar) -> (capsule:
        Capsule)
        requires
            capsule_verifies(point_e@, point_v@, signature@),
        ensures
            capsule@ == (CapsuleView {
                point_e: point_e@,
                point_v: point_v@,
                signature: signature@,
            }),
            capsule.repr() == point_e@ + point_v@ + signature.repr(),
    {
        proof {
            use_type_invariant(&point_e);
            use_type_invariant(&point_v);
            use_type_invariant(&signature);
        }
        Capsule { point_e, point_v, signature }
    }

    /// Puts a capsule together from its parts if they pass the self-check.
    pub fn new_verified(point_e: CurvePoint, point_v: CurvePoint, signature: CurveScalar) -> (r:
        Option<Capsule>)
        ensures
            r is Some <==> capsule_verifies(point_e@, point_v@, signature@),
            r matches Some(capsule) ==> capsule@ == (CapsuleView {
                point_e: point_e@,
                point_v: point_v@,
                signature: signature@,
            }) && capsule.repr() == point_e@ + point_v@ + signature.repr(),
    {
        if Capsule::verify_parts(&point_e, &point_v, &signature) {
            Some(Capsule::new(point_e, point_v, signature))
        } else {
            None
        }
    }

    /// Runs the self-check. It holds of every capsule.
    pub fn verify(&self) -> (ok: bool)
        ensures
            ok == capsule_verifies(self@.point_e, self@.point_v, self@.signature),
            ok,
    {
        proof {
            use_type_invariant(self);
        }
        Capsule::verify_parts(&self.point_e, &self.point_v, &self.signature)
    }

    /// The first point: the generator taken by the first ephemeral secret.
    pub fn point_e(&self) -> (point: CurvePoint)
        ensures
            point@ == self@.point_e,
    {
        self.point_e
    }

    /// The second point: the generator taken by the second ephemeral secret.
    pub fn point_v(&self) -> (point: CurvePoint)
        ensures
            point@ == self@.point_v,
    {
        self.point_v
    }

    /// The signature that ties the two points together.
    pub fn signature(&self) -> (scalar: CurveScalar)
        ensures
            scalar@ == self@.signature,
    {
        self.signature
    }

    /// The fixed-width encoding: `point_e`, `point_v`, `signature`.
    pub fn to_array(&self) -> (arr: [u8; 98])
        ensures
            arr@ == self.repr(),
            spec_from_bytes(arr@) == Ok::<CapsuleView, ConstructionError>(self@),
    {
        let mut bytes: Vec<u8> = Vec::new();
        append_bytes(&mut bytes, self.point_e.to_array().as_slice());
        append_bytes(&mut bytes, self.point_v.to_array().as_slice());
        append_bytes(&mut bytes, self.signature.to_array().as_slice());
        let mut arr: [u8; 98] = [0u8; 98];
        let mut i: usize = 0;
        while i < 98
            invariant
                i <= 98,
                bytes@.len() == 98,
                forall|j: int| 0 <= j < i ==> arr@[j] == bytes@[j],
            decreases 98 - i,
        {
            arr[i] = bytes[i];
            i += 1;
        }
        assert(arr@ =~= self.repr());
        proof {
            use_type_invariant(self);
            self.lemma_repr_decodes();
        }
        arr
    }

    /// Decodes a capsule from its fixed-width encoding and runs the
    /// self-check.
    pub fn from_array(arr: &[u8; 98]) -> (r: Result<Capsule, ConstructionError>)
        ensures
            capsule_outcome(r) == spec_from_bytes(arr@),
            r matches Ok(capsule) ==> capsule.repr() == arr@,
    {
        let bytes = arr.as_slice();
        let point_e = match CurvePoint::from_bytes(slice_subrange(bytes, 0, 33)) {
            Some(point) => point,
            None => { return Err(ConstructionError::InvalidPoint); },
        };
        let point_v = match CurvePoint::from_bytes(slice_subrange(bytes, 33, 66)) {
            Some(point) => point,
            None => { return Err(ConstructionError::InvalidPoint); },
        };
        let signature = match CurveScalar::from_bytes(slice_subrange(bytes, 66, 98)) {
            Some(scalar) => scalar,
            None => { return Err(ConstructionError::InvalidScalar); },
        };
        match Capsule::new_verified(point_e, point_v, signature) {
            Some(capsule) => {
                assert(capsule.repr() =~= arr@);
                Ok(capsule)
            },
            None => Err(ConstructionError::VerificationFailed),
        }
    }

    /// Decodes a capsule from bytes: they must have the width of a capsule,
    /// hold its parts and pass the self-check.
    pub fn from_bytes(bytes: &[u8]) -> (r: Result<Capsule, ConstructionError>)
        ensures
            capsule_outcome(r) == spec_from_bytes(bytes@),
            r matches Ok(capsule) ==> capsule.repr() == bytes@,
    {
        if bytes.len() != 98 {
            return Err(ConstructionError::SizeMismatch);
        }
        let mut arr: [u8; 98] = [0u8; 98];
        let mut i: usize = 0;
        while i < 98
            invariant
                i <= 98,
                bytes@.len() == 98,
                forall|j: int| 0 <= j < i ==> arr@[j] == bytes@[j],
            decreases 98 - i,
        {
            arr[i] = bytes[i];
            i += 1;
        }
        assert(arr@ =~= bytes@);
        Capsule::from_array(&arr)
    }

    /// The encoding of a capsule decodes to the capsule.
    pub proof fn lemma_repr_decodes(self)
        requires
            self.wf(),
        ensures
            self.repr().len() == 98,
            spec_from_bytes(self.repr()) == Ok::<CapsuleView, ConstructionError>(self@),
    {
        let bytes = self.repr();
        assert(bytes.subrange(0, 33) =~= self.point_e@);
        assert(bytes.subrange(33, 66) =~= self.point_v@);
        assert(bytes.subrange(66, 98) =~= self.signature.repr());
    }

    /// Two capsules with the same encoding are the same capsule.
    pub proof fn lemma_repr_is_injective(self, other: Capsule)
        requires
            self.wf(),
            other.wf(),
            self.repr() == other.repr(),
        ensures
            self == other,
    {
        assert(self.repr().subrange(0, 33) =~= self.point_e@);
        assert(self.repr().subrange(33, 66) =~= self.point_v@);
        assert(self.repr().subrange(66, 98) =~= self.signature.repr());
        assert(other.repr().subrange(0, 33) =~= other.point_e@);
        assert(other.repr().subrange(33, 66) =~= other.point_v@);
        assert(other.repr().subrange(66, 98) =~= other.signature.repr());
        self.point_e.lemma_same_encoding(other.point_e);
        self.point_v.lemma_same_encoding(other.point_v);
        self.signature.lemma_same_encoding(other.signature);
    }
}

impl Capsule {
    /// Encapsulates a key seed under `delegating_pk` with the ephemeral
    /// secrets `priv_r` and `priv_u`. The capsule is put through its
    /// self-check before it is handed out; the check cannot fail.
    pub fn from_ephemeral_secrets(
        priv_r: &SecretScalar,
        priv_u: &SecretScalar,
        delegating_pk: &PublicKey,
    ) -> (out: (Capsule, SecretBox))
        ensures
            (out.0@, out.1@) == spec_encapsulate(priv_r@, priv_u@, delegating_pk@),
            encapsulation_is_linear(priv_r@, priv_u@, delegating_pk@),
    {
        proof {
            use_type_invariant(priv_r);
            use_type_invariant(priv_u);
        }
        let g = CurvePoint::generator();
        let pub_r = g.mul_secret(priv_r);
        let pub_u = g.mul_secret(priv_u);
        let h = hash_capsule_points(&pub_r, &pub_u);
        let s = priv_u.add_scalar(&priv_r.mul(&h.to_scalar()));
        let shared_key = delegating_pk.to_point().mul(&priv_r.add(priv_u));
        if !Capsule::verify_parts(&pub_r, &pub_u, &s) {
            proof {
                lemma_encapsulation_verifies(priv_r@, priv_u@, delegating_pk@);
            }
            return vstd::pervasive::unreached();
        }
        let capsule = Capsule::new(pub_r, pub_u, s);
        (capsule, SecretBox::new(slice_to_vec(shared_key.to_array().as_slice())))
    }

    /// Encapsulates a key seed under `delegating_pk`, with two ephemeral
    /// secrets drawn from `rng`.
    pub fn from_public_key(rng: &mut rand_core::OsRng, delegating_pk: &PublicKey) -> (out: (
        Capsule,
        SecretBox,
    ))
        ensures
            exists|r: nat, u: nat|
                0 < r < group_order() && 0 < u < group_order() && (out.0@, out.1@)
                    == #[trigger] spec_encapsulate(r, u, delegating_pk@)
                    && encapsulation_is_linear(r, u, delegating_pk@),
    {
        let priv_r = SecretScalar::random(rng);
        let priv_u = SecretScalar::random(rng);
        Capsule::from_ephemeral_secrets(&priv_r, &priv_u, delegating_pk)
    }

    /// Opens the capsule with the secret key of the delegator.
    pub fn open_original(&self, delegating_sk: &SecretKey) -> (seed: SecretBox)
        ensures
            seed@ == spec_open_original(self@, delegating_sk@),
            open_original_is_linear(self@, delegating_sk@),
    {
        let shared_key = self.point_e.add(&self.point_v).mul_secret(
            delegating_sk.to_secret_scalar(),
        );
        SecretBox::new(slice_to_vec(shared_key.to_array().as_slice()))
    }

    /// Opens the capsule with fragments that were re-encrypted for the owner
    /// of `receiving_sk`, from a capsule made under `delegating_pk`.
    pub fn open_reencrypted(
        &self,
        receiving_sk: &SecretKey,
        delegating_pk: &PublicKey,
        cfrags: &[CapsuleFrag],
    ) -> (r: Result<SecretBox, OpenReencryptedError>)
        ensures
            seed_outcome(r) == spec_open_reencrypted(
                self@,
                receiving_sk@,
                delegating_pk@,
                frag_views(cfrags@),
            ),
    {
        let ghost frags = frag_views(cfrags@);
        if cfrags.len() == 0 {
            return Err(OpenReencryptedError::NoCapsuleFrags);
        }
        let precursor = cfrags[0].precursor();

        let mut checked: usize = 0;
        while checked < cfrags.len()
            invariant
                checked <= cfrags.len(),
                frags == frag_views(cfrags@),
                precursor@ == frags[0].precursor,
                forall|k: int| 0 <= k < checked ==> (#[trigger] frags[k]).precursor == precursor@,
            decreases cfrags.len() - checked,
        {
            if !cfrags[checked].precursor().equals(&precursor) {
                assert(frags[checked as int].precursor != frags[0].precursor);
                return Err(OpenReencryptedError::MismatchedCapsuleFrags);
            }
            checked += 1;
        }
        assert(same_precursor(frags));

        let pub_key = receiving_sk.public_key().to_point();
        let dh_point = precursor.mul_secret(receiving_sk.to_secret_scalar());
        let ghost xs = polynomial_args(frags, pub_key@, dh_point@);

        let mut lc: Vec<NonZeroCurveScalar> = Vec::with_capacity(cfrags.len());
        let mut hashed: usize = 0;
        while hashed < cfrags.len()
            invariant
                hashed <= cfrags.len(),
                frags == frag_views(cfrags@),
                precursor@ == frags[0].precursor,
                xs == polynomial_args(frags, pub_key@, dh_point@),
                lc@.len() == hashed,
                forall|k: int| 0 <= k < hashed ==> (#[trigger] lc@[k])@ == xs[k],
            decreases cfrags.len() - hashed,
        {
            let kfrag_id = cfrags[hashed].kfrag_id();
            let coeff = hash_to_polynomial_arg(&precursor, &pub_key, &dh_point, &kfrag_id);
            lc.push(coeff);
            hashed += 1;
        }
        assert(scalar_values(lc@) =~= xs);

        let ghost weights = Seq::new(frags.len(), |k: int| lagrange_weight(xs, k));
        let ghost points_e = Seq::new(frags.len(), |k: int| frags[k].point_e1);
        let ghost points_v = Seq::new(frags.len(), |k: int| frags[k].point_v1);
        let mut e_prime = CurvePoint::identity();
        let mut v_prime = CurvePoint::identity();
        let mut summed: usize = 0;
        while summed < cfrags.len()
            invariant
                summed <= cfrags.len(),
                frags == frag_views(cfrags@),
                same_precursor(frags),
                pub_key@ == group_mul(generator_repr(), receiving_sk@),
                dh_point@ == group_mul(frags[0].precursor, receiving_sk@),
                xs == polynomial_args(frags, pub_key@, dh_point@),
                lc@.len() == cfrags.len(),
                scalar_values(lc@) == xs,
                weights == Seq::new(frags.len(), |k: int| lagrange_weight(xs, k)),
                points_e == Seq::new(frags.len(), |k: int| frags[k].point_e1),
                points_v == Seq::new(frags.len(), |k: int| frags[k].point_v1),
                e_prime@ == weighted_sum(points_e, weights, summed as nat),
                v_prime@ == weighted_sum(points_v, weights, summed as nat),
                forall|k: int| 0 <= k < summed ==> !#[trigger] collides(xs, k),
            decreases cfrags.len() - summed,
        {
            let lambda_i = match lambda_coeff(lc.as_slice(), summed) {
                Some(weight) => weight,
                None => {
                    assert(collides(xs, summed as int));
                    assert(has_repeats(xs));
                    return Err(OpenReencryptedError::RepeatingCapsuleFrags);
                },
            };
            e_prime = e_prime.add(&cfrags[summed].point_e1().mul(&lambda_i));
            v_prime = v_prime.add(&cfrags[summed].point_v1().mul(&lambda_i));
            summed += 1;
        }
        assert(!has_repeats(xs));

        let d = hash_to_shared_secret(&precursor, &pub_key, &dh_point);
        let s = self.signature;
        let h = hash_capsule_points(&self.point_e, &self.point_v);
        let orig_pub_key = delegating_pk.to_point();
        let inv_d = d.invert();

        let claimed = orig_pub_key.mul(&s.mul(&inv_d.to_scalar()));
        let combined = e_prime.mul(&h.to_scalar()).add(&v_prime);
        if !claimed.equals(&combined) {
            return Err(OpenReencryptedError::ValidationFailed);
        }
        let shared_key = e_prime.add(&v_prime).mul(&d.to_scalar());
        Ok(SecretBox::new(slice_to_vec(shared_key.to_array().as_slice())))
    }
}

/// The weight of the fragment at `i` among those with the polynomial
/// arguments `xs`; none if another fragment has the argument of this one.
pub fn lambda_coeff(xs: &[NonZeroCurveScalar], i: usize) -> (r: Option<CurveScalar>)
    requires
        i < xs.len(),
    ensures
        r is None <==> collides(scalar_values(xs@), i as int),
        r matches Some(weight) ==> weight@ == lagrange_weight(scalar_values(xs@), i as int),
{
    let ghost values = scalar_values(xs@);
    let mut res = CurveScalar::one();
    let mut j: usize = 0;
    while j < xs.len()
        invariant
            j <= xs.len(),
            i < xs.len(),
            values == scalar_values(xs@),
            res@ == lagrange_product(values, i as int, j as nat),
            forall|k: int| 0 <= k < j && k != i ==> #[trigger] values[k] != values[i as int],
        decreases xs.len() - j,
    {
        if j != i {
            let x_j = xs[j].to_scalar();
            let x_i = xs[i].to_scalar();
            let diff = x_j.sub(&x_i);
            proof {
                use_type_invariant(&x_j);
                use_type_invariant(&x_i);
                lemma_scalar_sub_zero(x_j@, x_i@);
            }
            let inv_diff = match diff.invert() {
                Some(inverse) => inverse,
                None => {
                    assert(values[j as int] == values[i as int]);
                    return None;
                },
            };
            let ghost before = res@;
            res = res.mul(&x_j).mul(&inv_diff);
            proof {
                let n = group_order() as int;
                lemma_mul_mod_noop_left((before * x_j@) as int, inv_diff@ as int, n);
                lemma_mul_mod_noop_right(before as int, (x_j@ * inv_diff@) as int, n);
                assert((before * x_j@) * inv_diff@ == before * (x_j@ * inv_diff@))
                    by (nonlinear_arith);
            }
        }
        j += 1;
    }
    Some(res)
}

/// Encapsulation gives a capsule that passes its self-check: both of its
/// points are multiples of the generator, and so are both sides of the check.
pub proof fn lemma_encapsulation_verifies(r: nat, u: nat, delegating_pk: Seq<u8>)
    requires
        r < group_order(),
        u < group_order(),
        is_point_repr(generator_repr()),
        self_check_is_linear(group_mul(generator_repr(), r), group_mul(generator_repr(), u)),
    ensures
        ({
            let capsule = spec_encapsulate(r, u, delegating_pk).0;
            capsule_verifies(capsule.point_e, capsule.point_v, capsule.signature)
        }),
{
    let n = group_order();
    let g = generator_repr();
    let point_e = group_mul(g, r);
    let point_v = group_mul(g, u);
    let h = spec_hash_capsule_points(point_e, point_v);
    let scaled = group_mul(point_e, h);
    let rh = (r * h) % n;
    assert(scaled == group_mul(g, rh));
    assert(group_add(point_v, scaled) == group_mul(g, (u + rh) % n));
}

/// Opening a capsule with the delegator's secret key gives the seed that
/// encapsulation under the matching public key gave.
///
/// The two hypotheses on the backend's results are ensured by
/// [`Capsule::from_ephemeral_secrets`] and [`Capsule::open_original`].
pub proof fn lemma_open_original_recovers_seed(r: nat, u: nat, delegating_sk: nat)
    requires
        r < group_order(),
        u < group_order(),
        delegating_sk < group_order(),
        encapsulation_is_linear(r, u, group_mul(generator_repr(), delegating_sk)),
        open_original_is_linear(
            spec_encapsulate(r, u, group_mul(generator_repr(), delegating_sk)).0,
            delegating_sk,
        ),
    ensures
        ({
            let delegating_pk = group_mul(generator_repr(), delegating_sk);
            let (capsule, seed) = spec_encapsulate(r, u, delegating_pk);
            spec_open_original(capsule, delegating_sk) == seed
        }),
{
    let n = group_order();
    let g = generator_repr();
    let delegating_pk = group_mul(g, delegating_sk);
    let point_e = group_mul(g, r);
    let point_v = group_mul(g, u);
    let sum = (r + u) % n;
    let seed = group_mul(delegating_pk, sum);
    assert(seed == group_mul(g, (delegating_sk * sum) % n));
    let added = group_add(point_e, point_v);
    assert(added == group_mul(g, sum));
    assert(group_mul(added, delegating_sk) == group_mul(g, (sum * delegating_sk) % n));
    assert(delegating_sk * sum == sum * delegating_sk) by (nonlinear_arith);
}

/// The outcome of an opening, with the box replaced by its contents.
pub open spec fn seed_outcome(r: Result<SecretBox, OpenReencryptedError>) -> Result<
    Seq<u8>,
    OpenReencryptedError,
> {
    match r {
        Ok(seed) => Ok(seed@),
        Err(e) => Err(e),
    }
}

/// The outcome of a decoding, with the capsule replaced by its contents.
pub open spec fn capsule_outcome(r: Result<Capsule, ConstructionError>) -> Result<
    CapsuleView,
    ConstructionError,
> {
    match r {
        Ok(capsule) => Ok(capsule@),
        Err(e) => Err(e),
    }
}

} // verus!
