//! Hashes of group elements to scalars, one for each role in the scheme.
//!
//! Each hash is SHA-256 over a tag that names the role, followed by the
//! fixed-width encodings of its inputs, reduced to a scalar other than zero.

use crate::curve::{digest_to_scalar, CurvePoint, NonZeroCurveScalar};
use sha2::Digest;
use vstd::prelude::*;

verus! {

/// The SHA-256 digest of `data`.
pub uninterp spec fn sha256(data: Seq<u8>) -> Seq<u8>;

/// Calls `sha2::Sha256::digest`.
#[verifier::external_body]
fn backend_sha256(data: &[u8]) -> (digest: [u8; 32])
    ensures
        digest@ == sha256(data@),
{
    sha2::Sha256::digest(data).into()
}

/// The tag of the capsule's self-check: `CAPSULE_POINTS`.
pub open spec fn capsule_points_tag() -> Seq<u8> {
    seq![0x43u8, 0x41, 0x50, 0x53, 0x55, 0x4C, 0x45, 0x5F, 0x50, 0x4F, 0x49, 0x4E, 0x54, 0x53]
}

/// The tag of a fragment's polynomial argument: `POLYNOMIAL_ARG`.
pub open spec fn polynomial_arg_tag() -> Seq<u8> {
    seq![0x50u8, 0x4F, 0x4C, 0x59, 0x4E, 0x4F, 0x4D, 0x49, 0x41, 0x4C, 0x5F, 0x41, 0x52, 0x47]
}

/// The tag of the blinding factor: `SHARED_SECRET`.
pub open spec fn shared_secret_tag() -> Seq<u8> {
    seq![0x53u8, 0x48, 0x41, 0x52, 0x45, 0x44, 0x5F, 0x53, 0x45, 0x43, 0x52, 0x45, 0x54]
}

/// What is hashed for the capsule's self-check.
pub open spec fn capsule_points_message(capsule_e: Seq<u8>, capsule_v: Seq<u8>) -> Seq<u8> {
    capsule_points_tag() + capsule_e + capsule_v
}

/// What is hashed for a fragment's polynomial argument.
pub open spec fn polynomial_arg_message(
    precursor: Seq<u8>,
    pubkey: Seq<u8>,
    dh_point: Seq<u8>,
    kfrag_id: Seq<u8>,
) -> Seq<u8> {
    polynomial_arg_tag() + precursor + pubkey + dh_point + kfrag_id
}

/// What is hashed for the blinding factor.
pub open spec fn shared_secret_message(
    precursor: Seq<u8>,
    pubkey: Seq<u8>,
    dh_point: Seq<u8>,
) -> Seq<u8> {
    shared_secret_tag() + precursor + pubkey + dh_point
}

/// The scalar of the capsule's self-check.
pub open spec fn spec_hash_capsule_points(capsule_e: Seq<u8>, capsule_v: Seq<u8>) -> nat {
    digest_to_scalar(sha256(capsule_points_message(capsule_e, capsule_v)))
}

/// The polynomial argument of the fragment with the identifier `kfrag_id`.
pub open spec fn spec_hash_to_polynomial_arg(
    precursor: Seq<u8>,
    pubkey: Seq<u8>,
    dh_point: Seq<u8>,
    kfrag_id: Seq<u8>,
) -> nat {
    digest_to_scalar(sha256(polynomial_arg_message(precursor, pubkey, dh_point, kfrag_id)))
}

/// The blinding factor shared by delegator and receiver.
pub open spec fn spec_hash_to_shared_secret(
    precursor: Seq<u8>,
    pubkey: Seq<u8>,
    dh_point: Seq<u8>,
) -> nat {
    digest_to_scalar(sha256(shared_secret_message(precursor, pubkey, dh_point)))
}

/// The three roles never hash the same message: whatever points and
/// identifier go in, the messages differ.
pub proof fn lemma_domains_are_separate(
    a: Seq<u8>,
    b: Seq<u8>,
    c: Seq<u8>,
    d: Seq<u8>,
    e: Seq<u8>,
    f: Seq<u8>,
    g: Seq<u8>,
    h: Seq<u8>,
    id: Seq<u8>,
)
    ensures
        capsule_points_message(a, b) != polynomial_arg_message(c, d, e, id),
        capsule_points_message(a, b) != shared_secret_message(f, g, h),
        polynomial_arg_message(c, d, e, id) != shared_secret_message(f, g, h),
{
    let capsule = capsule_points_message(a, b);
    let polynomial = polynomial_arg_message(c, d, e, id);
    let shared = shared_secret_message(f, g, h);
    assert(capsule[0] == 0x43 && polynomial[0] == 0x50 && shared[0] == 0x53);
    assert(polynomial[1] == 0x4F && shared[1] == 0x48);
}

/// Appends `bytes` to `buffer`.
pub fn append_bytes(buffer: &mut Vec<u8>, bytes: &[u8])
    ensures
        final(buffer)@ == old(buffer)@ + bytes@,
{
    let mut i: usize = 0;
    while i < bytes.len()
        invariant
            i <= bytes.len(),
            buffer@ == old(buffer)@ + bytes@.subrange(0, i as int),
        decreases bytes.len() - i,
    {
        buffer.push(bytes[i]);
        assert(bytes@.subrange(0, i + 1) =~= bytes@.subrange(0, i as int).push(bytes@[i as int]));
        i += 1;
    }
    assert(bytes@.subrange(0, i as int) =~= bytes@);
}

/// Hashes the two points of a capsule to the scalar of its self-check.
pub fn hash_capsule_points(capsule_e: &CurvePoint, capsule_v: &CurvePoint) -> (h:
    NonZeroCurveScalar)
    ensures
        h@ == spec_hash_capsule_points(capsule_e@, capsule_v@),
{
    let tag: [u8; 14] = [
        0x43, 0x41, 0x50, 0x53, 0x55, 0x4C, 0x45, 0x5F, 0x50, 0x4F, 0x49, 0x4E, 0x54, 0x53,
    ];
    assert(tag@ =~= capsule_points_tag());
    let mut message: Vec<u8> = Vec::new();
    append_bytes(&mut message, tag.as_slice());
    append_bytes(&mut message, capsule_e.to_array().as_slice());
    append_bytes(&mut message, capsule_v.to_array().as_slice());
    assert(message@ =~= capsule_points_message(capsule_e@, capsule_v@));
    let digest = backend_sha256(message.as_slice());
    NonZeroCurveScalar::from_digest(&digest)
}

/// Hashes an issuance run's precursor, the receiver's key, their shared
/// point and a fragment's identifier to the fragment's polynomial argument.
pub fn hash_to_polynomial_arg(
    precursor: &CurvePoint,
    pubkey: &CurvePoint,
    dh_point: &CurvePoint,
    kfrag_id: &[u8; 32],
) -> (x: NonZeroCurveScalar)
    ensures
        x@ == spec_hash_to_polynomial_arg(precursor@, pubkey@, dh_point@, kfrag_id@),
{
    let tag: [u8; 14] = [
        0x50, 0x4F, 0x4C, 0x59, 0x4E, 0x4F, 0x4D, 0x49, 0x41, 0x4C, 0x5F, 0x41, 0x52, 0x47,
    ];
    assert(tag@ =~= polynomial_arg_tag());
    let mut message: Vec<u8> = Vec::new();
    append_bytes(&mut message, tag.as_slice());
    append_bytes(&mut message, precursor.to_array().as_slice());
    append_bytes(&mut message, pubkey.to_array().as_slice());
    append_bytes(&mut message, dh_point.to_array().as_slice());
    append_bytes(&mut message, kfrag_id.as_slice());
    assert(message@ =~= polynomial_arg_message(precursor@, pubkey@, dh_point@, kfrag_id@));
    let digest = backend_sha256(message.as_slice());
    NonZeroCurveScalar::from_digest(&digest)
}

/// Hashes an issuance run's precursor, the receiver's key and their shared
/// point to the blinding factor.
pub fn hash_to_shared_secret(
    precursor: &CurvePoint,
    pubkey: &CurvePoint,
    dh_point: &CurvePoint,
) -> (d: NonZeroCurveScalar)
    ensures
        d@ == spec_hash_to_shared_secret(precursor@, pubkey@, dh_point@),
{
    let tag: [u8; 13] = [
        0x53, 0x48, 0x41, 0x52, 0x45, 0x44, 0x5F, 0x53, 0x45, 0x43, 0x52, 0x45, 0x54,
    ];
    assert(tag@ =~= shared_secret_tag());
    let mut message: Vec<u8> = Vec::new();
    append_bytes(&mut message, tag.as_slice());
    append_bytes(&mut message, precursor.to_array().as_slice());
    append_bytes(&mut message, pubkey.to_array().as_slice());
    append_bytes(&mut message, dh_point.to_array().as_slice());
    assert(message@ =~= shared_secret_message(precursor@, pubkey@, dh_point@));
    let digest = backend_sha256(message.as_slice());
    NonZeroCurveScalar::from_digest(&digest)
}

} // verus!
