//! Capsule fragments, the proxies' share of a re-encryption.

use crate::curve::CurvePoint;
use vstd::prelude::*;

verus! {

/// Width of a key fragment's identifier.
pub const KFRAG_ID_SIZE: usize = 32;

/// What a fragment holds, as encodings.
pub struct CapsuleFragView {
    pub point_e1: Seq<u8>,
    pub point_v1: Seq<u8>,
    pub kfrag_id: Seq<u8>,
    pub precursor: Seq<u8>,
}

/// A capsule re-encrypted under one key fragment. The precursor is common to
/// the fragments of one issuance run.
#[derive(Clone, Copy, Debug, PartialEq, Eq)]
pub struct CapsuleFrag {
    point_e1: CurvePoint,
    point_v1: CurvePoint,
    kfrag_id: [u8; 32],
    precursor: CurvePoint,
}

impl View for CapsuleFrag {
    type V = CapsuleFragView;

    closed spec fn view(&self) -> CapsuleFragView {
        CapsuleFragView {
            point_e1: self.point_e1@,
            point_v1: self.point_v1@,
            kfrag_id: self.kfrag_id@,
            precursor: self.precursor@,
        }
    }
}

impl CapsuleFrag {
    /// Puts a fragment together from its parts.
    pub fn new(
        point_e1: CurvePoint,
        point_v1: CurvePoint,
        kfrag_id: [u8; 32],
        precursor: CurvePoint,
    ) -> (frag: CapsuleFrag)
        ensures
            frag@ == (CapsuleFragView {
                point_e1: point_e1@,
                point_v1: point_v1@,
                kfrag_id: kfrag_id@,
                precursor: precursor@,
            }),
    {
        CapsuleFrag { point_e1, point_v1, kfrag_id, precursor }
    }

    /// The capsule's first point, re-encrypted.
    pub fn point_e1(&self) -> (point: CurvePoint)
        ensures
            point@ == self@.point_e1,
    {
        self.point_e1
    }

    /// The capsule's second point, re-encrypted.
    pub fn point_v1(&self) -> (point: CurvePoint)
        ensures
            point@ == self@.point_v1,
    {
        self.point_v1
    }

    /// The identifier of the key fragment that made this fragment.
    pub fn kfrag_id(&self) -> (id: [u8; 32])
        ensures
            id@ == self@.kfrag_id,
    {
        self.kfrag_id
    }

    /// The point that marks the issuance run.
    pub fn precursor(&self) -> (point: CurvePoint)
        ensures
            point@ == self@.precursor,
    {
        self.precursor
    }
}

} // verus!
