use vstd::prelude::*;
use snarkvm_curves::edwards_bls12::{EdwardsAffine, Fr};
use snarkvm_curves::traits::{AffineCurve, ProjectiveCurve};
use snarkvm_fields::PrimeField;
use snarkvm_utilities::{CanonicalDeserialize, CanonicalSerialize, ToBytes};
use crate::field::le_value;

verus! {

/// The order of the group of the twisted Edwards curve, which is the order of its
/// scalar field.
pub open spec fn group_order() -> nat {
    2111115437357092606062206234695386632838870926408408195193685246394721360383nat
}

/// A point of the group, in its compressed encoding.
#[derive(Clone, Copy, Debug, PartialEq, Eq)]
pub struct GroupElement {
    pub bytes: [u8; 32],
}

/// A scalar of the group, held as 32 little-endian bytes. The scalar is the number
/// the bytes stand for, reduced by the group's order.
#[derive(Clone, Copy, Debug, PartialEq, Eq)]
pub struct GroupScalar {
    pub bytes: [u8; 32],
}

impl GroupScalar {
    /// The scalar as a number below the group's order.
    pub open spec fn value(self) -> nat {
        le_value(self.bytes@) % group_order()
    }

    /// The bytes are the scalar's own encoding, with nothing left to reduce.
    pub open spec fn canonical(self) -> bool {
        le_value(self.bytes@) < group_order()
    }
}

/// The encoding of the sum of two points, `None` where one of them is not the
/// encoding of a point of the group.
pub uninterp spec fn group_sum(a: Seq<u8>, b: Seq<u8>) -> Option<Seq<u8>>;

/// The encoding of a point multiplied by a scalar, `None` where the point is not the
/// encoding of a point of the group.
pub uninterp spec fn group_product(point: Seq<u8>, scalar: nat) -> Option<Seq<u8>>;

/// The encoding that an optional point holds.
pub open spec fn opt_point(r: Option<GroupElement>) -> Option<Seq<u8>> {
    match r {
        Some(p) => Some(p.bytes@),
        None => None,
    }
}

/// Calls the addition of points of snarkvm-curves (`Add` on the projective form of
/// `EdwardsAffine`), on points decoded with the check that they lie in the group.
#[verifier::external_body]
pub(crate) fn group_add(a: GroupElement, b: GroupElement) -> (r: Option<GroupElement>)
    ensures
        opt_point(r) == group_sum(a.bytes@, b.bytes@),
{
    let a = EdwardsAffine::deserialize_compressed(&a.bytes[..]).ok()?;
    let b = EdwardsAffine::deserialize_compressed(&b.bytes[..]).ok()?;
    let mut bytes = Vec::new();
    (a.to_projective() + b.to_projective()).to_affine().serialize_compressed(&mut bytes).ok()?;
    Some(GroupElement { bytes: bytes.try_into().ok()? })
}

/// Calls the multiplication of a point by a scalar of snarkvm-curves (`Mul` on
/// `EdwardsAffine`), on a point decoded with the check that it lies in the group.
#[verifier::external_body]
pub(crate) fn group_mul(point: GroupElement, scalar: GroupScalar) -> (r: Option<GroupElement>)
    ensures
        opt_point(r) == group_product(point.bytes@, scalar.value()),
{
    let point = EdwardsAffine::deserialize_compressed(&point.bytes[..]).ok()?;
    let mut bytes = Vec::new();
    (point * Fr::from_bytes_le_mod_order(&scalar.bytes)).to_affine().serialize_compressed(&mut bytes).ok()?;
    Some(GroupElement { bytes: bytes.try_into().ok()? })
}

/// Calls the addition of the group's scalar field of snarkvm-curves (`Add` on `Fr`
/// of the Edwards curve): the sum of the two scalars, in its canonical encoding.
#[verifier::external_body]
pub(crate) fn group_scalar_add(a: GroupScalar, b: GroupScalar) -> (r: GroupScalar)
    ensures
        r.value() == (a.value() + b.value()) % group_order(),
        r.canonical(),
{
    let sum = Fr::from_bytes_le_mod_order(&a.bytes) + Fr::from_bytes_le_mod_order(&b.bytes);
    GroupScalar { bytes: sum.to_bytes_le().unwrap().try_into().unwrap() }
}

} // verus!
