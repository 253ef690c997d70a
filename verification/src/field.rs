use vstd::prelude::*;
use snarkvm_curves::bls12_377::Fr;
use snarkvm_fields::PrimeField;
use snarkvm_utilities::ToBytes;

verus! {

/// The order of the scalar field of the pairing curve.
pub open spec fn field_modulus() -> nat {
    8444461749428370424248824938781546531375899335154063827935233455917409239041nat
}

/// The number that a little-endian byte string stands for.
pub open spec fn le_value(bytes: Seq<u8>) -> nat
    decreases bytes.len(),
{
    if bytes.len() == 0 {
        0
    } else {
        bytes[0] as nat + 256 * le_value(bytes.drop_first())
    }
}

/// An element of the scalar field, held as 32 little-endian bytes.
/// The element is the number the bytes stand for, reduced by the field's order.
#[derive(Clone, Copy, Debug, PartialEq, Eq)]
pub struct Scalar {
    pub bytes: [u8; 32],
}

impl Scalar {
    /// The field element as a number below the field's order.
    pub open spec fn value(self) -> nat {
        le_value(self.bytes@) % field_modulus()
    }

    /// The bytes are the element's own encoding, with nothing left to reduce.
    pub open spec fn canonical(self) -> bool {
        le_value(self.bytes@) < field_modulus()
    }

    /// The zero of the field.
    pub fn zero() -> (r: Scalar)
        ensures
            r.value() == 0,
            r.canonical(),
            r.bytes@ == Seq::new(32, |i: int| 0u8),
    {
        let r = Scalar { bytes: [0u8; 32] };
        proof {
            assert(r.bytes@ =~= Seq::new(32, |i: int| 0u8));
            lemma_le_value_zeros(r.bytes@);
        }
        r
    }
}

/// A byte string of zeros stands for zero.
pub proof fn lemma_le_value_zeros(bytes: Seq<u8>)
    requires
        forall|i: int| 0 <= i < bytes.len() ==> bytes[i] == 0u8,
    ensures
        le_value(bytes) == 0,
    decreases bytes.len(),
{
    if bytes.len() > 0 {
        lemma_le_value_zeros(bytes.drop_first());
    }
}

/// The values of a sequence of scalars.
pub open spec fn values(scalars: Seq<Scalar>) -> Seq<nat> {
    Seq::new(scalars.len(), |i: int| scalars[i].value())
}

/// Calls `PrimeField::from_bytes_le_mod_order` of snarkvm-fields on the scalar field of
/// BLS12-377: the bytes are read as a little-endian number, which is reduced by the
/// field's order. The result is returned in its canonical encoding.
#[verifier::external_body]
pub(crate) fn scalar_from_bytes_mod_order(bytes: &Vec<u8>) -> (r: Scalar)
    ensures
        r.value() == le_value(bytes@) % field_modulus(),
        r.canonical(),
{
    let element = Fr::from_bytes_le_mod_order(bytes);
    Scalar { bytes: element.to_bytes_le().unwrap().try_into().unwrap() }
}

/// Calls the field addition of snarkvm-fields (`Add` on `Fr`): the sum of the two
/// elements in the field, in its canonical encoding.
#[verifier::external_body]
pub(crate) fn scalar_add(a: Scalar, b: Scalar) -> (r: Scalar)
    ensures
        r.value() == (a.value() + b.value()) % field_modulus(),
        r.canonical(),
{
    let sum = Fr::from_bytes_le_mod_order(&a.bytes) + Fr::from_bytes_le_mod_order(&b.bytes);
    Scalar { bytes: sum.to_bytes_le().unwrap().try_into().unwrap() }
}

/// Calls the field multiplication of snarkvm-fields (`Mul` on `Fr`): the product of the
/// two elements in the field, in its canonical encoding.
#[verifier::external_body]
pub(crate) fn scalar_mul(a: Scalar, b: Scalar) -> (r: Scalar)
    ensures
        r.value() == (a.value() * b.value()) % field_modulus(),
        r.canonical(),
{
    let product = Fr::from_bytes_le_mod_order(&a.bytes) * Fr::from_bytes_le_mod_order(&b.bytes);
    Scalar { bytes: product.to_bytes_le().unwrap().try_into().unwrap() }
}

} // verus!
