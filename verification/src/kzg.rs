use vstd::prelude::*;
use std::borrow::Cow;
use std::sync::atomic::AtomicBool;
use snarkvm_algorithms::fft::{DensePolynomial, EvaluationDomain};
use snarkvm_algorithms::msm::VariableBase;
use snarkvm_algorithms::polycommit::kzg10::{KZGCommitment, KZGProof, LagrangeBasis, VerifierKey, KZG10};
use snarkvm_curves::bls12_377::{Bls12_377, Fr, G1Affine, G1Projective, G2Affine};
use snarkvm_curves::traits::{AffineCurve, PairingCurve, ProjectiveCurve};
use snarkvm_fields::{PrimeField, Zero};
use snarkvm_utilities::{CanonicalDeserialize, FromBytes, ToBytes};
use crate::bytes::byte_seqs;
use crate::field::{field_modulus, values, Scalar};

verus! {

/// A point of the first group, as the commitment scheme encodes it.
type Point = KZGCommitment<Bls12_377>;

/// The commitment scheme over the pairing curve.
type Scheme = KZG10<Bls12_377>;

/// Whether `n` is a power of two.
pub open spec fn is_pow2(n: nat) -> bool
    decreases n,
{
    n == 1 || (n > 1 && n % 2 == 0 && is_pow2(n / 2))
}

/// The value of the polynomial with the given coefficients, constant term first,
/// at the point `z`, in the scalar field.
pub open spec fn poly_eval(coeffs: Seq<nat>, z: nat) -> nat
    decreases coeffs.len(),
{
    if coeffs.len() == 0 {
        0
    } else {
        (coeffs[0] + z * poly_eval(coeffs.drop_first(), z)) % field_modulus()
    }
}

/// Whether every scalar of the sequence is in its canonical encoding.
pub open spec fn all_canonical(scalars: Seq<Scalar>) -> bool {
    forall|i: int| 0 <= i < scalars.len() ==> (#[trigger] scalars[i]).canonical()
}

/// The byte string that an optional byte vector holds.
pub open spec fn opt_bytes(v: Option<Vec<u8>>) -> Option<Seq<u8>> {
    match v {
        Some(b) => Some(b@),
        None => None,
    }
}

/// The values that an optional vector of scalars holds.
pub open spec fn opt_values(v: Option<Vec<Scalar>>) -> Option<Seq<nat>> {
    match v {
        Some(s) => Some(values(s@)),
        None => None,
    }
}

/// The byte strings that an optional vector of byte vectors holds.
pub open spec fn opt_byte_seqs(v: Option<Vec<Vec<u8>>>) -> Option<Seq<Seq<u8>>> {
    match v {
        Some(s) => Some(byte_seqs(s@)),
        None => None,
    }
}

/// The elements of the multiplicative subgroup of the given size, as powers of its
/// generator in rising order; `None` where the field has no subgroup of that size.
pub uninterp spec fn domain_elements_of(size: nat) -> Option<Seq<nat>>;

/// The values of the polynomial with the given coefficients at the given points.
pub open spec fn evaluations_on(points: Seq<nat>, coeffs: Seq<nat>) -> Seq<nat> {
    Seq::new(points.len(), |i: int| poly_eval(coeffs, points[i]))
}

/// The values that the polynomial with the given coefficients takes on the
/// multiplicative subgroup of the given size, in the order of the subgroup's
/// elements; `None` where the field has no subgroup of that size.
pub open spec fn fft_evaluations(size: nat, coeffs: Seq<nat>) -> Option<Seq<nat>> {
    match domain_elements_of(size) {
        Some(elements) => Some(evaluations_on(elements, coeffs)),
        None => None,
    }
}

/// The Lagrange basis, at the secret point, of the subgroup whose size is the number
/// of the given powers of the secret point; `None` where a power is no valid point
/// or the field has no such subgroup.
pub uninterp spec fn lagrange_basis_of(powers: Seq<Seq<u8>>) -> Option<Seq<Seq<u8>>>;

/// The non-hiding commitment, in its compressed encoding, to the polynomial with the
/// given evaluations over the given Lagrange basis; `None` where the scheme refuses.
pub uninterp spec fn lagrange_commitment(basis: Seq<Seq<u8>>, evaluations: Seq<nat>) -> Option<Seq<u8>>;

/// The witness commitment of the non-hiding opening, at `point` with claimed value
/// `value`, of the polynomial with the given evaluations; `None` where the scheme
/// refuses, as it does for a point of the domain.
pub uninterp spec fn lagrange_opening(
    basis: Seq<Seq<u8>>,
    elements: Seq<nat>,
    evaluations: Seq<nat>,
    point: nat,
    value: nat,
) -> Option<Seq<u8>>;

/// The sum of the given points, each multiplied by its scalar, in its compressed
/// encoding; `None` where a point is not valid.
pub uninterp spec fn msm_commitment(bases: Seq<Seq<u8>>, scalars: Seq<nat>) -> Option<Seq<u8>>;

/// The verdict of the pairing check on a non-hiding opening with witness `w`, under
/// the key made of `g`, `h` and `beta_h`; `None` where a point is not valid.
pub uninterp spec fn pairing_check(
    g: Seq<u8>,
    h: Seq<u8>,
    beta_h: Seq<u8>,
    commitment: Seq<u8>,
    point: nat,
    value: nat,
    w: Seq<u8>,
) -> Option<bool>;

/// Calls `DensePolynomial::evaluate` of snarkvm-algorithms: the sum of the
/// coefficients, each times the matching power of the point, in the field.
#[verifier::external_body]
pub(crate) fn poly_evaluate(coeffs: &Vec<Scalar>, point: Scalar) -> (r: Scalar)
    ensures
        r.value() == poly_eval(values(coeffs@), point.value()),
        r.canonical(),
{
    let coeffs = coeffs.iter().map(|c| Fr::from_bytes_le_mod_order(&c.bytes)).collect();
    let value = DensePolynomial::from_coefficients_vec(coeffs).evaluate(Fr::from_bytes_le_mod_order(&point.bytes));
    Scalar { bytes: value.to_bytes_le().unwrap().try_into().unwrap() }
}

/// Calls `EvaluationDomain::new`, `precompute_fft` and `in_order_fft_with_pc` of
/// snarkvm-algorithms: the coefficients are padded with zeros to the domain's size
/// and transformed in order, which gives the value of the polynomial at each element
/// of the domain, in the order of the elements. It fails only where the domain does
/// not exist.
#[verifier::external_body]
pub(crate) fn domain_fft(size: usize, coeffs: &Vec<Scalar>) -> (r: Option<Vec<Scalar>>)
    requires
        is_pow2(size as nat),
        coeffs.len() <= size,
    ensures
        opt_values(r) == fft_evaluations(size as nat, values(coeffs@)),
        r matches Some(e) ==> e.len() == size && all_canonical(e@) && domain_elements_of(size as nat)->0.len()
            == size,
{
    let domain = EvaluationDomain::<Fr>::new(size)?;
    let coeffs: Vec<Fr> = coeffs.iter().map(|c| Fr::from_bytes_le_mod_order(&c.bytes)).collect();
    let evaluations = domain.in_order_fft_with_pc(&coeffs, &domain.precompute_fft());
    Some(evaluations.iter().map(|e| Scalar { bytes: e.to_bytes_le().unwrap().try_into().unwrap() }).collect())
}

/// Calls `EvaluationDomain::new` and `elements` of snarkvm-algorithms: the powers of
/// the domain's generator, from the zeroth on, one for each element of the domain.
#[verifier::external_body]
pub(crate) fn domain_elements(size: usize) -> (r: Option<Vec<Scalar>>)
    requires
        is_pow2(size as nat),
    ensures
        opt_values(r) == domain_elements_of(size as nat),
        r matches Some(e) ==> e.len() == size && all_canonical(e@),
{
    let domain = EvaluationDomain::<Fr>::new(size)?;
    Some(domain.elements().map(|e| Scalar { bytes: e.to_bytes_le().unwrap().try_into().unwrap() }).collect())
}

/// Calls `EvaluationDomain::ifft` of snarkvm-algorithms on the given powers and
/// `ProjectiveCurve::batch_normalization_into_affine` of snarkvm-curves, as
/// `UniversalParams::lagrange_basis` does. The basis has one point for each power.
#[verifier::external_body]
pub(crate) fn lagrange_basis(powers: &Vec<Vec<u8>>) -> (r: Option<Vec<Vec<u8>>>)
    requires
        is_pow2(powers.len() as nat),
    ensures
        opt_byte_seqs(r) == lagrange_basis_of(byte_seqs(powers@)),
        r matches Some(b) ==> b.len() == powers.len(),
{
    let points: Vec<G1Projective> = powers
        .iter()
        .map(|b| Point::from_bytes_le(b).map(|c| c.0.to_projective()))
        .collect::<Result<_, _>>()
        .ok()?;
    let basis = EvaluationDomain::<Fr>::new(points.len())?.ifft(&points);
    let basis = G1Projective::batch_normalization_into_affine(basis);
    basis.iter().map(|p| KZGCommitment::<Bls12_377>(*p).to_bytes_le().ok()).collect()
}

/// Calls `KZG10::commit_lagrange` of snarkvm-algorithms without hiding. The
/// commitment is a function of the basis and of the evaluations alone.
#[verifier::external_body]
pub(crate) fn commit_lagrange(basis: &Vec<Vec<u8>>, evaluations: &Vec<Scalar>) -> (r: Option<Vec<u8>>)
    requires
        is_pow2(basis.len() as nat),
        evaluations.len() == basis.len(),
    ensures
        opt_bytes(r) == lagrange_commitment(byte_seqs(basis@), values(evaluations@)),
{
    let points = basis.iter().map(|b| Point::from_bytes_le(b).map(|c| c.0)).collect::<Result<Vec<_>, _>>().ok()?;
    let evaluations: Vec<Fr> = evaluations.iter().map(|e| Fr::from_bytes_le_mod_order(&e.bytes)).collect();
    let basis = LagrangeBasis {
        domain: EvaluationDomain::new(points.len())?,
        lagrange_basis_at_beta_g: Cow::Owned(points),
        powers_of_beta_times_gamma_g: Cow::Owned(Vec::new()),
    };
    let (commitment, _) = Scheme::commit_lagrange(&basis, &evaluations, None, &AtomicBool::new(false), None).ok()?;
    commitment.to_bytes_le().ok()
}

/// Calls `KZG10::open_lagrange` of snarkvm-algorithms. The proof it returns is never
/// hiding; its witness commitment is a function of the arguments alone.
#[verifier::external_body]
pub(crate) fn open_lagrange(
    basis: &Vec<Vec<u8>>,
    elements: &Vec<Scalar>,
    evaluations: &Vec<Scalar>,
    point: Scalar,
    value: Scalar,
) -> (r: Option<Vec<u8>>)
    requires
        is_pow2(basis.len() as nat),
        evaluations.len() == basis.len(),
        elements.len() == basis.len(),
    ensures
        opt_bytes(r) == lagrange_opening(
            byte_seqs(basis@),
            values(elements@),
            values(evaluations@),
            point.value(),
            value.value(),
        ),
{
    let frs = |v: &[Scalar]| v.iter().map(|s| Fr::from_bytes_le_mod_order(&s.bytes)).collect::<Vec<_>>();
    let points = basis.iter().map(|b| Point::from_bytes_le(b).map(|c| c.0)).collect::<Result<Vec<_>, _>>().ok()?;
    let basis = LagrangeBasis {
        domain: EvaluationDomain::new(points.len())?,
        lagrange_basis_at_beta_g: Cow::Owned(points),
        powers_of_beta_times_gamma_g: Default::default(),
    };
    let at = frs(&[point, value]);
    let proof = Scheme::open_lagrange(&basis, &frs(elements), &frs(evaluations), at[0], at[1]).ok()?;
    Point { 0: proof.w }.to_bytes_le().ok()
}

/// Calls `VariableBase::msm` of snarkvm-algorithms: the sum of the points, each
/// multiplied by its scalar.
#[verifier::external_body]
pub(crate) fn msm(bases: &Vec<Vec<u8>>, scalars: &Vec<Scalar>) -> (r: Option<Vec<u8>>)
    requires
        bases.len() == scalars.len(),
    ensures
        opt_bytes(r) == msm_commitment(byte_seqs(bases@), values(scalars@)),
{
    let points = bases.iter().map(|b| Point::from_bytes_le(b).map(|c| c.0)).collect::<Result<Vec<_>, _>>().ok()?;
    let scalars: Vec<_> = scalars.iter().map(|s| Fr::from_bytes_le_mod_order(&s.bytes).to_bigint()).collect();
    KZGCommitment::<Bls12_377>(VariableBase::msm(&points, &scalars).to_affine()).to_bytes_le().ok()
}

/// Calls `KZG10::check` of snarkvm-algorithms on a non-hiding proof: whether the
/// pairing equation holds of the commitment, the point, the value and the witness.
/// Every point is decoded with the checks that it lies on the curve and in the right
/// subgroup; the verdict is a function of the arguments alone.
#[verifier::external_body]
pub(crate) fn check_opening(
    g: &Vec<u8>,
    h: &Vec<u8>,
    beta_h: &Vec<u8>,
    commitment: &Vec<u8>,
    point: Scalar,
    value: Scalar,
    w: &Vec<u8>,
) -> (r: Option<bool>)
    ensures
        r == pairing_check(g@, h@, beta_h@, commitment@, point.value(), value.value(), w@),
{
    let fr = |s: Scalar| Fr::from_bytes_le_mod_order(&s.bytes);
    let (h, beta_h) = (G2Affine::deserialize_compressed(&h[..]).ok()?, G2Affine::deserialize_compressed(&beta_h[..]).ok()?);
    let (prepared_h, prepared_beta_h) = (h.prepare(), beta_h.prepare());
    let g = Point::from_bytes_le(g).ok()?.0;
    let vk = VerifierKey { g, gamma_g: G1Affine::zero(), h, beta_h, prepared_h, prepared_beta_h };
    let proof = KZGProof { w: Point::from_bytes_le(w).ok()?.0, random_v: None };
    Scheme::check(&vk, &Point::from_bytes_le(commitment).ok()?, fr(point), fr(value), &proof).ok()
}

} // verus!
