use vstd::prelude::*;
use vstd::arithmetic::div_mod::{lemma_add_mod_noop, lemma_mod_twice, lemma_mul_mod_noop};
use crate::accumulate::{accumulated_polynomial, add_scaled};
use crate::epoch::EpochChallenge;
use crate::field::{field_modulus, values};
use crate::kzg::{domain_elements_of, fft_evaluations, poly_eval};
use crate::puzzle::{claimed_value, product_evaluations_of, prover_polynomial_of};
use crate::solution::PartialSolutionView;
use crate::verify::accumulated_evaluation;

verus! {

/// Whether two numbers stand for the same field element.
pub open spec fn congruent(a: int, b: int) -> bool {
    a % (field_modulus() as int) == b % (field_modulus() as int)
}

/// The value of a polynomial at a point, as an integer that has not been reduced.
pub open spec fn poly_sum(coeffs: Seq<nat>, z: nat) -> int
    decreases coeffs.len(),
{
    if coeffs.len() == 0 {
        0
    } else {
        coeffs[0] + z * poly_sum(coeffs.drop_first(), z)
    }
}

proof fn lemma_congruent_add(a: int, b: int, c: int, d: int)
    requires
        congruent(a, b),
        congruent(c, d),
    ensures
        congruent(a + c, b + d),
{
    lemma_add_mod_noop(a, c, field_modulus() as int);
    lemma_add_mod_noop(b, d, field_modulus() as int);
}

proof fn lemma_congruent_mul(a: int, b: int, c: int, d: int)
    requires
        congruent(a, b),
        congruent(c, d),
    ensures
        congruent(a * c, b * d),
{
    lemma_mul_mod_noop(a, c, field_modulus() as int);
    lemma_mul_mod_noop(b, d, field_modulus() as int);
}

proof fn lemma_congruent_reduce(a: int)
    ensures
        congruent(a % (field_modulus() as int), a),
{
    lemma_mod_twice(a, field_modulus() as int);
}

/// The value of a polynomial in the field is its integer value, reduced.
pub proof fn lemma_poly_eval_reduces(coeffs: Seq<nat>, z: nat)
    ensures
        poly_eval(coeffs, z) as int == poly_sum(coeffs, z) % (field_modulus() as int),
    decreases coeffs.len(),
{
    let p = field_modulus() as int;
    if coeffs.len() > 0 {
        let rest = coeffs.drop_first();
        lemma_poly_eval_reduces(rest, z);
        lemma_congruent_reduce(poly_sum(rest, z));
        let (head, point, reduced) = (coeffs[0] as int, z as int, poly_eval(rest, z) as int);
        lemma_congruent_mul(point, point, reduced, poly_sum(rest, z));
        lemma_congruent_add(head, head, point * reduced, point * poly_sum(rest, z));
        assert(poly_eval(coeffs, z) as int == (head + point * reduced) % p);
    }
}

proof fn lemma_add_scaled_sum(acc: Seq<nat>, f: Seq<nat>, r: nat, z: nat)
    requires
        f.len() == acc.len(),
    ensures
        congruent(poly_sum(add_scaled(acc, f, r), z), poly_sum(acc, z) + poly_sum(f, z) * r),
    decreases acc.len(),
{
    let p = field_modulus() as int;
    let s = add_scaled(acc, f, r);
    if acc.len() > 0 {
        let (acc1, f1, s1) = (acc.drop_first(), f.drop_first(), s.drop_first());
        assert(s1 =~= add_scaled(acc1, f1, r));
        lemma_add_scaled_sum(acc1, f1, r, z);
        let (a0, f0, s0, scale, point) = (acc[0] as int, f[0] as int, s[0] as int, r as int, z as int);
        let scaled = (f0 * scale) % p;
        assert(s0 == (a0 + scaled) % p);
        lemma_congruent_reduce(a0 + scaled);
        lemma_congruent_reduce(f0 * scale);
        lemma_congruent_add(a0, a0, scaled, f0 * scale);
        assert(congruent(s0, a0 + f0 * scale));
        let (sum_a, sum_f) = (poly_sum(acc1, z), poly_sum(f1, z));
        let tail = sum_a + sum_f * scale;
        lemma_congruent_mul(point, point, poly_sum(s1, z), tail);
        lemma_congruent_add(s0, a0 + f0 * scale, point * poly_sum(s1, z), point * tail);
        assert(a0 + f0 * scale + point * tail == (a0 + point * sum_a) + (f0 + point * sum_f) * scale)
            by (nonlinear_arith)
            requires
                tail == sum_a + sum_f * scale,
        ;
        assert(poly_sum(s, z) == s0 + point * poly_sum(s1, z));
        assert(poly_sum(acc, z) == a0 + point * sum_a);
        assert(poly_sum(f, z) == f0 + point * sum_f);
    }
}

/// Evaluation is linear: the value of `acc + r * f` at a point is the value of
/// `acc` plus `r` times the value of `f`.
pub proof fn lemma_add_scaled_eval(acc: Seq<nat>, f: Seq<nat>, r: nat, z: nat)
    requires
        f.len() == acc.len(),
    ensures
        poly_eval(add_scaled(acc, f, r), z) == (poly_eval(acc, z) + (poly_eval(f, z) * r) % field_modulus())
            % field_modulus(),
{
    let p = field_modulus() as int;
    lemma_poly_eval_reduces(add_scaled(acc, f, r), z);
    lemma_poly_eval_reduces(acc, z);
    lemma_poly_eval_reduces(f, z);
    lemma_add_scaled_sum(acc, f, r, z);
    lemma_congruent_reduce(poly_sum(acc, z));
    lemma_congruent_reduce(poly_sum(f, z));
    let (value_acc, value_f, scale) = (poly_eval(acc, z) as int, poly_eval(f, z) as int, r as int);
    lemma_congruent_mul(value_f, poly_sum(f, z), scale, scale);
    lemma_congruent_reduce(value_f * scale);
    lemma_congruent_add(value_acc, poly_sum(acc, z), (value_f * scale) % p, poly_sum(f, z) * scale);
    assert((poly_eval(acc, z) + (poly_eval(f, z) * r) % field_modulus()) % field_modulus() == (value_acc + (value_f
        * scale) % p) % p);
}

/// The zero polynomial is zero at every point.
pub proof fn lemma_zero_polynomial_eval(count: nat, z: nat)
    ensures
        poly_eval(Seq::new(count, |j: int| 0nat), z) == 0,
    decreases count,
{
    if count > 0 {
        let zeros = Seq::new(count, |j: int| 0nat);
        assert(zeros.drop_first() =~= Seq::new((count - 1) as nat, |j: int| 0nat));
        lemma_zero_polynomial_eval((count - 1) as nat, z);
        assert(z * 0 == 0) by (nonlinear_arith);
    }
}

/// The accumulated polynomial has as many coefficients as a prover's polynomial.
pub proof fn lemma_accumulated_polynomial_len(
    epoch: &EpochChallenge,
    parts: Seq<PartialSolutionView>,
    challenges: Seq<nat>,
    k: nat,
)
    ensures
        accumulated_polynomial(epoch, parts, challenges, k).len() == epoch.degree + 1,
    decreases k,
{
    if 0 < k <= parts.len() {
        lemma_accumulated_polynomial_len(epoch, parts, challenges, (k - 1) as nat);
    }
}

/// The aggregator and the verifier agree on the accumulated value: the polynomial
/// that the aggregator forms from the provers' polynomials and the challenges takes,
/// at any point, the value that the verifier adds up from the provers' own values.
pub proof fn lemma_accumulated_value(
    epoch: &EpochChallenge,
    parts: Seq<PartialSolutionView>,
    challenges: Seq<nat>,
    point: nat,
    k: nat,
)
    ensures
        poly_eval(accumulated_polynomial(epoch, parts, challenges, k), point) == accumulated_evaluation(
            epoch,
            parts,
            challenges,
            point,
            k,
        ),
    decreases k,
{
    if 0 < k <= parts.len() {
        let before = accumulated_polynomial(epoch, parts, challenges, (k - 1) as nat);
        let polynomial = prover_polynomial_of(epoch, parts[k - 1].address, parts[k - 1].nonce);
        lemma_accumulated_value(epoch, parts, challenges, point, (k - 1) as nat);
        lemma_accumulated_polynomial_len(epoch, parts, challenges, (k - 1) as nat);
        lemma_add_scaled_eval(before, polynomial, challenges[k - 1], point);
    } else {
        lemma_zero_polynomial_eval(epoch.degree as nat + 1, point);
    }
}

/// The value that the aggregator claims for its opening is the value that the
/// verifier recomputes for the pairing check.
pub proof fn lemma_accumulator_values_agree(
    epoch: &EpochChallenge,
    parts: Seq<PartialSolutionView>,
    challenges: Seq<nat>,
    point: nat,
)
    ensures
        claimed_value(
            accumulated_polynomial(epoch, parts, challenges, parts.len()),
            values(epoch.epoch_polynomial@),
            point,
        ) == (accumulated_evaluation(epoch, parts, challenges, point, parts.len()) * poly_eval(
            values(epoch.epoch_polynomial@),
            point,
        )) % field_modulus(),
{
    lemma_accumulated_value(epoch, parts, challenges, point, parts.len());
}

/// The evaluations that are committed to are the values of the product polynomial:
/// at each element of the product domain, the value of the polynomial times the
/// value of the epoch's polynomial.
pub proof fn lemma_product_evaluations_are_claimed_values(epoch: &EpochChallenge, polynomial: Seq<nat>, i: int)
    requires
        epoch.wf(),
        epoch.consistent(),
        domain_elements_of(epoch.epoch_polynomial_evaluations.len() as nat) matches Some(elements)
            && elements.len() == epoch.epoch_polynomial_evaluations.len(),
        0 <= i < epoch.epoch_polynomial_evaluations.len(),
    ensures
        product_evaluations_of(
            epoch.epoch_polynomial_evaluations.len() as nat,
            polynomial,
            values(epoch.epoch_polynomial_evaluations@),
        ) matches Some(products) && products[i] == claimed_value(
            polynomial,
            values(epoch.epoch_polynomial@),
            domain_elements_of(epoch.epoch_polynomial_evaluations.len() as nat)->0[i],
        ),
{
    let size = epoch.epoch_polynomial_evaluations.len() as nat;
    let elements = domain_elements_of(size)->0;
    assert(fft_evaluations(size, values(epoch.epoch_polynomial@))->0[i] == poly_eval(
        values(epoch.epoch_polynomial@),
        elements[i],
    ));
    assert(fft_evaluations(size, polynomial)->0[i] == poly_eval(polynomial, elements[i]));
}

} // verus!
