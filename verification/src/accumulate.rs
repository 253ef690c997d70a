use vstd::prelude::*;
use crate::bytes::concat_all;
use crate::epoch::EpochChallenge;
use crate::error::PuzzleError;
use crate::field::{field_modulus, scalar_add, scalar_mul, values, Scalar};
use crate::hash::{hash_coefficients_spec, hash_commitments};
use crate::puzzle::{
    derive_polynomial, lemma_domain_size_holds, open_outcome, open_product, product_evaluations, product_evaluations_of,
    prover_polynomial_of, CoinbasePuzzle,
};
use crate::solution::{
    collect_commitments, partial_views, view_commitments, CoinbaseSolution, PartialSolutionView, ProverSolution,
};
use crate::MAX_PROVER_SOLUTIONS;

verus! {

/// The partial solutions, in order, of those among the first `k` prover solutions
/// whose proof is not hiding.
pub open spec fn retained(solutions: Seq<ProverSolution>, k: nat) -> Seq<PartialSolutionView>
    decreases k,
{
    if k == 0 || k > solutions.len() {
        Seq::empty()
    } else if solutions[k - 1].proof.hiding() {
        retained(solutions, (k - 1) as nat)
    } else {
        retained(solutions, (k - 1) as nat).push(solutions[k - 1].partial_solution@)
    }
}

/// The challenges of a list of partial solutions: one for each, then the
/// accumulator point. They are hashed from the commitments in the order given.
pub open spec fn challenges_of(parts: Seq<PartialSolutionView>) -> Seq<nat> {
    hash_coefficients_spec(concat_all(view_commitments(parts)), parts.len() + 1)
}

/// The polynomial `acc + r * f`, coefficient by coefficient.
pub open spec fn add_scaled(acc: Seq<nat>, f: Seq<nat>, r: nat) -> Seq<nat> {
    Seq::new(acc.len(), |j: int| (acc[j] + (f[j] * r) % field_modulus()) % field_modulus())
}

/// The sum of the polynomials of the first `k` provers, each multiplied by its
/// challenge.
pub open spec fn accumulated_polynomial(
    epoch: &EpochChallenge,
    parts: Seq<PartialSolutionView>,
    challenges: Seq<nat>,
    k: nat,
) -> Seq<nat>
    decreases k,
{
    if k == 0 || k > parts.len() {
        Seq::new(epoch.degree as nat + 1, |j: int| 0nat)
    } else {
        add_scaled(
            accumulated_polynomial(epoch, parts, challenges, (k - 1) as nat),
            prover_polynomial_of(epoch, parts[k - 1].address, parts[k - 1].nonce),
            challenges[k - 1],
        )
    }
}

/// The partial solutions and the witness commitment that accumulating yields, or
/// the reason why it fails. Solutions with a hiding proof are left out; where none
/// is left, there is nothing to accumulate.
pub open spec fn accumulate_outcome(
    puzzle: &CoinbasePuzzle,
    epoch: &EpochChallenge,
    solutions: Seq<ProverSolution>,
) -> Result<(Seq<PartialSolutionView>, Seq<u8>), PuzzleError> {
    if solutions.len() == 0 {
        Err(PuzzleError::EmptySolutions)
    } else if solutions.len() > MAX_PROVER_SOLUTIONS {
        Err(PuzzleError::TooManySolutions)
    } else {
        match puzzle {
            CoinbasePuzzle::Verifier(_) => Err(PuzzleError::WrongRole),
            CoinbasePuzzle::Prover(pk) => {
                let parts = retained(solutions, solutions.len());
                if parts.len() == 0 {
                    Err(PuzzleError::EmptySolutions)
                } else if epoch.epoch_polynomial_evaluations.len() != pk.product_domain_size {
                    Err(PuzzleError::InvalidDegree)
                } else {
                    let challenges = challenges_of(parts);
                    let point = challenges[parts.len() as int];
                    let polynomial = accumulated_polynomial(epoch, parts, challenges, parts.len());
                    match product_evaluations_of(
                        pk.product_domain_size as nat,
                        polynomial,
                        values(epoch.epoch_polynomial_evaluations@),
                    ) {
                        None => Err(PuzzleError::CryptoBackend),
                        Some(evaluations) => match open_outcome(pk, epoch, polynomial, evaluations, point) {
                            Err(e) => Err(e),
                            Ok(w) => Ok((parts, w)),
                        },
                    }
                }
            },
        }
    }
}

/// Adds `r * f` to `acc`, coefficient by coefficient.
pub fn add_scaled_polynomial(acc: &Vec<Scalar>, f: &Vec<Scalar>, r: Scalar) -> (out: Vec<Scalar>)
    requires
        f.len() == acc.len(),
    ensures
        out.len() == acc.len(),
        values(out@) == add_scaled(values(acc@), values(f@), r.value()),
{
    let mut out: Vec<Scalar> = Vec::new();
    let mut j: usize = 0;
    while j < acc.len()
        invariant
            0 <= j <= acc.len(),
            f.len() == acc.len(),
            out.len() == j,
            forall|i: int|
                0 <= i < j ==> (#[trigger] out[i]).value() == (acc[i].value() + (f[i].value() * r.value())
                    % field_modulus()) % field_modulus(),
        decreases acc.len() - j,
    {
        out.push(scalar_add(acc[j], scalar_mul(f[j], r)));
        j += 1;
    }
    proof {
        assert(values(out@) =~= add_scaled(values(acc@), values(f@), r.value()));
    }
    out
}

/// The zero polynomial with `count` coefficients.
pub fn zero_polynomial(count: usize) -> (out: Vec<Scalar>)
    ensures
        out.len() == count,
        values(out@) == Seq::new(count as nat, |j: int| 0nat),
{
    let mut out: Vec<Scalar> = Vec::new();
    let mut j: usize = 0;
    while j < count
        invariant
            0 <= j <= count,
            out.len() == j,
            forall|i: int| 0 <= i < j ==> (#[trigger] out[i]).value() == 0,
        decreases count - j,
    {
        out.push(Scalar::zero());
        j += 1;
    }
    proof {
        assert(values(out@) =~= Seq::new(count as nat, |j: int| 0nat));
    }
    out
}

impl CoinbasePuzzle {
    /// Returns the coinbase solution for the given prover solutions: their partial
    /// solutions, and one proof that opens the sum of the provers' polynomials,
    /// each multiplied by its challenge, at the accumulator point. The provers'
    /// own proofs are not checked and not kept.
    pub fn accumulate(&self, epoch_challenge: &EpochChallenge, prover_solutions: &Vec<ProverSolution>) -> (r: Result<
        CoinbaseSolution,
        PuzzleError,
    >)
        requires
            self.wf(),
            epoch_challenge.wf(),
        ensures
            match r {
                Ok(c) => {
                    &&& accumulate_outcome(self, epoch_challenge, prover_solutions@) == Ok::<
                        (Seq<PartialSolutionView>, Seq<u8>),
                        PuzzleError,
                    >((partial_views(c.partial_solutions@), c.proof.w@))
                    &&& !c.proof.hiding()
                    &&& 0 < c.partial_solutions.len() <= MAX_PROVER_SOLUTIONS
                },
                Err(e) => accumulate_outcome(self, epoch_challenge, prover_solutions@) == Err::<
                    (Seq<PartialSolutionView>, Seq<u8>),
                    PuzzleError,
                >(e),
            },
    {
        if prover_solutions.len() == 0 {
            return Err(PuzzleError::EmptySolutions);
        }
        if prover_solutions.len() > MAX_PROVER_SOLUTIONS {
            return Err(PuzzleError::TooManySolutions);
        }
        let pk = match self {
            CoinbasePuzzle::Prover(pk) => pk,
            CoinbasePuzzle::Verifier(_) => {
                return Err(PuzzleError::WrongRole);
            },
        };
        let mut partial_solutions = Vec::new();
        let mut i: usize = 0;
        while i < prover_solutions.len()
            invariant
                0 <= i <= prover_solutions.len(),
                partial_solutions.len() <= i,
                partial_views(partial_solutions@) == retained(prover_solutions@, i as nat),
            decreases prover_solutions.len() - i,
        {
            if !prover_solutions[i].proof.is_hiding() {
                let ghost before = partial_views(partial_solutions@);
                partial_solutions.push(prover_solutions[i].partial_solution.duplicate());
                proof {
                    assert(partial_views(partial_solutions@) =~= before.push(prover_solutions[i as int].partial_solution@));
                }
            }
            i += 1;
        }
        let ghost parts = partial_views(partial_solutions@);
        let count = partial_solutions.len();
        if count == 0 {
            return Err(PuzzleError::EmptySolutions);
        }
        if epoch_challenge.epoch_polynomial_evaluations.len() != pk.product_domain_size {
            return Err(PuzzleError::InvalidDegree);
        }
        let commitments = collect_commitments(&partial_solutions);
        let challenges = hash_commitments(&commitments);
        proof {
            assert(values(challenges@) =~= challenges_of(parts));
        }
        let point = challenges[count];
        let mut polynomial = zero_polynomial(epoch_challenge.epoch_polynomial.len());
        let mut k: usize = 0;
        while k < count
            invariant
                0 <= k <= count,
                count == partial_solutions.len(),
                parts == partial_views(partial_solutions@),
                challenges.len() == count + 1,
                epoch_challenge.wf(),
                polynomial.len() == epoch_challenge.degree + 1,
                values(polynomial@) == accumulated_polynomial(epoch_challenge, parts, values(challenges@), k as nat),
            decreases count - k,
        {
            let prover_polynomial = derive_polynomial(
                epoch_challenge,
                partial_solutions[k].address,
                partial_solutions[k].nonce,
            );
            polynomial = add_scaled_polynomial(&polynomial, &prover_polynomial, challenges[k]);
            k += 1;
        }
        proof {
            lemma_domain_size_holds(epoch_challenge.degree as nat);
        }
        let evaluations = match product_evaluations(pk, epoch_challenge, &polynomial) {
            Some(evaluations) => evaluations,
            None => {
                return Err(PuzzleError::CryptoBackend);
            },
        };
        match open_product(pk, epoch_challenge, &polynomial, &evaluations, point) {
            Ok(proof) => Ok(CoinbaseSolution::new(partial_solutions, proof)),
            Err(e) => Err(e),
        }
    }
}

} // verus!
