use vstd::prelude::*;
use crate::accumulate::challenges_of;
use crate::epoch::EpochChallenge;
use crate::error::PuzzleError;
use crate::field::{field_modulus, scalar_add, scalar_mul, values, Scalar};
use crate::hash::hash_commitments;
use crate::kzg::{check_opening, msm, msm_commitment, pairing_check, poly_eval, poly_evaluate};
use crate::puzzle::{derive_polynomial, prover_polynomial_of, CoinbasePuzzle};
use crate::solution::{
    collect_commitments, cumulative_target_of, lemma_cumulative_some, partial_views, target_of, view_commitments, CoinbaseSolution,
    PartialSolution, PartialSolutionView,
};
use crate::MAX_PROVER_SOLUTIONS;

verus! {

/// Whether each of the first `k` commitments has a target of at least
/// `proof_target`.
pub open spec fn all_meet(commitments: Seq<Seq<u8>>, proof_target: u64, k: nat) -> bool {
    forall|i: int|
        0 <= i < k ==> (target_of(#[trigger] commitments[i]) matches Some(own) && own >= proof_target)
}

/// The sum, over the first `k` provers, of the value of the prover's polynomial at
/// `point` multiplied by the prover's challenge.
pub open spec fn accumulated_evaluation(
    epoch: &EpochChallenge,
    parts: Seq<PartialSolutionView>,
    challenges: Seq<nat>,
    point: nat,
    k: nat,
) -> nat
    decreases k,
{
    if k == 0 || k > parts.len() {
        0
    } else {
        (accumulated_evaluation(epoch, parts, challenges, point, (k - 1) as nat) + (poly_eval(
            prover_polynomial_of(epoch, parts[k - 1].address, parts[k - 1].nonce),
            point,
        ) * challenges[k - 1]) % field_modulus()) % field_modulus()
    }
}

/// The verdict on a coinbase solution, or the reason why it is refused: an empty or
/// oversized list, a hiding proof, a commitment without a target, a cumulative
/// target below `coinbase_target`, a commitment whose target is below
/// `proof_target`, or curve arithmetic that refuses a point. Otherwise the verdict
/// is that of the pairing check on the accumulated commitment and evaluation.
pub open spec fn verify_outcome(
    puzzle: &CoinbasePuzzle,
    parts: Seq<PartialSolutionView>,
    w: Seq<u8>,
    hiding: bool,
    epoch: &EpochChallenge,
    coinbase_target: u64,
    proof_target: u64,
) -> Result<bool, PuzzleError> {
    let k = parts.len();
    let commitments = view_commitments(parts);
    if k == 0 {
        Err(PuzzleError::EmptySolutions)
    } else if k > MAX_PROVER_SOLUTIONS {
        Err(PuzzleError::TooManySolutions)
    } else if hiding {
        Err(PuzzleError::HidingProof)
    } else {
        match cumulative_target_of(commitments, k) {
            None => Err(PuzzleError::CryptoBackend),
            Some(total) => {
                if total < coinbase_target {
                    Err(PuzzleError::DifficultyNotMet)
                } else if !all_meet(commitments, proof_target, k) {
                    Err(PuzzleError::DifficultyNotMet)
                } else {
                    let challenges = challenges_of(parts);
                    let point = challenges[k as int];
                    let value = (accumulated_evaluation(epoch, parts, challenges, point, k) * poly_eval(
                        values(epoch.epoch_polynomial@),
                        point,
                    )) % field_modulus();
                    let vk = puzzle.verifying_key_of();
                    match msm_commitment(commitments, challenges.take(k as int)) {
                        None => Err(PuzzleError::CryptoBackend),
                        Some(commitment) => match pairing_check(
                            vk.g@,
                            vk.h@,
                            vk.beta_h@,
                            commitment,
                            point,
                            value,
                            w,
                        ) {
                            None => Err(PuzzleError::CryptoBackend),
                            Some(verdict) => Ok(verdict),
                        },
                    }
                }
            },
        }
    }
}

/// Whether each partial solution has a target of at least `proof_target`.
pub fn all_targets_meet(solutions: &Vec<PartialSolution>, proof_target: u64) -> (r: bool)
    ensures
        r == all_meet(view_commitments(partial_views(solutions@)), proof_target, solutions.len() as nat),
{
    let ghost commitments = view_commitments(partial_views(solutions@));
    let mut i: usize = 0;
    while i < solutions.len()
        invariant
            0 <= i <= solutions.len(),
            commitments == view_commitments(partial_views(solutions@)),
            all_meet(commitments, proof_target, i as nat),
        decreases solutions.len() - i,
    {
        let own = solutions[i].to_target();
        proof {
            assert(commitments[i as int] == solutions[i as int].commitment@);
        }
        let met = match own {
            Some(own) => own >= proof_target,
            None => false,
        };
        if !met {
            proof {
                assert(!(target_of(commitments[i as int]) matches Some(t) && t >= proof_target));
            }
            return false;
        }
        i += 1;
    }
    true
}

impl CoinbasePuzzle {
    /// Returns whether the coinbase solution is valid for the epoch under the two
    /// targets: `Ok(true)` or `Ok(false)` by the pairing check where the solution is
    /// well formed and meets the targets, an error otherwise.
    pub fn verify(
        &self,
        coinbase_solution: &CoinbaseSolution,
        epoch_challenge: &EpochChallenge,
        coinbase_target: u64,
        proof_target: u64,
    ) -> (r: Result<bool, PuzzleError>)
        ensures
            r == verify_outcome(
                self,
                partial_views(coinbase_solution.partial_solutions@),
                coinbase_solution.proof.w@,
                coinbase_solution.proof.hiding(),
                epoch_challenge,
                coinbase_target,
                proof_target,
            ),
    {
        let ghost parts = partial_views(coinbase_solution.partial_solutions@);
        let ghost commitment_seqs = view_commitments(parts);
        if coinbase_solution.is_empty() {
            return Err(PuzzleError::EmptySolutions);
        }
        let count = coinbase_solution.len();
        if count > MAX_PROVER_SOLUTIONS {
            return Err(PuzzleError::TooManySolutions);
        }
        if coinbase_solution.proof.is_hiding() {
            return Err(PuzzleError::HidingProof);
        }
        let commitments = collect_commitments(&coinbase_solution.partial_solutions);
        match coinbase_solution.to_cumulative_target() {
            None => {
                return Err(PuzzleError::CryptoBackend);
            },
            Some(total) => {
                if total < coinbase_target as u128 {
                    return Err(PuzzleError::DifficultyNotMet);
                }
            },
        }
        if !all_targets_meet(&coinbase_solution.partial_solutions, proof_target) {
            return Err(PuzzleError::DifficultyNotMet);
        }
        let challenges = hash_commitments(&commitments);
        proof {
            assert(values(challenges@) =~= challenges_of(parts));
        }
        let point = challenges[count];
        let mut accumulator = Scalar::zero();
        let mut fs_challenges: Vec<Scalar> = Vec::new();
        let mut k: usize = 0;
        while k < count
            invariant
                0 <= k <= count,
                count == coinbase_solution.partial_solutions.len(),
                parts == partial_views(coinbase_solution.partial_solutions@),
                challenges.len() == count + 1,
                fs_challenges.len() == k,
                forall|j: int| 0 <= j < k ==> (#[trigger] fs_challenges[j]).value() == challenges[j].value(),
                accumulator.value() == accumulated_evaluation(
                    epoch_challenge,
                    parts,
                    values(challenges@),
                    point.value(),
                    k as nat,
                ),
            decreases count - k,
        {
            let solution = &coinbase_solution.partial_solutions[k];
            let prover_polynomial = derive_polynomial(epoch_challenge, solution.address, solution.nonce);
            let term = scalar_mul(poly_evaluate(&prover_polynomial, point), challenges[k]);
            accumulator = scalar_add(accumulator, term);
            fs_challenges.push(challenges[k]);
            k += 1;
        }
        proof {
            assert(values(fs_challenges@) =~= values(challenges@).take(count as int));
        }
        let value = scalar_mul(accumulator, poly_evaluate(&epoch_challenge.epoch_polynomial, point));
        let accumulator_commitment = match msm(&commitments, &fs_challenges) {
            Some(commitment) => commitment,
            None => {
                return Err(PuzzleError::CryptoBackend);
            },
        };
        let vk = match self {
            CoinbasePuzzle::Prover(pk) => &pk.verifying_key,
            CoinbasePuzzle::Verifier(vk) => vk,
        };
        match check_opening(
            &vk.g,
            &vk.h,
            &vk.beta_h,
            &accumulator_commitment,
            point,
            value,
            &coinbase_solution.proof.w,
        ) {
            Some(verdict) => Ok(verdict),
            None => Err(PuzzleError::CryptoBackend),
        }
    }
}

/// A coinbase solution is refused where its list is empty or too long, where its
/// proof is hiding, where the targets of its commitments add up to less than the
/// coinbase target, and where one commitment's target is below the proof target.
pub proof fn lemma_verify_rejects(
    puzzle: &CoinbasePuzzle,
    parts: Seq<PartialSolutionView>,
    w: Seq<u8>,
    hiding: bool,
    epoch: &EpochChallenge,
    coinbase_target: u64,
    proof_target: u64,
)
    requires
        ({
            ||| parts.len() == 0
            ||| parts.len() > MAX_PROVER_SOLUTIONS
            ||| hiding
            ||| (cumulative_target_of(view_commitments(parts), parts.len()) matches Some(total) && total
                < coinbase_target)
            ||| (exists|i: int|
                0 <= i < parts.len() && (target_of(#[trigger] view_commitments(parts)[i]) matches Some(own) && own
                    < proof_target))
        }),
    ensures
        verify_outcome(puzzle, parts, w, hiding, epoch, coinbase_target, proof_target) is Err,
{
}

/// With both targets at zero, a solution whose list is neither empty nor too long,
/// whose proof is not hiding and whose commitments all have a target is not refused
/// for what it holds: verification ends in the verdict of the pairing check, or in a
/// refusal by the curve arithmetic.
pub proof fn lemma_zero_targets_reach_the_check(
    puzzle: &CoinbasePuzzle,
    parts: Seq<PartialSolutionView>,
    w: Seq<u8>,
    epoch: &EpochChallenge,
)
    requires
        0 < parts.len() <= MAX_PROVER_SOLUTIONS,
        forall|i: int| 0 <= i < parts.len() ==> target_of(#[trigger] view_commitments(parts)[i]) is Some,
    ensures
        verify_outcome(puzzle, parts, w, false, epoch, 0, 0) is Ok || verify_outcome(
            puzzle,
            parts,
            w,
            false,
            epoch,
            0,
            0,
        ) == Err::<bool, PuzzleError>(PuzzleError::CryptoBackend),
{
    lemma_cumulative_some(view_commitments(parts), parts.len());
    assert(all_meet(view_commitments(parts), 0, parts.len()));
}

/// The verdict `Ok(false)` is given only to a solution that is well formed and meets
/// both targets, and whose pairing check fails.
pub proof fn lemma_verify_false_is_bad_proof(
    puzzle: &CoinbasePuzzle,
    parts: Seq<PartialSolutionView>,
    w: Seq<u8>,
    hiding: bool,
    epoch: &EpochChallenge,
    coinbase_target: u64,
    proof_target: u64,
)
    requires
        verify_outcome(puzzle, parts, w, hiding, epoch, coinbase_target, proof_target) == Ok::<bool, PuzzleError>(
            false,
        ),
    ensures
        0 < parts.len() <= MAX_PROVER_SOLUTIONS,
        !hiding,
        cumulative_target_of(view_commitments(parts), parts.len()) matches Some(total) && total >= coinbase_target,
        all_meet(view_commitments(parts), proof_target, parts.len()),
        exists|commitment: Seq<u8>, point: nat, value: nat|
            pairing_check(
                puzzle.verifying_key_of().g@,
                puzzle.verifying_key_of().h@,
                puzzle.verifying_key_of().beta_h@,
                commitment,
                point,
                value,
                w,
            ) == Some(false),
{
    let k = parts.len();
    let challenges = challenges_of(parts);
    let point = challenges[k as int];
    let value = (accumulated_evaluation(epoch, parts, challenges, point, k) * poly_eval(
        values(epoch.epoch_polynomial@),
        point,
    )) % field_modulus();
    let commitment = msm_commitment(view_commitments(parts), challenges.take(k as int))->0;
    let vk = puzzle.verifying_key_of();
    assert(pairing_check(vk.g@, vk.h@, vk.beta_h@, commitment, point, value, w) == Some(false));
}

} // verus!
