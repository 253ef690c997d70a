use vstd::prelude::*;
use std::sync::Arc;
use crate::bytes::{byte_seqs, push_bytes, push_u32_le, push_u64_le, u32_le, u64_le};
use crate::epoch::{domain_size, pow2_at_least, product_domain_size, EpochChallenge, PuzzleConfig};
use crate::error::PuzzleError;
use crate::field::{field_modulus, scalar_mul, values, Scalar};
use crate::hash::{hash_coefficient, hash_coefficients_spec, hash_commitment, hash_to_polynomial, is_expansion};
use crate::keys::{copy_prefix, CoinbaseProvingKey, CoinbaseVerifyingKey, UniversalSrs};
use crate::kzg::{
    commit_lagrange, domain_elements, domain_elements_of, domain_fft, fft_evaluations,
    lagrange_basis, lagrange_basis_of, lagrange_commitment, lagrange_opening, open_lagrange, opt_values,
    poly_eval, poly_evaluate,
};
use crate::solution::{copy_bytes, target_of, OpeningProof, PartialSolution, ProverSolution};

verus! {

/// The handle of the puzzle: a prover holds the proving key, a verifier the
/// verifying key alone. The key is shared: a copy of the handle is a second pointer
/// to the same key.
#[derive(Clone, Debug, PartialEq, Eq)]
pub enum CoinbasePuzzle {
    Prover(Arc<CoinbaseProvingKey>),
    Verifier(Arc<CoinbaseVerifyingKey>),
}

/// The 76 bytes from which a prover's polynomial is derived: the epoch number in
/// little-endian order, the epoch's block hash, the address, and the nonce in
/// little-endian order.
pub open spec fn prover_input(epoch_number: u32, epoch_block_hash: Seq<u8>, address: Seq<u8>, nonce: u64) -> Seq<
    u8,
> {
    u32_le(epoch_number) + epoch_block_hash + address + u64_le(nonce)
}

/// The coefficients of the polynomial of the prover with the given address and
/// nonce in the given epoch.
pub open spec fn prover_polynomial_of(epoch: &EpochChallenge, address: Seq<u8>, nonce: u64) -> Seq<nat> {
    hash_coefficients_spec(
        prover_input(epoch.epoch_number, epoch.epoch_block_hash@, address, nonce),
        epoch.degree as nat + 1,
    )
}

/// The products, element by element, of two sequences of field elements.
pub open spec fn pointwise_product(a: Seq<nat>, b: Seq<nat>) -> Seq<nat> {
    Seq::new(a.len(), |i: int| (a[i] * b[i]) % field_modulus())
}

/// The values on the product domain of the product of a polynomial with the epoch's
/// polynomial, whose values on the domain are `epoch_evaluations`.
pub open spec fn product_evaluations_of(size: nat, polynomial: Seq<nat>, epoch_evaluations: Seq<nat>) -> Option<
    Seq<nat>,
> {
    match fft_evaluations(size, polynomial) {
        Some(evaluations) => Some(pointwise_product(evaluations, epoch_evaluations)),
        None => None,
    }
}

/// The value at `point` of the product of a polynomial with the epoch's polynomial.
pub open spec fn claimed_value(polynomial: Seq<nat>, epoch_polynomial: Seq<nat>, point: nat) -> nat {
    (poly_eval(polynomial, point) * poly_eval(epoch_polynomial, point)) % field_modulus()
}

/// The product evaluations of a polynomial and the commitment to them, or the
/// reason why there is none.
pub open spec fn commit_outcome(pk: &CoinbaseProvingKey, epoch: &EpochChallenge, polynomial: Seq<nat>) -> Result<
    (Seq<nat>, Seq<u8>),
    PuzzleError,
> {
    if epoch.epoch_polynomial_evaluations.len() != pk.product_domain_size {
        Err(PuzzleError::InvalidDegree)
    } else {
        match product_evaluations_of(
            pk.product_domain_size as nat,
            polynomial,
            values(epoch.epoch_polynomial_evaluations@),
        ) {
            None => Err(PuzzleError::CryptoBackend),
            Some(evaluations) => match lagrange_commitment(byte_seqs(pk.lagrange_basis_at_beta_g@), evaluations) {
                None => Err(PuzzleError::CryptoBackend),
                Some(commitment) => Ok((evaluations, commitment)),
            },
        }
    }
}

/// The witness commitment of the opening of a product polynomial at `point`, or the
/// reason why there is none.
pub open spec fn open_outcome(
    pk: &CoinbaseProvingKey,
    epoch: &EpochChallenge,
    polynomial: Seq<nat>,
    evaluations: Seq<nat>,
    point: nat,
) -> Result<Seq<u8>, PuzzleError> {
    match lagrange_opening(
        byte_seqs(pk.lagrange_basis_at_beta_g@),
        values(pk.product_domain_elements@),
        evaluations,
        point,
        claimed_value(polynomial, values(epoch.epoch_polynomial@), point),
    ) {
        None => Err(PuzzleError::CryptoBackend),
        Some(w) => Ok(w),
    }
}

/// The commitment and the witness commitment that proving yields, or the reason why
/// it fails. With a target, proving ends after the commitment where the
/// commitment's target is below it or the commitment has no target.
pub open spec fn prove_outcome(
    puzzle: &CoinbasePuzzle,
    proof_target: Option<u64>,
    epoch: &EpochChallenge,
    address: Seq<u8>,
    nonce: u64,
) -> Result<(Seq<u8>, Seq<u8>), PuzzleError> {
    match puzzle {
        CoinbasePuzzle::Verifier(_) => Err(PuzzleError::WrongRole),
        CoinbasePuzzle::Prover(pk) => {
            let polynomial = prover_polynomial_of(epoch, address, nonce);
            match commit_outcome(pk, epoch, polynomial) {
                Err(e) => Err(e),
                Ok((evaluations, commitment)) => {
                    if proof_target is Some && target_of(commitment) is None {
                        Err(PuzzleError::CryptoBackend)
                    } else if proof_target is Some && target_of(commitment)->0 < proof_target->0 {
                        Err(PuzzleError::DifficultyNotMet)
                    } else {
                        match open_outcome(pk, epoch, polynomial, evaluations, hash_coefficient(commitment, 0)) {
                            Err(e) => Err(e),
                            Ok(w) => Ok((commitment, w)),
                        }
                    }
                },
            }
        },
    }
}

/// What `trim` refuses: a degree without a product domain, and a reference string
/// with too few powers or with a power that is no valid point.
pub open spec fn trim_failure(srs: &UniversalSrs, degree: u32) -> Option<PuzzleError> {
    let size = domain_size(degree as nat);
    if degree == 0 || size > usize::MAX {
        Some(PuzzleError::InvalidDegree)
    } else if srs.powers_of_beta_g.len() < size {
        Some(PuzzleError::CryptoBackend)
    } else if domain_elements_of(size) is None {
        Some(PuzzleError::InvalidDegree)
    } else if lagrange_basis_of(byte_seqs(srs.powers_of_beta_g@).take(size as int)) is None {
        Some(PuzzleError::CryptoBackend)
    } else {
        None
    }
}

/// The values of a polynomial on the product domain, each multiplied by the value of
/// the epoch's polynomial there.
pub(crate) fn product_evaluations(pk: &CoinbaseProvingKey, epoch: &EpochChallenge, polynomial: &Vec<Scalar>) -> (r: Option<
    Vec<Scalar>,
>)
    requires
        pk.wf(),
        epoch.epoch_polynomial_evaluations.len() == pk.product_domain_size,
        polynomial.len() <= pk.product_domain_size,
    ensures
        opt_values(r) == product_evaluations_of(
            pk.product_domain_size as nat,
            values(polynomial@),
            values(epoch.epoch_polynomial_evaluations@),
        ),
        r matches Some(e) ==> e.len() == pk.product_domain_size,
{
    let evaluations = match domain_fft(pk.product_domain_size, polynomial) {
        Some(evaluations) => evaluations,
        None => {
            return None;
        },
    };
    let mut products: Vec<Scalar> = Vec::new();
    let mut i: usize = 0;
    while i < evaluations.len()
        invariant
            0 <= i <= evaluations.len(),
            evaluations.len() == epoch.epoch_polynomial_evaluations.len(),
            products.len() == i,
            forall|j: int|
                0 <= j < i ==> (#[trigger] products[j]).value() == (evaluations[j].value()
                    * epoch.epoch_polynomial_evaluations[j].value()) % field_modulus(),
        decreases evaluations.len() - i,
    {
        products.push(scalar_mul(evaluations[i], epoch.epoch_polynomial_evaluations[i]));
        i += 1;
    }
    proof {
        assert(values(products@) =~= pointwise_product(
            values(evaluations@),
            values(epoch.epoch_polynomial_evaluations@),
        ));
    }
    Some(products)
}

/// Opens the product of a polynomial with the epoch's polynomial at `point`.
pub(crate) fn open_product(
    pk: &CoinbaseProvingKey,
    epoch: &EpochChallenge,
    polynomial: &Vec<Scalar>,
    evaluations: &Vec<Scalar>,
    point: Scalar,
) -> (r: Result<OpeningProof, PuzzleError>)
    requires
        pk.wf(),
        evaluations.len() == pk.product_domain_size,
    ensures
        match r {
            Ok(proof) => open_outcome(pk, epoch, values(polynomial@), values(evaluations@), point.value()) == Ok::<
                Seq<u8>,
                PuzzleError,
            >(proof.w@) && !proof.hiding(),
            Err(e) => open_outcome(pk, epoch, values(polynomial@), values(evaluations@), point.value()) == Err::<
                Seq<u8>,
                PuzzleError,
            >(e),
        },
{
    let value = scalar_mul(poly_evaluate(polynomial, point), poly_evaluate(&epoch.epoch_polynomial, point));
    match open_lagrange(&pk.lagrange_basis_at_beta_g, &pk.product_domain_elements, evaluations, point, value) {
        Some(w) => Ok(OpeningProof { w, random_v: None }),
        None => Err(PuzzleError::CryptoBackend),
    }
}

/// Builds the 76 bytes of a prover's input and expands them into the prover's
/// polynomial.
pub(crate) fn derive_polynomial(epoch_challenge: &EpochChallenge, address: [u8; 32], nonce: u64) -> (polynomial: Vec<
    Scalar,
>)
    ensures
        is_expansion(
            polynomial@,
            prover_input(epoch_challenge.epoch_number, epoch_challenge.epoch_block_hash@, address@, nonce),
            epoch_challenge.degree as nat + 1,
        ),
        values(polynomial@) == prover_polynomial_of(epoch_challenge, address@, nonce),
        prover_input(epoch_challenge.epoch_number, epoch_challenge.epoch_block_hash@, address@, nonce).len()
            == 76,
{
    let mut input: Vec<u8> = Vec::new();
    push_u32_le(&mut input, epoch_challenge.epoch_number);
    push_bytes(&mut input, epoch_challenge.epoch_block_hash.as_slice());
    push_bytes(&mut input, address.as_slice());
    push_u64_le(&mut input, nonce);
    let polynomial = hash_to_polynomial(&input, epoch_challenge.degree);
    proof {
        assert(values(polynomial@) =~= prover_polynomial_of(epoch_challenge, address@, nonce));
    }
    polynomial
}

impl CoinbasePuzzle {
    /// Builds the proving key for polynomials of the configured degree from a
    /// reference string: the powers that a product needs, the product domain and
    /// its elements, the Lagrange basis, and the verifying key.
    pub fn trim(srs: &UniversalSrs, config: PuzzleConfig) -> (r: Result<CoinbasePuzzle, PuzzleError>)
        ensures
            match r {
                Ok(puzzle) => {
                    let size = domain_size(config.degree as nat);
                    &&& trim_failure(srs, config.degree) is None
                    &&& puzzle matches CoinbasePuzzle::Prover(pk)
                    &&& pk.wf()
                    &&& pk.product_domain_size == size
                    &&& byte_seqs(pk.powers_of_beta_g@) == byte_seqs(srs.powers_of_beta_g@).take(
                        2 * config.degree + 1,
                    )
                    &&& domain_elements_of(size) == Some(values(pk.product_domain_elements@))
                    &&& lagrange_basis_of(byte_seqs(srs.powers_of_beta_g@).take(size as int)) == Some(
                        byte_seqs(pk.lagrange_basis_at_beta_g@),
                    )
                    &&& pk.verifying_key.g@ == srs.powers_of_beta_g[0]@
                    &&& pk.verifying_key.h@ == srs.h@
                    &&& pk.verifying_key.beta_h@ == srs.beta_h@
                },
                Err(e) => trim_failure(srs, config.degree) == Some(e),
            },
    {
        let size = match product_domain_size(config.degree) {
            Ok(size) => size,
            Err(e) => {
                return Err(e);
            },
        };
        if srs.powers_of_beta_g.len() < size {
            return Err(PuzzleError::CryptoBackend);
        }
        let product_domain_elements = match domain_elements(size) {
            Some(elements) => elements,
            None => {
                return Err(PuzzleError::InvalidDegree);
            },
        };
        let domain_powers = copy_prefix(&srs.powers_of_beta_g, size);
        let lagrange_basis_at_beta_g = match lagrange_basis(&domain_powers) {
            Some(basis) => basis,
            None => {
                return Err(PuzzleError::CryptoBackend);
            },
        };
        let num_coefficients: usize = 2 * (config.degree as usize) + 1;
        let powers_of_beta_g = copy_prefix(&srs.powers_of_beta_g, num_coefficients);
        let verifying_key = CoinbaseVerifyingKey {
            g: copy_bytes(&srs.powers_of_beta_g[0]),
            h: copy_bytes(&srs.h),
            beta_h: copy_bytes(&srs.beta_h),
        };
        Ok(
            CoinbasePuzzle::Prover(
                Arc::new(
                    CoinbaseProvingKey {
                        powers_of_beta_g,
                        product_domain_size: size,
                        product_domain_elements,
                        lagrange_basis_at_beta_g,
                        verifying_key,
                    },
                ),
            ),
        )
    }

    /// The proving key. A verifier has none.
    pub fn coinbase_proving_key(&self) -> (r: Result<&CoinbaseProvingKey, PuzzleError>)
        ensures
            match self {
                CoinbasePuzzle::Prover(pk) => r == Ok::<&CoinbaseProvingKey, PuzzleError>(pk),
                CoinbasePuzzle::Verifier(_) => r == Err::<&CoinbaseProvingKey, PuzzleError>(PuzzleError::WrongRole),
            },
    {
        match self {
            CoinbasePuzzle::Prover(pk) => Ok(pk),
            CoinbasePuzzle::Verifier(_) => Err(PuzzleError::WrongRole),
        }
    }

    /// The verifying key: a verifier's own, or the one inside a prover's key. Every
    /// handle has one.
    pub fn coinbase_verifying_key(&self) -> (r: Result<&CoinbaseVerifyingKey, PuzzleError>)
        ensures
            r == Ok::<&CoinbaseVerifyingKey, PuzzleError>(self.verifying_key_of()),
    {
        match self {
            CoinbasePuzzle::Prover(pk) => Ok(&pk.verifying_key),
            CoinbasePuzzle::Verifier(vk) => Ok(vk),
        }
    }

    /// The verifying key that the handle checks with.
    pub open spec fn verifying_key_of(&self) -> &CoinbaseVerifyingKey {
        match self {
            CoinbasePuzzle::Prover(pk) => &pk.verifying_key,
            CoinbasePuzzle::Verifier(vk) => vk,
        }
    }

    /// The handle's key is well formed.
    pub open spec fn wf(&self) -> bool {
        match self {
            CoinbasePuzzle::Prover(pk) => pk.wf(),
            CoinbasePuzzle::Verifier(_) => true,
        }
    }

    /// Whether the handle's key is well formed.
    pub fn is_well_formed(&self) -> (r: bool)
        ensures
            r == self.wf(),
    {
        match self {
            CoinbasePuzzle::Prover(pk) => pk.is_well_formed(),
            CoinbasePuzzle::Verifier(_) => true,
        }
    }

    /// Derives the polynomial of the prover with the given address and nonce in the
    /// given epoch. It never fails.
    pub fn prover_polynomial(epoch_challenge: &EpochChallenge, address: [u8; 32], nonce: u64) -> (r: Result<
        Vec<Scalar>,
        PuzzleError,
    >)
        ensures
            r matches Ok(polynomial) && is_expansion(
                polynomial@,
                prover_input(epoch_challenge.epoch_number, epoch_challenge.epoch_block_hash@, address@, nonce),
                epoch_challenge.degree as nat + 1,
            ) && values(polynomial@) == prover_polynomial_of(epoch_challenge, address@, nonce),
    {
        Ok(derive_polynomial(epoch_challenge, address, nonce))
    }

    /// Commits to the product of the prover's polynomial with the epoch's, and opens
    /// the commitment at the point hashed from it. Where a target is given and the
    /// commitment does not meet it, the work ends before the opening.
    fn prove_inner(
        &self,
        proof_target: Option<u64>,
        epoch_challenge: &EpochChallenge,
        address: [u8; 32],
        nonce: u64,
    ) -> (r: Result<ProverSolution, PuzzleError>)
        requires
            self.wf(),
            epoch_challenge.wf(),
        ensures
            match r {
                Ok(s) => {
                    &&& prove_outcome(self, proof_target, epoch_challenge, address@, nonce) == Ok::<
                        (Seq<u8>, Seq<u8>),
                        PuzzleError,
                    >((s.partial_solution.commitment@, s.proof.w@))
                    &&& s.partial_solution.address == address
                    &&& s.partial_solution.nonce == nonce
                    &&& !s.proof.hiding()
                },
                Err(e) => prove_outcome(self, proof_target, epoch_challenge, address@, nonce) == Err::<
                    (Seq<u8>, Seq<u8>),
                    PuzzleError,
                >(e),
            },
    {
        let pk = match self {
            CoinbasePuzzle::Prover(pk) => pk,
            CoinbasePuzzle::Verifier(_) => {
                return Err(PuzzleError::WrongRole);
            },
        };
        let polynomial = derive_polynomial(epoch_challenge, address, nonce);
        if epoch_challenge.epoch_polynomial_evaluations.len() != pk.product_domain_size {
            return Err(PuzzleError::InvalidDegree);
        }
        proof {
            lemma_domain_size_holds(epoch_challenge.degree as nat);
        }
        let product_evaluations = match product_evaluations(pk, epoch_challenge, &polynomial) {
            Some(evaluations) => evaluations,
            None => {
                return Err(PuzzleError::CryptoBackend);
            },
        };
        let commitment = match commit_lagrange(&pk.lagrange_basis_at_beta_g, &product_evaluations) {
            Some(commitment) => commitment,
            None => {
                return Err(PuzzleError::CryptoBackend);
            },
        };
        let partial_solution = PartialSolution::new(address, nonce, commitment);
        if let Some(target) = proof_target {
            match partial_solution.to_target() {
                None => {
                    return Err(PuzzleError::CryptoBackend);
                },
                Some(own) => {
                    if own < target {
                        return Err(PuzzleError::DifficultyNotMet);
                    }
                },
            }
        }
        let point = hash_commitment(&partial_solution.commitment);
        match open_product(pk, epoch_challenge, &polynomial, &product_evaluations, point) {
            Ok(proof) => Ok(ProverSolution::new(partial_solution, proof)),
            Err(e) => Err(e),
        }
    }

    /// Returns a prover solution for the given address and nonce: the commitment to
    /// the product polynomial and its opening at the point hashed from the
    /// commitment. A verifier cannot prove.
    pub fn prove(&self, epoch_challenge: &EpochChallenge, address: [u8; 32], nonce: u64) -> (r: Result<
        ProverSolution,
        PuzzleError,
    >)
        requires
            self.wf(),
            epoch_challenge.wf(),
        ensures
            match r {
                Ok(s) => {
                    &&& prove_outcome(self, None, epoch_challenge, address@, nonce) == Ok::<
                        (Seq<u8>, Seq<u8>),
                        PuzzleError,
                    >((s.partial_solution.commitment@, s.proof.w@))
                    &&& s.partial_solution.address == address
                    &&& s.partial_solution.nonce == nonce
                    &&& !s.proof.hiding()
                },
                Err(e) => prove_outcome(self, None, epoch_challenge, address@, nonce) == Err::<
                    (Seq<u8>, Seq<u8>),
                    PuzzleError,
                >(e),
            },
    {
        self.prove_inner(None, epoch_challenge, address, nonce)
    }

    /// Returns a prover solution as `prove` does, but only where the commitment's
    /// target is at least `proof_target`: otherwise it fails right after the
    /// commitment, before the opening is computed.
    pub fn prove_abm(
        &self,
        proof_target: u64,
        epoch_challenge: &EpochChallenge,
        address: [u8; 32],
        nonce: u64,
    ) -> (r: Result<ProverSolution, PuzzleError>)
        requires
            self.wf(),
            epoch_challenge.wf(),
        ensures
            match r {
                Ok(s) => {
                    &&& prove_outcome(self, Some(proof_target), epoch_challenge, address@, nonce) == Ok::<
                        (Seq<u8>, Seq<u8>),
                        PuzzleError,
                    >((s.partial_solution.commitment@, s.proof.w@))
                    &&& s.partial_solution.address == address
                    &&& s.partial_solution.nonce == nonce
                    &&& !s.proof.hiding()
                    &&& target_of(s.partial_solution.commitment@) matches Some(own) && own >= proof_target
                },
                Err(e) => prove_outcome(self, Some(proof_target), epoch_challenge, address@, nonce) == Err::<
                    (Seq<u8>, Seq<u8>),
                    PuzzleError,
                >(e),
            },
    {
        self.prove_inner(Some(proof_target), epoch_challenge, address, nonce)
    }
}

/// Proving is a function of its inputs: two solutions that proving may return for
/// the same handle, target, epoch, address and nonce hold the same address, nonce,
/// commitment and proof.
pub proof fn lemma_prove_deterministic(
    puzzle: &CoinbasePuzzle,
    proof_target: Option<u64>,
    epoch: &EpochChallenge,
    address: [u8; 32],
    nonce: u64,
    first: ProverSolution,
    second: ProverSolution,
)
    requires
        prove_outcome(puzzle, proof_target, epoch, address@, nonce) == Ok::<(Seq<u8>, Seq<u8>), PuzzleError>(
            (first.partial_solution.commitment@, first.proof.w@),
        ),
        prove_outcome(puzzle, proof_target, epoch, address@, nonce) == Ok::<(Seq<u8>, Seq<u8>), PuzzleError>(
            (second.partial_solution.commitment@, second.proof.w@),
        ),
        first.partial_solution.address == address && first.partial_solution.nonce == nonce,
        second.partial_solution.address == address && second.partial_solution.nonce == nonce,
        !first.proof.hiding() && !second.proof.hiding(),
    ensures
        first.partial_solution@ == second.partial_solution@,
        first.proof.w@ == second.proof.w@,
        first.proof.random_v == second.proof.random_v,
{
}

/// A solution that proving with a target returns has a target of at least the one
/// asked for.
pub proof fn lemma_proved_target_is_met(
    puzzle: &CoinbasePuzzle,
    proof_target: u64,
    epoch: &EpochChallenge,
    address: Seq<u8>,
    nonce: u64,
    commitment: Seq<u8>,
    w: Seq<u8>,
)
    requires
        prove_outcome(puzzle, Some(proof_target), epoch, address, nonce) == Ok::<(Seq<u8>, Seq<u8>), PuzzleError>(
            (commitment, w),
        ),
    ensures
        target_of(commitment) matches Some(own) && own >= proof_target,
{
}

/// The product domain of a degree is at least as large as a polynomial of that
/// degree has coefficients.
pub proof fn lemma_domain_size_holds(degree: nat)
    ensures
        degree + 1 <= domain_size(degree),
{
    lemma_pow2_at_least(2 * degree + 1, 1);
}

/// Doubling from a positive number reaches the target.
pub proof fn lemma_pow2_at_least(target: nat, m: nat)
    requires
        m >= 1,
    ensures
        pow2_at_least(target, m) >= target,
        pow2_at_least(target, m) >= m,
    decreases (if m < target { target - m } else { 0 }),
{
    if 0 < m < target {
        lemma_pow2_at_least(target, m + m);
    }
}

} // verus!
