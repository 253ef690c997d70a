use blake2::Digest;
use std::sync::Arc;
use coinbase_puzzle::epoch::{product_domain_size, EpochChallenge, PuzzleConfig};
use coinbase_puzzle::error::PuzzleError;
use coinbase_puzzle::field::Scalar;
use coinbase_puzzle::hash::{hash_commitment, hash_commitments, hash_to_coefficients, hash_to_polynomial};
use coinbase_puzzle::keys::UniversalSrs;
use coinbase_puzzle::puzzle::CoinbasePuzzle;
use coinbase_puzzle::solution::{CoinbaseSolution, ProverSolution};
use coinbase_puzzle::MAX_PROVER_SOLUTIONS;
use snarkvm_algorithms::crypto_hash::sha256d_to_u64;
use snarkvm_algorithms::polycommit::kzg10::{KZGCommitment, UniversalParams};
use snarkvm_curves::bls12_377::{Bls12_377, Fr};
use snarkvm_fields::PrimeField;
use snarkvm_utilities::{CanonicalSerialize, ToBytes};

fn sample_srs(num_powers: usize) -> UniversalSrs {
    let params = UniversalParams::<Bls12_377>::load().unwrap();
    let powers = params.powers_of_beta_g(0, num_powers).unwrap();
    let (mut h, mut beta_h) = (Vec::new(), Vec::new());
    params.h.serialize_compressed(&mut h).unwrap();
    params.beta_h().serialize_compressed(&mut beta_h).unwrap();
    UniversalSrs {
        powers_of_beta_g: powers.iter().map(|p| KZGCommitment::<Bls12_377>(*p).to_bytes_le().unwrap()).collect(),
        h,
        beta_h,
    }
}

fn sample_puzzle(degree: u32) -> CoinbasePuzzle {
    let size = product_domain_size(degree).unwrap();
    CoinbasePuzzle::trim(&sample_srs(size), PuzzleConfig { degree }).unwrap()
}

fn verifier_of(puzzle: &CoinbasePuzzle) -> CoinbasePuzzle {
    CoinbasePuzzle::Verifier(Arc::new(puzzle.coinbase_verifying_key().unwrap().clone()))
}

fn expected_coefficient(input: &[u8], counter: u32) -> Scalar {
    let mut block = blake2::Blake2s256::digest(input).to_vec();
    block.extend_from_slice(&counter.to_le_bytes());
    let element = Fr::from_bytes_le_mod_order(&blake2::Blake2b512::digest(&block));
    Scalar { bytes: element.to_bytes_le().unwrap().try_into().unwrap() }
}

fn to_fr(scalar: &Scalar) -> Fr {
    Fr::from_bytes_le_mod_order(&scalar.bytes)
}

fn three_solutions(puzzle: &CoinbasePuzzle, epoch: &EpochChallenge) -> Vec<ProverSolution> {
    vec![
        puzzle.prove(epoch, [1u8; 32], 11).unwrap(),
        puzzle.prove(epoch, [2u8; 32], 22).unwrap(),
        puzzle.prove(epoch, [3u8; 32], 33).unwrap(),
    ]
}

#[test]
fn single_prover_solution_verifies() {
    let puzzle = sample_puzzle(8);
    let epoch = EpochChallenge::new(0, [0u8; 32], 8).unwrap();
    let solution = puzzle.prove(&epoch, [0u8; 32], 0).unwrap();
    assert_eq!(solution.partial_solution.address, [0u8; 32]);
    assert_eq!(solution.partial_solution.nonce, 0);
    assert!(!solution.proof.is_hiding());
    let coinbase = puzzle.accumulate(&epoch, &vec![solution]).unwrap();
    assert_eq!(coinbase.len(), 1);
    assert_eq!(puzzle.verify(&coinbase, &epoch, 0, 0), Ok(true));
    assert_eq!(verifier_of(&puzzle).verify(&coinbase, &epoch, 0, 0), Ok(true));
}

#[test]
fn prove_is_deterministic() {
    let puzzle = sample_puzzle(8);
    let epoch = EpochChallenge::new(3, [7u8; 32], 8).unwrap();
    let first = puzzle.prove(&epoch, [9u8; 32], 5).unwrap();
    let second = puzzle.prove(&epoch, [9u8; 32], 5).unwrap();
    assert_eq!(first, second);
    let other = puzzle.prove(&epoch, [9u8; 32], 6).unwrap();
    assert_ne!(first.partial_solution.commitment, other.partial_solution.commitment);
}

#[test]
fn prove_with_largest_target_fails() {
    let puzzle = sample_puzzle(8);
    let epoch = EpochChallenge::new(0, [0u8; 32], 8).unwrap();
    for nonce in 0..3u64 {
        assert_eq!(puzzle.prove_abm(u64::MAX, &epoch, [0u8; 32], nonce), Err(PuzzleError::DifficultyNotMet));
    }
}

#[test]
fn prove_with_target_meets_the_target() {
    let puzzle = sample_puzzle(8);
    let epoch = EpochChallenge::new(0, [0u8; 32], 8).unwrap();
    let plain = puzzle.prove(&epoch, [4u8; 32], 17).unwrap();
    let own = plain.to_target().unwrap();
    assert_eq!(own, u64::MAX / sha256d_to_u64(&plain.partial_solution.commitment));
    assert_eq!(puzzle.prove_abm(own, &epoch, [4u8; 32], 17), Ok(plain.clone()));
    assert_eq!(puzzle.prove_abm(0, &epoch, [4u8; 32], 17), Ok(plain));
    if own < u64::MAX {
        assert_eq!(puzzle.prove_abm(own + 1, &epoch, [4u8; 32], 17), Err(PuzzleError::DifficultyNotMet));
    }
}

#[test]
fn three_provers_accumulate_and_verify() {
    let puzzle = sample_puzzle(8);
    let epoch = EpochChallenge::new(1, [5u8; 32], 8).unwrap();
    let solutions = three_solutions(&puzzle, &epoch);
    let coinbase = puzzle.accumulate(&epoch, &solutions).unwrap();
    assert_eq!(coinbase.len(), 3);
    for (partial, solution) in coinbase.partial_solutions.iter().zip(solutions.iter()) {
        assert_eq!(partial, &solution.partial_solution);
    }
    assert_eq!(puzzle.verify(&coinbase, &epoch, 0, 0), Ok(true));
    assert_eq!(puzzle.accumulate(&epoch, &solutions), Ok(coinbase));
}

#[test]
fn replaced_commitment_does_not_verify() {
    let puzzle = sample_puzzle(8);
    let epoch = EpochChallenge::new(1, [5u8; 32], 8).unwrap();
    let solutions = three_solutions(&puzzle, &epoch);
    let coinbase = puzzle.accumulate(&epoch, &solutions).unwrap();
    let foreign = puzzle.prove(&epoch, [8u8; 32], 88).unwrap();
    let mut replaced = coinbase.clone();
    replaced.partial_solutions[1].commitment = foreign.partial_solution.commitment.clone();
    assert_eq!(puzzle.verify(&replaced, &epoch, 0, 0), Ok(false));
    let mut flipped = coinbase.clone();
    flipped.partial_solutions[0].commitment[0] ^= 1;
    assert_ne!(puzzle.verify(&flipped, &epoch, 0, 0), Ok(true));
}

#[test]
fn swapped_partial_solutions_do_not_verify() {
    let puzzle = sample_puzzle(8);
    let epoch = EpochChallenge::new(1, [5u8; 32], 8).unwrap();
    let coinbase = puzzle.accumulate(&epoch, &three_solutions(&puzzle, &epoch)).unwrap();
    let mut swapped = coinbase.clone();
    swapped.partial_solutions.swap(0, 2);
    assert_eq!(puzzle.verify(&swapped, &epoch, 0, 0), Ok(false));
}

#[test]
fn wrong_epoch_does_not_verify() {
    let puzzle = sample_puzzle(8);
    let epoch = EpochChallenge::new(1, [5u8; 32], 8).unwrap();
    let coinbase = puzzle.accumulate(&epoch, &three_solutions(&puzzle, &epoch)).unwrap();
    let other = EpochChallenge::new(2, [5u8; 32], 8).unwrap();
    assert_eq!(puzzle.verify(&coinbase, &other, 0, 0), Ok(false));
}

#[test]
fn accumulate_rejects_an_empty_list() {
    let puzzle = sample_puzzle(8);
    let epoch = EpochChallenge::new(0, [0u8; 32], 8).unwrap();
    assert_eq!(puzzle.accumulate(&epoch, &Vec::new()), Err(PuzzleError::EmptySolutions));
}

#[test]
fn accumulate_rejects_too_many_solutions() {
    let puzzle = sample_puzzle(8);
    let epoch = EpochChallenge::new(0, [0u8; 32], 8).unwrap();
    let solution = puzzle.prove(&epoch, [0u8; 32], 0).unwrap();
    let solutions = vec![solution; MAX_PROVER_SOLUTIONS + 1];
    assert_eq!(puzzle.accumulate(&epoch, &solutions), Err(PuzzleError::TooManySolutions));
}

#[test]
fn accumulate_leaves_out_hiding_proofs() {
    let puzzle = sample_puzzle(8);
    let epoch = EpochChallenge::new(0, [0u8; 32], 8).unwrap();
    let kept = puzzle.prove(&epoch, [1u8; 32], 1).unwrap();
    let mut hiding = puzzle.prove(&epoch, [2u8; 32], 2).unwrap();
    hiding.proof.random_v = Some(Scalar::zero());
    let coinbase = puzzle.accumulate(&epoch, &vec![hiding.clone(), kept.clone()]).unwrap();
    assert_eq!(coinbase.partial_solutions, vec![kept.partial_solution.clone()]);
    assert_eq!(puzzle.verify(&coinbase, &epoch, 0, 0), Ok(true));
    assert_eq!(puzzle.accumulate(&epoch, &vec![hiding]), Err(PuzzleError::EmptySolutions));
}

#[test]
fn verifier_handle_cannot_prove() {
    let puzzle = sample_puzzle(8);
    let verifier = verifier_of(&puzzle);
    let epoch = EpochChallenge::new(0, [0u8; 32], 8).unwrap();
    assert_eq!(verifier.prove(&epoch, [0u8; 32], 0), Err(PuzzleError::WrongRole));
    assert_eq!(verifier.prove_abm(0, &epoch, [0u8; 32], 0), Err(PuzzleError::WrongRole));
    let solution = puzzle.prove(&epoch, [0u8; 32], 0).unwrap();
    assert_eq!(verifier.accumulate(&epoch, &vec![solution]), Err(PuzzleError::WrongRole));
    assert_eq!(verifier.coinbase_proving_key(), Err(PuzzleError::WrongRole));
    assert!(puzzle.coinbase_proving_key().is_ok());
}

#[test]
fn verify_rejects_malformed_solutions() {
    let puzzle = sample_puzzle(8);
    let epoch = EpochChallenge::new(0, [0u8; 32], 8).unwrap();
    let solution = puzzle.prove(&epoch, [0u8; 32], 0).unwrap();
    let coinbase = puzzle.accumulate(&epoch, &vec![solution.clone()]).unwrap();

    let empty = CoinbaseSolution::new(Vec::new(), coinbase.proof.clone());
    assert_eq!(puzzle.verify(&empty, &epoch, 0, 0), Err(PuzzleError::EmptySolutions));

    let partials = vec![solution.partial_solution.clone(); MAX_PROVER_SOLUTIONS + 1];
    let oversize = CoinbaseSolution::new(partials, coinbase.proof.clone());
    assert_eq!(puzzle.verify(&oversize, &epoch, 0, 0), Err(PuzzleError::TooManySolutions));

    let mut hiding = coinbase.clone();
    hiding.proof.random_v = Some(Scalar::zero());
    assert_eq!(puzzle.verify(&hiding, &epoch, 0, 0), Err(PuzzleError::HidingProof));
}

#[test]
fn verify_enforces_both_targets() {
    let puzzle = sample_puzzle(8);
    let epoch = EpochChallenge::new(0, [0u8; 32], 8).unwrap();
    let solutions = three_solutions(&puzzle, &epoch);
    let coinbase = puzzle.accumulate(&epoch, &solutions).unwrap();
    let targets: Vec<u64> = solutions.iter().map(|s| s.to_target().unwrap()).collect();
    let total: u128 = targets.iter().map(|t| *t as u128).sum();
    assert_eq!(coinbase.to_cumulative_target(), Some(total));
    let least = *targets.iter().min().unwrap();
    assert_eq!(puzzle.verify(&coinbase, &epoch, 0, least), Ok(true));
    if least < u64::MAX {
        assert_eq!(puzzle.verify(&coinbase, &epoch, 0, least + 1), Err(PuzzleError::DifficultyNotMet));
    }
    if total <= u64::MAX as u128 {
        assert_eq!(puzzle.verify(&coinbase, &epoch, total as u64, 0), Ok(true));
    }
    if total < u64::MAX as u128 {
        assert_eq!(puzzle.verify(&coinbase, &epoch, total as u64 + 1, 0), Err(PuzzleError::DifficultyNotMet));
    }
}

#[test]
fn product_domain_sizes() {
    assert_eq!(product_domain_size(0), Err(PuzzleError::InvalidDegree));
    assert_eq!(product_domain_size(1), Ok(4));
    assert_eq!(product_domain_size(7), Ok(16));
    assert_eq!(product_domain_size(8), Ok(32));
    assert_eq!(product_domain_size(15), Ok(32));
    assert_eq!(product_domain_size(16), Ok(64));
}

#[test]
fn trim_builds_a_consistent_key() {
    let srs = sample_srs(40);
    let puzzle = CoinbasePuzzle::trim(&srs, PuzzleConfig { degree: 8 }).unwrap();
    let pk = puzzle.coinbase_proving_key().unwrap();
    assert_eq!(pk.product_domain_size, 32);
    assert_eq!(pk.product_domain_elements.len(), 32);
    assert_eq!(pk.lagrange_basis().len(), 32);
    assert_eq!(pk.powers_of_beta_g, srs.powers_of_beta_g[..17].to_vec());
    assert_ne!(pk.lagrange_basis_at_beta_g, srs.powers_of_beta_g[..32].to_vec());
    assert_eq!(pk.verifying_key.g, srs.powers_of_beta_g[0]);
    assert_eq!(pk.verifying_key.h, srs.h);
    assert_eq!(pk.verifying_key.beta_h, srs.beta_h);
    let mut one = [0u8; 32];
    one[0] = 1;
    assert_eq!(pk.product_domain_elements()[0], Scalar { bytes: one });
    assert_ne!(pk.product_domain_elements()[1], Scalar { bytes: one });
}

#[test]
fn trim_rejects_bad_inputs() {
    let srs = sample_srs(20);
    assert_eq!(CoinbasePuzzle::trim(&srs, PuzzleConfig { degree: 0 }), Err(PuzzleError::InvalidDegree));
    assert_eq!(CoinbasePuzzle::trim(&srs, PuzzleConfig { degree: 8 }), Err(PuzzleError::CryptoBackend));
    let mut broken = sample_srs(4);
    broken.powers_of_beta_g[2] = vec![0xffu8; 48];
    assert_eq!(CoinbasePuzzle::trim(&broken, PuzzleConfig { degree: 1 }), Err(PuzzleError::CryptoBackend));
}

#[test]
fn malformed_key_points_are_refused() {
    let puzzle = sample_puzzle(8);
    let epoch = EpochChallenge::new(0, [0u8; 32], 8).unwrap();
    let solution = puzzle.prove(&epoch, [0u8; 32], 0).unwrap();
    let coinbase = puzzle.accumulate(&epoch, &vec![solution]).unwrap();
    let mut key = puzzle.coinbase_verifying_key().unwrap().clone();
    key.h = vec![0u8; 3];
    assert_eq!(CoinbasePuzzle::Verifier(Arc::new(key)).verify(&coinbase, &epoch, 0, 0), Err(PuzzleError::CryptoBackend));
    let mut key = puzzle.coinbase_verifying_key().unwrap().clone();
    key.beta_h = key.h.clone();
    assert_eq!(CoinbasePuzzle::Verifier(Arc::new(key)).verify(&coinbase, &epoch, 0, 0), Ok(false));
    let mut broken = coinbase.clone();
    broken.partial_solutions[0].commitment = vec![0xffu8; 48];
    assert_eq!(puzzle.verify(&broken, &epoch, 0, 0), Err(PuzzleError::CryptoBackend));
}

#[test]
fn epoch_of_another_degree_is_refused() {
    let puzzle = sample_puzzle(8);
    let epoch = EpochChallenge::new(0, [0u8; 32], 3).unwrap();
    assert_eq!(puzzle.prove(&epoch, [0u8; 32], 0), Err(PuzzleError::InvalidDegree));
    assert_eq!(EpochChallenge::new(0, [0u8; 32], 0), Err(PuzzleError::InvalidDegree));
}

#[test]
fn epoch_challenge_holds_its_inputs() {
    let epoch = EpochChallenge::new(9, [6u8; 32], 8).unwrap();
    assert_eq!(epoch.epoch_number(), 9);
    assert_eq!(epoch.epoch_block_hash(), [6u8; 32]);
    assert_eq!(epoch.degree(), 8);
    assert_eq!(epoch.epoch_polynomial.len(), 9);
    assert_eq!(epoch.epoch_polynomial_evaluations.len(), 32);
    let mut input = 9u32.to_le_bytes().to_vec();
    input.extend_from_slice(&[6u8; 32]);
    assert_eq!(epoch.epoch_polynomial[0], expected_coefficient(&input, 0));
    assert_eq!(epoch.epoch_polynomial[8], expected_coefficient(&input, 8));
    assert_ne!(epoch.epoch_polynomial_evaluations, epoch.epoch_polynomial);
}

#[test]
fn epoch_evaluations_are_values_of_the_polynomial() {
    let puzzle = sample_puzzle(8);
    let pk = puzzle.coinbase_proving_key().unwrap();
    let epoch = EpochChallenge::new(4, [1u8; 32], 8).unwrap();
    assert!(epoch.is_well_formed());
    assert!(puzzle.is_well_formed());
    let coefficients: Vec<Fr> = epoch.epoch_polynomial.iter().map(to_fr).collect();
    for (element, evaluation) in pk.product_domain_elements.iter().zip(epoch.epoch_polynomial_evaluations.iter()) {
        let point = to_fr(element);
        let mut value = Fr::from(0u64);
        for coefficient in coefficients.iter().rev() {
            value = value * point + coefficient;
        }
        assert_eq!(to_fr(evaluation), value);
    }
}

#[test]
fn domain_elements_are_powers_of_a_root_of_unity() {
    let puzzle = sample_puzzle(8);
    let pk = puzzle.coinbase_proving_key().unwrap();
    let generator = to_fr(&pk.product_domain_elements[1]);
    let mut power = Fr::from(1u64);
    for element in pk.product_domain_elements.iter() {
        assert_eq!(to_fr(element), power);
        power = power * generator;
    }
    assert_eq!(power, Fr::from(1u64));
    assert_ne!(generator, Fr::from(1u64));
}

#[test]
fn ill_formed_values_are_told_apart() {
    let puzzle = sample_puzzle(8);
    let mut epoch = EpochChallenge::new(4, [1u8; 32], 8).unwrap();
    epoch.epoch_polynomial_evaluations.pop();
    assert!(!epoch.is_well_formed());
    let mut pk = puzzle.coinbase_proving_key().unwrap().clone();
    pk.product_domain_size = 31;
    assert!(!pk.is_well_formed());
    assert!(!CoinbasePuzzle::Prover(Arc::new(pk)).is_well_formed());
    assert!(verifier_of(&puzzle).is_well_formed());
}

#[test]
fn prover_polynomial_hashes_the_layout() {
    let epoch = EpochChallenge::new(0x01020304, [0xabu8; 32], 8).unwrap();
    let polynomial = CoinbasePuzzle::prover_polynomial(&epoch, [0xcdu8; 32], 0x1122334455667788).unwrap();
    let mut input = vec![0x04u8, 0x03, 0x02, 0x01];
    input.extend_from_slice(&[0xabu8; 32]);
    input.extend_from_slice(&[0xcdu8; 32]);
    input.extend_from_slice(&[0x88u8, 0x77, 0x66, 0x55, 0x44, 0x33, 0x22, 0x11]);
    assert_eq!(input.len(), 76);
    assert_eq!(polynomial.len(), 9);
    for (counter, coefficient) in polynomial.iter().enumerate() {
        assert_eq!(*coefficient, expected_coefficient(&input, counter as u32));
    }
}

#[test]
fn hashing_is_a_function_of_its_input() {
    let input = vec![1u8, 2, 3];
    let polynomial = hash_to_polynomial(&input, 4);
    assert_eq!(polynomial.len(), 5);
    assert_eq!(polynomial, hash_to_polynomial(&input, 4));
    assert_eq!(polynomial[..3].to_vec(), hash_to_coefficients(&input, 3));
    assert_eq!(polynomial[2], expected_coefficient(&input, 2));
    assert_ne!(polynomial, hash_to_polynomial(&vec![1u8, 2, 4], 4));
    assert!(hash_to_coefficients(&input, 0).is_empty());
    assert_eq!(hash_commitment(&input), expected_coefficient(&input, 0));
}

#[test]
fn commitment_challenges_follow_the_order() {
    let a = vec![1u8; 48];
    let b = vec![2u8; 48];
    let c = vec![3u8; 48];
    for k in 0..4usize {
        let list: Vec<Vec<u8>> = [a.clone(), b.clone(), c.clone()][..k].to_vec();
        assert_eq!(hash_commitments(&list).len(), k + 1);
    }
    let forward = hash_commitments(&vec![a.clone(), b.clone()]);
    assert_eq!(forward, hash_commitments(&vec![a.clone(), b.clone()]));
    assert_ne!(forward, hash_commitments(&vec![b.clone(), a.clone()]));
    let mut transcript = a.clone();
    transcript.extend_from_slice(&b);
    assert_eq!(forward[2], expected_coefficient(&transcript, 2));
}

#[test]
fn error_messages_are_distinct() {
    let all = [
        PuzzleError::WrongRole,
        PuzzleError::InvalidDegree,
        PuzzleError::EmptySolutions,
        PuzzleError::TooManySolutions,
        PuzzleError::HidingProof,
        PuzzleError::DifficultyNotMet,
        PuzzleError::MalformedChallenge,
        PuzzleError::CryptoBackend,
    ];
    for (i, a) in all.iter().enumerate() {
        assert!(!a.message().is_empty());
        for b in all.iter().skip(i + 1) {
            assert_ne!(a.message(), b.message());
        }
    }
}
