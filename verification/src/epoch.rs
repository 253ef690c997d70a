use vstd::prelude::*;
use crate::bytes::{push_bytes, push_u32_le, u32_le};
use crate::error::PuzzleError;
use crate::field::{values, Scalar};
use crate::hash::{hash_to_polynomial, is_expansion};
use crate::kzg::{all_canonical, domain_fft, fft_evaluations, is_pow2};

verus! {

/// The degree of the puzzle's polynomials.
#[derive(Clone, Copy, Debug, PartialEq, Eq, Structural)]
pub struct PuzzleConfig {
    pub degree: u32,
}

/// The least power of two, among `m` and its doublings, that is at least `target`.
pub open spec fn pow2_at_least(target: nat, m: nat) -> nat
    decreases (if m < target { target - m } else { 0 }),
{
    if 0 < m < target {
        pow2_at_least(target, m + m)
    } else {
        m
    }
}

/// The size of the product domain for polynomials of the given degree: the least
/// power of two that holds the `2 * degree + 1` coefficients of a product.
pub open spec fn domain_size(degree: nat) -> nat {
    pow2_at_least(2 * degree + 1, 1)
}

/// The size of the product domain for the given degree. A degree of zero is
/// refused, and so is a domain whose size this machine cannot hold.
pub fn product_domain_size(degree: u32) -> (r: Result<usize, PuzzleError>)
    ensures
        match r {
            Ok(m) => degree >= 1 && m == domain_size(degree as nat) && is_pow2(m as nat) && 2 * degree + 1 <= m,
            Err(e) => e == PuzzleError::InvalidDegree && (degree == 0 || domain_size(degree as nat) > usize::MAX),
        },
{
    if degree == 0 {
        return Err(PuzzleError::InvalidDegree);
    }
    let target: u64 = 2 * (degree as u64) + 1;
    let mut m: u64 = 1;
    while m < target
        invariant
            1 <= m < 0x4_0000_0000,
            target < 0x2_0000_0000,
            is_pow2(m as nat),
            pow2_at_least(target as nat, m as nat) == pow2_at_least(target as nat, 1),
        decreases 0x4_0000_0000 - m,
    {
        proof {
            assert(is_pow2((2 * m) as nat)) by {
                assert((2 * m) as nat / 2 == m as nat);
            }
        }
        m = 2 * m;
    }
    if m > usize::MAX as u64 {
        return Err(PuzzleError::InvalidDegree);
    }
    Ok(m as usize)
}

/// The bytes from which an epoch's polynomial is derived: the epoch number in
/// little-endian order, then the block hash.
pub open spec fn epoch_input(epoch_number: u32, epoch_block_hash: Seq<u8>) -> Seq<u8> {
    u32_le(epoch_number) + epoch_block_hash
}

/// The public challenge of one epoch: its number and block hash, the polynomial
/// derived from them, and that polynomial's values on the product domain.
#[derive(Clone, Debug, PartialEq, Eq)]
pub struct EpochChallenge {
    pub epoch_number: u32,
    pub epoch_block_hash: [u8; 32],
    pub degree: u32,
    pub epoch_polynomial: Vec<Scalar>,
    pub epoch_polynomial_evaluations: Vec<Scalar>,
}

impl EpochChallenge {
    /// The polynomial has `degree + 1` coefficients, and there is one evaluation for
    /// each element of the product domain of that degree.
    pub open spec fn wf(&self) -> bool {
        &&& self.degree >= 1
        &&& self.epoch_polynomial.len() == self.degree + 1
        &&& self.epoch_polynomial_evaluations.len() == domain_size(self.degree as nat)
    }

    /// The evaluations are the values of the polynomial on the product domain.
    pub open spec fn consistent(&self) -> bool {
        fft_evaluations(domain_size(self.degree as nat), values(self.epoch_polynomial@)) == Some(
            values(self.epoch_polynomial_evaluations@),
        )
    }

    /// Whether the challenge is well formed.
    pub fn is_well_formed(&self) -> (r: bool)
        ensures
            r == self.wf(),
    {
        match product_domain_size(self.degree) {
            Ok(size) => self.epoch_polynomial_evaluations.len() == size && self.epoch_polynomial.len() >= 1
                && self.epoch_polynomial.len() - 1 == self.degree as usize,
            Err(_) => false,
        }
    }

    /// Derives the challenge of an epoch for polynomials of the given degree.
    /// Fails where the degree has no product domain.
    pub fn new(epoch_number: u32, epoch_block_hash: [u8; 32], degree: u32) -> (r: Result<
        EpochChallenge,
        PuzzleError,
    >)
        ensures
            match r {
                Ok(c) => {
                    &&& c.wf()
                    &&& c.consistent()
                    &&& c.epoch_number == epoch_number
                    &&& c.epoch_block_hash == epoch_block_hash
                    &&& c.degree == degree
                    &&& is_expansion(
                        c.epoch_polynomial@,
                        epoch_input(epoch_number, epoch_block_hash@),
                        degree as nat + 1,
                    )
                    &&& all_canonical(c.epoch_polynomial_evaluations@)
                },
                Err(e) => e == PuzzleError::InvalidDegree,
            },
            r is Err <==> (degree == 0 || domain_size(degree as nat) > usize::MAX || fft_evaluations(
                domain_size(degree as nat),
                crate::hash::hash_coefficients_spec(epoch_input(epoch_number, epoch_block_hash@), degree as nat + 1),
            ) is None),
    {
        let size = match product_domain_size(degree) {
            Ok(size) => size,
            Err(e) => {
                return Err(e);
            },
        };
        let mut input: Vec<u8> = Vec::new();
        push_u32_le(&mut input, epoch_number);
        push_bytes(&mut input, epoch_block_hash.as_slice());
        let epoch_polynomial = hash_to_polynomial(&input, degree);
        proof {
            assert(values(epoch_polynomial@) =~= crate::hash::hash_coefficients_spec(
                epoch_input(epoch_number, epoch_block_hash@),
                degree as nat + 1,
            ));
        }
        match domain_fft(size, &epoch_polynomial) {
            Some(epoch_polynomial_evaluations) => Ok(
                EpochChallenge { epoch_number, epoch_block_hash, degree, epoch_polynomial, epoch_polynomial_evaluations },
            ),
            None => Err(PuzzleError::InvalidDegree),
        }
    }

    /// The epoch's number.
    pub fn epoch_number(&self) -> (r: u32)
        ensures
            r == self.epoch_number,
    {
        self.epoch_number
    }

    /// The epoch's block hash.
    pub fn epoch_block_hash(&self) -> (r: [u8; 32])
        ensures
            r == self.epoch_block_hash,
    {
        self.epoch_block_hash
    }

    /// The degree of the epoch's polynomial.
    pub fn degree(&self) -> (r: u32)
        ensures
            r == self.degree,
    {
        self.degree
    }
}

} // verus!
