use vstd::prelude::*;
use blake2::Digest;
use crate::bytes::{byte_seqs, concat_all, concat_bytes, push_bytes, push_u32_le, u32_le};
use crate::field::{field_modulus, le_value, scalar_from_bytes_mod_order, values, Scalar};

verus! {

/// The BLAKE2s-256 digest of a byte string.
pub uninterp spec fn blake2s_256(input: Seq<u8>) -> Seq<u8>;

/// The BLAKE2b-512 digest of a byte string.
pub uninterp spec fn blake2b_512(input: Seq<u8>) -> Seq<u8>;

/// The first eight bytes, read as a little-endian number, of the double SHA-256
/// digest of a byte string.
pub uninterp spec fn sha256d_u64(input: Seq<u8>) -> u64;

/// Calls `Blake2s256::digest` of the blake2 crate. The digest is a function of the
/// input alone.
#[verifier::external_body]
fn blake2s_digest(input: &Vec<u8>) -> (digest: Vec<u8>)
    ensures
        digest@ == blake2s_256(input@),
{
    blake2::Blake2s256::digest(input).to_vec()
}

/// Calls `Blake2b512::digest` of the blake2 crate. The digest is a function of the
/// input alone.
#[verifier::external_body]
fn blake2b_digest(input: &Vec<u8>) -> (digest: Vec<u8>)
    ensures
        digest@ == blake2b_512(input@),
{
    blake2::Blake2b512::digest(input).to_vec()
}

/// Calls `sha256d_to_u64` of snarkvm-algorithms: SHA-256 applied twice, and the first
/// eight bytes of the digest read as a little-endian number.
#[verifier::external_body]
pub(crate) fn sha256d_digest(input: &Vec<u8>) -> (digest: u64)
    ensures
        digest == sha256d_u64(input@),
{
    snarkvm_algorithms::crypto_hash::sha256d_to_u64(input)
}

/// The block that is expanded into the coefficient with the given counter: the
/// seed digest of the input, then the counter in little-endian order.
pub open spec fn coefficient_block(input: Seq<u8>, counter: u32) -> Seq<u8> {
    blake2s_256(input) + u32_le(counter)
}

/// The field element derived from `input` under `counter`.
pub open spec fn hash_coefficient(input: Seq<u8>, counter: u32) -> nat {
    le_value(blake2b_512(coefficient_block(input, counter))) % field_modulus()
}

/// The first `count` field elements derived from `input`.
pub open spec fn hash_coefficients_spec(input: Seq<u8>, count: nat) -> Seq<nat> {
    Seq::new(count, |i: int| hash_coefficient(input, i as u32))
}

/// Whether `coefficients` are the first `count` field elements derived from `input`,
/// each in its canonical encoding.
pub open spec fn is_expansion(coefficients: Seq<Scalar>, input: Seq<u8>, count: nat) -> bool {
    &&& coefficients.len() == count
    &&& forall|i: int|
        0 <= i < count ==> (#[trigger] coefficients[i]).value() == hash_coefficient(input, i as u32)
            && coefficients[i].canonical()
}

/// Hashing to field elements is a function of the input and the count: two
/// expansions of the same input to the same count hold the same elements.
pub proof fn lemma_expansion_unique(first: Seq<Scalar>, second: Seq<Scalar>, input: Seq<u8>, count: nat)
    requires
        is_expansion(first, input, count),
        is_expansion(second, input, count),
    ensures
        values(first) == values(second),
        values(first) == hash_coefficients_spec(input, count),
{
    assert(values(first) =~= hash_coefficients_spec(input, count));
    assert(values(second) =~= hash_coefficients_spec(input, count));
}

/// The challenges of two lists of commitments are the same where the lists hold the
/// same commitments in the same order.
pub proof fn lemma_challenges_follow_the_list(
    first: Seq<Scalar>,
    second: Seq<Scalar>,
    commitments_a: Seq<Seq<u8>>,
    commitments_b: Seq<Seq<u8>>,
)
    requires
        commitments_a == commitments_b,
        is_expansion(first, concat_all(commitments_a), commitments_a.len() + 1),
        is_expansion(second, concat_all(commitments_b), commitments_b.len() + 1),
    ensures
        first.len() == commitments_a.len() + 1,
        values(first) == values(second),
{
    lemma_expansion_unique(first, second, concat_all(commitments_a), commitments_a.len() + 1);
}

fn expand(input: &Vec<u8>, count: u64) -> (coefficients: Vec<Scalar>)
    requires
        count <= 0x1_0000_0000,
    ensures
        is_expansion(coefficients@, input@, count as nat),
{
    let seed = blake2s_digest(input);
    let mut coefficients: Vec<Scalar> = Vec::new();
    let mut i: u64 = 0;
    while i < count
        invariant
            0 <= i <= count,
            count <= 0x1_0000_0000,
            seed@ == blake2s_256(input@),
            is_expansion(coefficients@, input@, i as nat),
        decreases count - i,
    {
        let counter: u32 = i as u32;
        let mut block: Vec<u8> = Vec::new();
        push_bytes(&mut block, seed.as_slice());
        push_u32_le(&mut block, counter);
        proof {
            assert(block@ =~= coefficient_block(input@, counter));
        }
        let digest = blake2b_digest(&block);
        let coefficient = scalar_from_bytes_mod_order(&digest);
        coefficients.push(coefficient);
        i += 1;
    }
    coefficients
}

/// Derives `num_coefficients` field elements from `input`: the input is hashed to a
/// seed once, and the seed is expanded under a running counter.
pub fn hash_to_coefficients(input: &Vec<u8>, num_coefficients: u32) -> (coefficients: Vec<Scalar>)
    ensures
        is_expansion(coefficients@, input@, num_coefficients as nat),
{
    expand(input, num_coefficients as u64)
}

/// Derives the `degree + 1` coefficients of a polynomial from `input`, from the
/// constant term upwards. The top coefficient may be zero.
pub fn hash_to_polynomial(input: &Vec<u8>, degree: u32) -> (coefficients: Vec<Scalar>)
    ensures
        is_expansion(coefficients@, input@, degree as nat + 1),
{
    expand(input, degree as u64 + 1)
}

/// The challenge point of one commitment, given in its compressed encoding.
pub fn hash_commitment(commitment: &Vec<u8>) -> (point: Scalar)
    ensures
        point.value() == hash_coefficient(commitment@, 0),
        point.canonical(),
{
    let coefficients = expand(commitment, 1);
    coefficients[0]
}

/// The challenges of an ordered list of commitments: one for each commitment, and
/// a last one, the accumulator point. They depend on the commitments' bytes in the
/// order given and on nothing else.
pub fn hash_commitments(commitments: &Vec<Vec<u8>>) -> (challenges: Vec<Scalar>)
    requires
        commitments.len() < 0x1_0000_0000,
    ensures
        challenges.len() == commitments.len() + 1,
        is_expansion(challenges@, concat_all(byte_seqs(commitments@)), commitments.len() as nat + 1),
{
    let transcript = concat_bytes(commitments);
    expand(&transcript, commitments.len() as u64 + 1)
}

} // verus!
