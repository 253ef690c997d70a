//! The coinbase puzzle: provers commit to the product of an epoch's polynomial with a
//! polynomial derived from their address and a nonce, an aggregator combines many
//! such solutions into one proof, and a verifier checks that proof with one pairing
//! equation. Beside the puzzle stand the two arithmetic instructions of the register
//! machine, on plain literals, and the record of an account. Field and curve
//! arithmetic come from the snarkVM crates; the functions that call them say so in
//! their documentation.

use vstd::prelude::*;

pub mod accumulate;
pub mod algebra;
pub mod bytes;
pub mod epoch;
pub mod error;
pub mod field;
pub mod group;
pub mod hash;
pub mod instructions;
pub mod keys;
pub mod kzg;
pub mod puzzle;
pub mod record;
pub mod solution;
pub mod verify;

verus! {

/// The largest number of prover solutions that one coinbase solution may hold.
pub const MAX_PROVER_SOLUTIONS: usize = 256;

} // verus!
