use vstd::prelude::*;

verus! {

/// Why an operation of the puzzle failed.
#[derive(Clone, Copy, Debug, PartialEq, Eq, Structural)]
pub enum PuzzleError {
    /// A proving operation was asked of a verifier handle.
    WrongRole,
    /// The degree has no product domain, or does not fit the key in use.
    InvalidDegree,
    /// There is no solution to work on.
    EmptySolutions,
    /// There are more solutions than a coinbase solution may hold.
    TooManySolutions,
    /// A proof carries blinding where it must not.
    HidingProof,
    /// A commitment's target is below the target asked for.
    DifficultyNotMet,
    /// The challenges do not match the commitments in number.
    MalformedChallenge,
    /// The curve arithmetic refused an input, or a commitment has no target.
    CryptoBackend,
}

impl PuzzleError {
    /// A sentence that describes the failure.
    pub fn message(&self) -> (text: &'static str)
        ensures
            text@.len() > 0,
    {
        let text = match self {
            PuzzleError::WrongRole => "the operation needs a proving key",
            PuzzleError::InvalidDegree => "the degree is not supported",
            PuzzleError::EmptySolutions => "there are no solutions",
            PuzzleError::TooManySolutions => "there are too many solutions",
            PuzzleError::HidingProof => "the proof must be non-hiding",
            PuzzleError::DifficultyNotMet => "the target is not met",
            PuzzleError::MalformedChallenge => "the number of challenge points is wrong",
            PuzzleError::CryptoBackend => "the curve arithmetic failed",
        };
        proof {
            reveal_strlit("the operation needs a proving key");
            reveal_strlit("the degree is not supported");
            reveal_strlit("there are no solutions");
            reveal_strlit("there are too many solutions");
            reveal_strlit("the proof must be non-hiding");
            reveal_strlit("the target is not met");
            reveal_strlit("the number of challenge points is wrong");
            reveal_strlit("the curve arithmetic failed");
        }
        text
    }
}

} // verus!
