use vstd::prelude::*;
use crate::bytes::{byte_seqs, push_bytes};
use crate::field::Scalar;
use crate::hash::{sha256d_digest, sha256d_u64};

verus! {

/// The target of a commitment whose digest is `digest`: the largest 64-bit number
/// divided by the digest. A digest of zero has no target.
pub open spec fn target_of_digest(digest: u64) -> Option<u64> {
    if digest == 0 {
        None
    } else {
        Some((u64::MAX / digest) as u64)
    }
}

/// The target of a commitment, given in its compressed encoding.
pub open spec fn target_of(commitment: Seq<u8>) -> Option<u64> {
    target_of_digest(sha256d_u64(commitment))
}

/// The sum of the targets of the first `k` commitments; `None` where one of them
/// has no target.
pub open spec fn cumulative_target_of(commitments: Seq<Seq<u8>>, k: nat) -> Option<nat>
    decreases k,
{
    if k == 0 || k > commitments.len() {
        Some(0)
    } else {
        match (cumulative_target_of(commitments, (k - 1) as nat), target_of(commitments[k - 1])) {
            (Some(sum), Some(target)) => Some(sum + target as nat),
            _ => None,
        }
    }
}

/// Computes the target that belongs to a digest.
pub fn digest_to_target(digest: u64) -> (target: u64)
    requires
        digest != 0,
    ensures
        target_of_digest(digest) == Some(target),
        target == u64::MAX / digest,
{
    u64::MAX / digest
}

/// A copy of a byte vector.
pub fn copy_bytes(src: &Vec<u8>) -> (out: Vec<u8>)
    ensures
        out@ == src@,
{
    let mut out: Vec<u8> = Vec::new();
    push_bytes(&mut out, src.as_slice());
    out
}

/// An evaluation proof of the commitment scheme: the witness commitment in its
/// compressed encoding, and the blinding evaluation that only a hiding proof carries.
#[derive(Clone, Debug, PartialEq, Eq)]
pub struct OpeningProof {
    pub w: Vec<u8>,
    pub random_v: Option<Scalar>,
}

impl OpeningProof {
    /// Whether the proof carries blinding.
    pub open spec fn hiding(&self) -> bool {
        self.random_v is Some
    }

    /// Whether the proof carries blinding.
    pub fn is_hiding(&self) -> (r: bool)
        ensures
            r == self.hiding(),
    {
        self.random_v.is_some()
    }
}

/// What a partial solution holds, as plain values.
pub ghost struct PartialSolutionView {
    pub address: Seq<u8>,
    pub nonce: u64,
    pub commitment: Seq<u8>,
}

/// A prover's address and nonce with the commitment they lead to, the commitment
/// in its compressed encoding.
#[derive(Clone, Debug, PartialEq, Eq)]
pub struct PartialSolution {
    pub address: [u8; 32],
    pub nonce: u64,
    pub commitment: Vec<u8>,
}

impl View for PartialSolution {
    type V = PartialSolutionView;

    open spec fn view(&self) -> PartialSolutionView {
        PartialSolutionView { address: self.address@, nonce: self.nonce, commitment: self.commitment@ }
    }
}

impl PartialSolution {
    /// Puts the three parts together.
    pub fn new(address: [u8; 32], nonce: u64, commitment: Vec<u8>) -> (r: PartialSolution)
        ensures
            r.address == address,
            r.nonce == nonce,
            r.commitment == commitment,
    {
        PartialSolution { address, nonce, commitment }
    }

    /// A copy of the solution.
    pub fn duplicate(&self) -> (r: PartialSolution)
        ensures
            r@ == self@,
    {
        PartialSolution { address: self.address, nonce: self.nonce, commitment: copy_bytes(&self.commitment) }
    }

    /// The solution's own target, `None` where its commitment has none.
    pub fn to_target(&self) -> (target: Option<u64>)
        ensures
            target == target_of(self.commitment@),
    {
        let digest = sha256d_digest(&self.commitment);
        if digest == 0 {
            None
        } else {
            Some(digest_to_target(digest))
        }
    }
}

/// The commitments of a sequence of partial solutions, in order.
pub open spec fn commitments_of(solutions: Seq<PartialSolution>) -> Seq<Seq<u8>> {
    Seq::new(solutions.len(), |i: int| solutions[i].commitment@)
}

/// The plain values of a sequence of partial solutions, in order.
pub open spec fn partial_views(solutions: Seq<PartialSolution>) -> Seq<PartialSolutionView> {
    Seq::new(solutions.len(), |i: int| solutions[i]@)
}

/// The commitments of a sequence of partial solutions given by their plain values.
pub open spec fn view_commitments(parts: Seq<PartialSolutionView>) -> Seq<Seq<u8>> {
    Seq::new(parts.len(), |i: int| parts[i].commitment)
}

/// Copies the commitments out of a list of partial solutions, in order.
pub fn collect_commitments(solutions: &Vec<PartialSolution>) -> (out: Vec<Vec<u8>>)
    ensures
        out.len() == solutions.len(),
        byte_seqs(out@) == commitments_of(solutions@),
        byte_seqs(out@) == view_commitments(partial_views(solutions@)),
{
    let mut out: Vec<Vec<u8>> = Vec::new();
    let mut i: usize = 0;
    while i < solutions.len()
        invariant
            0 <= i <= solutions.len(),
            out.len() == i,
            forall|j: int| 0 <= j < i ==> (#[trigger] out[j])@ == solutions[j].commitment@,
        decreases solutions.len() - i,
    {
        out.push(copy_bytes(&solutions[i].commitment));
        i += 1;
    }
    proof {
        assert(byte_seqs(out@) =~= commitments_of(solutions@));
        assert(byte_seqs(out@) =~= view_commitments(partial_views(solutions@)));
    }
    out
}

/// A partial solution with the proof that opens its commitment.
#[derive(Clone, Debug, PartialEq, Eq)]
pub struct ProverSolution {
    pub partial_solution: PartialSolution,
    pub proof: OpeningProof,
}

impl ProverSolution {
    /// Puts the two parts together.
    pub fn new(partial_solution: PartialSolution, proof: OpeningProof) -> (r: ProverSolution)
        ensures
            r.partial_solution == partial_solution,
            r.proof == proof,
    {
        ProverSolution { partial_solution, proof }
    }

    /// The solution's own target, `None` where its commitment has none.
    pub fn to_target(&self) -> (target: Option<u64>)
        ensures
            target == target_of(self.partial_solution.commitment@),
    {
        self.partial_solution.to_target()
    }
}

/// Partial solutions in a fixed order with one proof for all of them.
#[derive(Clone, Debug, PartialEq, Eq)]
pub struct CoinbaseSolution {
    pub partial_solutions: Vec<PartialSolution>,
    pub proof: OpeningProof,
}

impl CoinbaseSolution {
    /// Puts the two parts together.
    pub fn new(partial_solutions: Vec<PartialSolution>, proof: OpeningProof) -> (r: CoinbaseSolution)
        ensures
            r.partial_solutions == partial_solutions,
            r.proof == proof,
    {
        CoinbaseSolution { partial_solutions, proof }
    }

    /// The number of partial solutions.
    pub fn len(&self) -> (n: usize)
        ensures
            n == self.partial_solutions.len(),
    {
        self.partial_solutions.len()
    }

    /// Whether there is no partial solution.
    pub fn is_empty(&self) -> (r: bool)
        ensures
            r == (self.partial_solutions.len() == 0),
    {
        self.partial_solutions.len() == 0
    }

    /// The sum of the targets of all partial solutions, `None` where a commitment
    /// has no target.
    pub fn to_cumulative_target(&self) -> (total: Option<u128>)
        ensures
            match total {
                Some(t) => cumulative_target_of(
                    commitments_of(self.partial_solutions@),
                    self.partial_solutions.len() as nat,
                ) == Some(t as nat),
                None => cumulative_target_of(
                    commitments_of(self.partial_solutions@),
                    self.partial_solutions.len() as nat,
                ) is None,
            },
    {
        let ghost commitments = commitments_of(self.partial_solutions@);
        let mut total: u128 = 0;
        let mut i: usize = 0;
        while i < self.partial_solutions.len()
            invariant
                0 <= i <= self.partial_solutions.len(),
                commitments == commitments_of(self.partial_solutions@),
                cumulative_target_of(commitments, i as nat) == Some(total as nat),
                total <= i * 0xffff_ffff_ffff_ffff,
            decreases self.partial_solutions.len() - i,
        {
            match self.partial_solutions[i].to_target() {
                Some(target) => {
                    assert((i + 1) * 0xffff_ffff_ffff_ffff <= 0xffff_ffff_ffff_ffff * 0x1_0000_0000_0000_0000)
                        by (nonlinear_arith)
                        requires
                            i < 0xffff_ffff_ffff_ffff,
                    ;
                    assert((i + 1) * 0xffff_ffff_ffff_ffff == i * 0xffff_ffff_ffff_ffff + 0xffff_ffff_ffff_ffff)
                        by (nonlinear_arith);
                    total = total + target as u128;
                },
                None => {
                    proof {
                        lemma_cumulative_none(commitments, (i + 1) as nat, self.partial_solutions.len() as nat);
                    }
                    return None;
                },
            }
            i += 1;
        }
        Some(total)
    }
}

/// Where each of the first `k` commitments has a target, they have a cumulative
/// target.
pub proof fn lemma_cumulative_some(commitments: Seq<Seq<u8>>, k: nat)
    requires
        k <= commitments.len(),
        forall|i: int| 0 <= i < k ==> target_of(#[trigger] commitments[i]) is Some,
    ensures
        cumulative_target_of(commitments, k) is Some,
    decreases k,
{
    if k > 0 {
        lemma_cumulative_some(commitments, (k - 1) as nat);
        assert(target_of(commitments[k - 1]) is Some);
    }
}

/// Once a prefix of the commitments has no cumulative target, no longer prefix has.
pub proof fn lemma_cumulative_none(commitments: Seq<Seq<u8>>, j: nat, k: nat)
    requires
        j <= k <= commitments.len(),
        cumulative_target_of(commitments, j) is None,
    ensures
        cumulative_target_of(commitments, k) is None,
    decreases k,
{
    if j < k {
        lemma_cumulative_none(commitments, j, (k - 1) as nat);
    }
}

} // verus!
