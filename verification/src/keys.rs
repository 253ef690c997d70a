use vstd::prelude::*;
use crate::bytes::byte_seqs;
use crate::field::Scalar;
use crate::kzg::is_pow2;
use crate::solution::copy_bytes;

verus! {

/// What the puzzle reads of a universal reference string: the powers of the secret
/// point in the first group, from the zeroth on, and the generator of the second
/// group with its multiple by the secret point. All points are held in their
/// compressed encoding.
#[derive(Clone, Debug, PartialEq, Eq)]
pub struct UniversalSrs {
    pub powers_of_beta_g: Vec<Vec<u8>>,
    pub h: Vec<u8>,
    pub beta_h: Vec<u8>,
}

/// The key that checks an opening: the generator of the first group, the generator
/// of the second group and its multiple by the secret point. The key is for
/// non-hiding proofs, so its blinding generator is the zero point and is not held.
#[derive(Clone, Debug, PartialEq, Eq)]
pub struct CoinbaseVerifyingKey {
    pub g: Vec<u8>,
    pub h: Vec<u8>,
    pub beta_h: Vec<u8>,
}

/// The key that commits and opens: the powers of the secret point that a product
/// polynomial needs, the size and the elements of the product domain, the Lagrange
/// basis of that domain at the secret point, and the verifying key. The domain and
/// the roots that its transform uses follow from the size and are not held.
#[derive(Clone, Debug, PartialEq, Eq)]
pub struct CoinbaseProvingKey {
    pub powers_of_beta_g: Vec<Vec<u8>>,
    pub product_domain_size: usize,
    pub product_domain_elements: Vec<Scalar>,
    pub lagrange_basis_at_beta_g: Vec<Vec<u8>>,
    pub verifying_key: CoinbaseVerifyingKey,
}

impl CoinbaseProvingKey {
    /// The domain's size is a power of two, and the key holds one domain element and
    /// one basis point for each element of the domain.
    pub open spec fn wf(&self) -> bool {
        &&& is_pow2(self.product_domain_size as nat)
        &&& self.product_domain_elements.len() == self.product_domain_size
        &&& self.lagrange_basis_at_beta_g.len() == self.product_domain_size
    }

    /// Whether the key is well formed.
    pub fn is_well_formed(&self) -> (r: bool)
        ensures
            r == self.wf(),
    {
        is_power_of_two(self.product_domain_size) && self.product_domain_elements.len()
            == self.product_domain_size && self.lagrange_basis_at_beta_g.len() == self.product_domain_size
    }

    /// The points of the Lagrange basis.
    pub fn lagrange_basis(&self) -> (r: &Vec<Vec<u8>>)
        ensures
            r == &self.lagrange_basis_at_beta_g,
    {
        &self.lagrange_basis_at_beta_g
    }

    /// The elements of the product domain.
    pub fn product_domain_elements(&self) -> (r: &Vec<Scalar>)
        ensures
            r == &self.product_domain_elements,
    {
        &self.product_domain_elements
    }
}

/// Whether `n` is a power of two.
pub fn is_power_of_two(n: usize) -> (r: bool)
    ensures
        r == is_pow2(n as nat),
{
    if n == 0 {
        return false;
    }
    let mut m: usize = n;
    while m > 1 && m % 2 == 0
        invariant
            m >= 1,
            is_pow2(m as nat) == is_pow2(n as nat),
        decreases m,
    {
        m = m / 2;
    }
    m == 1
}

/// A copy of the first `count` byte vectors of `items`.
pub fn copy_prefix(items: &Vec<Vec<u8>>, count: usize) -> (out: Vec<Vec<u8>>)
    requires
        count <= items.len(),
    ensures
        out.len() == count,
        byte_seqs(out@) == byte_seqs(items@).take(count as int),
{
    let mut out: Vec<Vec<u8>> = Vec::new();
    let mut i: usize = 0;
    while i < count
        invariant
            0 <= i <= count <= items.len(),
            out.len() == i,
            forall|j: int| 0 <= j < i ==> (#[trigger] out[j])@ == items[j]@,
        decreases count - i,
    {
        out.push(copy_bytes(&items[i]));
        i += 1;
    }
    proof {
        assert(byte_seqs(out@) =~= byte_seqs(items@).take(count as int));
    }
    out
}

} // verus!
