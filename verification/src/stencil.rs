//! The free-boundary exchange stencil.
//!
//! The exchange field at site `i` is built from the discrete second
//! difference of the three moments at `i - 1`, `i`, `i + 1`.  A missing
//! neighbor at either end of the chain is replaced by the boundary site
//! itself (the free boundary condition), so the end sites contribute zero
//! curvature from the missing side.  Which three sites are read is decided
//! here and proved exact; the caller forms the scaled second difference from
//! the triple.

use vstd::prelude::*;

use crate::vec3::Vec3;
use crate::vec3::is_uniform;

verus! {

/// The site read as the left neighbor of `i`: `i - 1`, or `i` itself at the
/// left boundary.
pub open spec fn left_index(i: int) -> int {
    if i == 0 {
        0
    } else {
        i - 1
    }
}

/// The site read as the right neighbor of `i` in a chain of length `n`:
/// `i + 1`, or `i` itself at the right boundary.
pub open spec fn right_index(i: int, n: int) -> int {
    if i + 1 < n {
        i + 1
    } else {
        i
    }
}

/// Reads the stencil `(m[i-1], m[i], m[i+1])` for site `i`, substituting the
/// boundary site itself for a neighbor that falls outside the chain.
pub fn exchange_stencil(chain: &Vec<Vec3>, i: usize) -> (r: (Vec3, Vec3, Vec3))
    requires
        i < chain@.len(),
    ensures
        r.0 == chain@[left_index(i as int)],
        r.1 == chain@[i as int],
        r.2 == chain@[right_index(i as int, chain@.len() as int)],
{
    let n = chain.len();
    let m_i = chain[i];
    let m_left = if i > 0 {
        chain[i - 1]
    } else {
        m_i
    };
    let m_right = if i + 1 < n {
        chain[i + 1]
    } else {
        m_i
    };
    (m_left, m_i, m_right)
}

/// Reads the stencil of every site of a snapshot, in site order: entry `i`
/// of the result is exactly the triple for site `i`, whatever order the
/// per-site work is later performed in.  Each entry depends only on the
/// snapshot and its own index, so the per-site field and right-hand-side
/// evaluations built from these triples are mutually independent.
pub fn chain_stencils(chain: &Vec<Vec3>) -> (r: Vec<(Vec3, Vec3, Vec3)>)
    ensures
        r@.len() == chain@.len(),
        forall|i: int|
            0 <= i < chain@.len() ==> #[trigger] r@[i] == (
                chain@[left_index(i)],
                chain@[i],
                chain@[right_index(i, chain@.len() as int)],
            ),
{
    let n = chain.len();
    let mut r: Vec<(Vec3, Vec3, Vec3)> = Vec::new();
    let mut k: usize = 0;
    while k < n
        invariant
            k <= n,
            n == chain@.len(),
            r@.len() == k,
            forall|i: int|
                0 <= i < k ==> #[trigger] r@[i] == (
                    chain@[left_index(i)],
                    chain@[i],
                    chain@[right_index(i, chain@.len() as int)],
                ),
        decreases n - k,
    {
        let t = exchange_stencil(chain, k);
        r.push(t);
        k = k + 1;
    }
    r
}

/// On a uniform chain the stencil at every site, boundaries included,
/// reads three equal moments, so its second difference is taken of equal
/// terms and the exchange contribution vanishes.
pub proof fn lemma_uniform_stencil(c: Seq<Vec3>, i: int)
    requires
        is_uniform(c),
        0 <= i < c.len(),
    ensures
        c[left_index(i)] == c[i],
        c[right_index(i, c.len() as int)] == c[i],
{
}

/// On a uniform chain every site reads the same stencil triple: the whole
/// chain sees exactly the inputs a single isolated moment would, so one
/// step of the chain updates every site as it would that single moment.
pub proof fn lemma_uniform_sites_agree(c: Seq<Vec3>, i: int, j: int)
    requires
        is_uniform(c),
        0 <= i < c.len(),
        0 <= j < c.len(),
    ensures
        c[left_index(i)] == c[left_index(j)],
        c[i] == c[j],
        c[right_index(i, c.len() as int)] == c[right_index(j, c.len() as int)],
{
    lemma_uniform_stencil(c, i);
    lemma_uniform_stencil(c, j);
}

} // verus!
