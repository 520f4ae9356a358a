//! The component triple carried through the chain.
//!
//! A site's magnetization is a 3-vector; the library transports its
//! components as opaque 64-bit words and never interprets them numerically.
//! Two values are the same moment exactly when their three words agree, so
//! every structural statement below (which site a stencil reads, where a
//! component lands in a flattened slice) is exact down to the bit.

use vstd::prelude::*;

verus! {

/// A 3-vector whose components are held as opaque 64-bit words.
#[derive(Clone, Copy, PartialEq, Eq, Structural, Debug)]
pub struct Vec3 {
    pub x: u64,
    pub y: u64,
    pub z: u64,
}

/// A chain snapshot is uniform when every site holds the same value as site 0.
pub open spec fn is_uniform(c: Seq<Vec3>) -> bool {
    forall|i: int| 0 <= i < c.len() ==> #[trigger] c[i] == c[0]
}

/// Builds the initial configuration: a chain of `n` sites, every one holding
/// the same moment `m` (a uniform tilt).
pub fn uniform_chain(m: Vec3, n: usize) -> (r: Vec<Vec3>)
    ensures
        r@.len() == n,
        forall|i: int| 0 <= i < n ==> r@[i] == m,
        is_uniform(r@),
{
    let mut r: Vec<Vec3> = Vec::new();
    let mut k: usize = 0;
    while k < n
        invariant
            k <= n,
            r@.len() == k,
            forall|i: int| 0 <= i < k ==> r@[i] == m,
        decreases n - k,
    {
        r.push(m);
        k = k + 1;
    }
    r
}

} // verus!
