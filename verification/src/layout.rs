//! Layout of the persisted time series.
//!
//! The run's output is a five-axis array with logical axes
//! time × z × y × x × component, of shape `(T+1, 1, 1, N, 3)` for `T` steps
//! over a chain of `N` sites, written one time slice at a time.  A slice is
//! the chain flattened site-major with the three components of each site
//! interleaved.  This module fixes those shapes, the addressing of one
//! slice, and the flattening, and validates a declared store shape against
//! the run's dimensions before the time loop starts.

use vstd::prelude::*;

use crate::vec3::Vec3;

verus! {

/// The shape of the whole series: `(n_steps + 1, 1, 1, n, 3)`.
pub open spec fn spec_series_shape(n_steps: u64, n: u64) -> Seq<u64> {
    seq![(n_steps + 1) as u64, 1u64, 1u64, n, 3u64]
}

/// The shape of one chunk of the series, one full time slice:
/// `(1, 1, 1, n, 3)`.
pub open spec fn spec_chunk_shape(n: u64) -> Seq<u64> {
    seq![1u64, 1u64, 1u64, n, 3u64]
}

/// The half-open ranges, one per axis, that address the slice of time
/// index `t`: the full spatial and component extent at that single time.
pub open spec fn spec_slice_ranges(t: u64, n: u64) -> Seq<(u64, u64)> {
    seq![(t, (t + 1) as u64), (0u64, 1u64), (0u64, 1u64), (0u64, n), (0u64, 3u64)]
}

/// Builds the series shape `(n_steps + 1, 1, 1, n, 3)`.
pub fn series_shape(n_steps: u64, n: u64) -> (r: Vec<u64>)
    requires
        n_steps < u64::MAX,
    ensures
        r@ == spec_series_shape(n_steps, n),
{
    let mut r: Vec<u64> = Vec::new();
    r.push(n_steps + 1);
    r.push(1);
    r.push(1);
    r.push(n);
    r.push(3);
    proof {
        assert(r@ =~= spec_series_shape(n_steps, n));
    }
    r
}

/// Builds the chunk shape `(1, 1, 1, n, 3)`: one time slice per chunk.
pub fn chunk_shape(n: u64) -> (r: Vec<u64>)
    ensures
        r@ == spec_chunk_shape(n),
{
    let mut r: Vec<u64> = Vec::new();
    r.push(1);
    r.push(1);
    r.push(1);
    r.push(n);
    r.push(3);
    proof {
        assert(r@ =~= spec_chunk_shape(n));
    }
    r
}

/// Builds the per-axis ranges addressing the slice of time index `t` in a
/// series over a chain of `n` sites.
pub fn slice_ranges(t: u64, n: u64) -> (r: Vec<(u64, u64)>)
    requires
        t < u64::MAX,
    ensures
        r@ == spec_slice_ranges(t, n),
{
    let mut r: Vec<(u64, u64)> = Vec::new();
    r.push((t, t + 1));
    r.push((0, 1));
    r.push((0, 1));
    r.push((0, n));
    r.push((0, 3));
    proof {
        assert(r@ =~= spec_slice_ranges(t, n));
    }
    r
}

/// A declared store shape that does not match the run's dimensions: either
/// the wrong number of axes, or a first axis whose extent differs from the
/// expected one.
#[derive(Clone, Copy, PartialEq, Eq, Structural, Debug)]
pub enum ShapeError {
    Rank { expected: usize, actual: usize },
    Extent { axis: usize, expected: u64, actual: u64 },
}

/// Validates a declared store shape against the run's dimensions, before
/// the time loop starts.  Accepts exactly the shape
/// `(n_steps + 1, 1, 1, n, 3)`; a mismatch is reported with the offending
/// axis and both extents, never silently truncated or padded.
pub fn check_series_shape(shape: &Vec<u64>, n_steps: u64, n: u64) -> (r: Result<
    (),
    ShapeError,
>)
    requires
        n_steps < u64::MAX,
    ensures
        r is Ok <==> shape@ =~= spec_series_shape(n_steps, n),
        (match r {
            Ok(()) => true,
            Err(ShapeError::Rank { expected, actual }) => expected == 5 && actual == shape@.len()
                && shape@.len() != 5,
            Err(ShapeError::Extent { axis, expected, actual }) => shape@.len() == 5 && axis < 5
                && expected == spec_series_shape(n_steps, n)[axis as int] && actual
                == shape@[axis as int] && expected != actual,
        }),
{
    let want = series_shape(n_steps, n);
    if shape.len() != want.len() {
        return Err(ShapeError::Rank { expected: want.len(), actual: shape.len() });
    }
    let mut j: usize = 0;
    while j < want.len()
        invariant
            want@ == spec_series_shape(n_steps, n),
            shape@.len() == want@.len(),
            want@.len() == 5,
            j <= 5,
            forall|a: int| 0 <= a < j ==> shape@[a] == want@[a],
        decreases want@.len() - j,
    {
        if shape[j] != want[j] {
            return Err(ShapeError::Extent { axis: j, expected: want[j], actual: shape[j] });
        }
        j = j + 1;
    }
    proof {
        assert(shape@ =~= spec_series_shape(n_steps, n));
    }
    Ok(())
}

/// Length of the flattened slice of a chain of `n` sites: three interleaved
/// components per site.
pub fn flat_len(n: usize) -> (r: usize)
    requires
        n * 3 <= usize::MAX,
    ensures
        r == 3 * n,
{
    3 * n
}

/// Flattens a chain snapshot into one slice, site-major, the components of
/// site `i` at positions `3·i`, `3·i + 1`, `3·i + 2` in x, y, z order.
pub fn flatten(chain: &Vec<Vec3>) -> (r: Vec<u64>)
    requires
        chain@.len() * 3 <= usize::MAX,
    ensures
        r@.len() == 3 * chain@.len(),
        forall|i: int|
            0 <= i < chain@.len() ==> r@[3 * i] == (#[trigger] chain@[i]).x && r@[3 * i + 1]
                == chain@[i].y && r@[3 * i + 2] == chain@[i].z,
{
    let mut r: Vec<u64> = Vec::new();
    let mut k: usize = 0;
    while k < chain.len()
        invariant
            k <= chain@.len(),
            chain@.len() * 3 <= usize::MAX,
            r@.len() == 3 * k,
            forall|i: int|
                0 <= i < k ==> r@[3 * i] == (#[trigger] chain@[i]).x && r@[3 * i + 1]
                    == chain@[i].y && r@[3 * i + 2] == chain@[i].z,
        decreases chain@.len() - k,
    {
        let m = chain[k];
        r.push(m.x);
        r.push(m.y);
        r.push(m.z);
        k = k + 1;
    }
    r
}

} // verus!
