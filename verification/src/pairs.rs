//! Enumeration of gravitational interaction pairs.
//!
//! The N-body derivative accumulates, for every unordered pair of distinct
//! bodies, the mutual acceleration contribution once.  The enumeration
//! below fixes which pairs those are and in which order the derivative
//! visits them: all pairs `(i, j)` with `i < j < n`, row by row.

use vstd::prelude::*;

verus! {

/// Row-major order on index pairs.
pub open spec fn pair_before(a: (usize, usize), b: (usize, usize)) -> bool {
    a.0 < b.0 || (a.0 == b.0 && a.1 < b.1)
}

/// `s` holds the pair `(i, j)` somewhere.
pub open spec fn contains_pair(s: Seq<(usize, usize)>, i: usize, j: usize) -> bool {
    exists|k: int| 0 <= k < s.len() && s[k] == (i, j)
}

/// `p` lies lexicographically before the enumeration frontier `(fi, fj)`.
pub open spec fn before_frontier(p: (usize, usize), fi: int, fj: int) -> bool {
    p.0 < fi || (p.0 == fi && p.1 < fj)
}

/// Enumerates every unordered pair of distinct body indices below `n`,
/// each exactly once, in row-major order.
pub fn interaction_pairs(n: usize) -> (r: Vec<(usize, usize)>)
    ensures
        2 * r@.len() == n * (n - 1),
        forall|k: int| 0 <= k < r@.len() ==> (#[trigger] r@[k]).0 < r@[k].1 && r@[k].1 < n,
        forall|k1: int, k2: int| 0 <= k1 < k2 < r@.len() ==> pair_before(r@[k1], r@[k2]),
        forall|i: usize, j: usize| i < j && j < n ==> contains_pair(r@, i, j),
{
    let mut out: Vec<(usize, usize)> = Vec::new();
    let mut i: usize = 0;
    while i < n
        invariant
            i <= n,
            2 * out@.len() == i * (2 * n - i - 1),
            forall|k: int|
                0 <= k < out@.len() ==> (#[trigger] out@[k]).0 < out@[k].1 && out@[k].1 < n
                    && before_frontier(out@[k], i as int, i + 1),
            forall|k1: int, k2: int| 0 <= k1 < k2 < out@.len() ==> pair_before(
                out@[k1],
                out@[k2],
            ),
            forall|a: usize, b: usize|
                a < b && b < n && before_frontier((a, b), i as int, i + 1) ==> contains_pair(
                    out@,
                    a,
                    b,
                ),
        decreases n - i,
    {
        let mut j: usize = i + 1;
        while j < n
            invariant
                i < n,
                i + 1 <= j <= n,
                2 * out@.len() == i * (2 * n - i - 1) + 2 * (j - i - 1),
                forall|k: int|
                    0 <= k < out@.len() ==> (#[trigger] out@[k]).0 < out@[k].1 && out@[k].1 < n
                        && before_frontier(out@[k], i as int, j as int),
                forall|k1: int, k2: int| 0 <= k1 < k2 < out@.len() ==> pair_before(
                    out@[k1],
                    out@[k2],
                ),
                forall|a: usize, b: usize|
                    a < b && b < n && before_frontier((a, b), i as int, j as int)
                        ==> contains_pair(out@, a, b),
            decreases n - j,
        {
            let ghost prev = out@;
            out.push((i, j));
            proof {
                assert(out@[out@.len() - 1] == (i, j));
                assert forall|a: usize, b: usize|
                    a < b && b < n && before_frontier((a, b), i as int, j + 1) implies contains_pair(
                    out@,
                    a,
                    b,
                ) by {
                    if a == i && b == j {
                        assert(out@[out@.len() - 1] == (a, b));
                    } else {
                        assert(contains_pair(prev, a, b));
                        let k = choose|k: int| 0 <= k < prev.len() && prev[k] == (a, b);
                        assert(out@[k] == (a, b));
                    }
                }
            }
            j = j + 1;
        }
        proof {
            assert(2 * out@.len() == (i + 1) * (2 * n - i - 2)) by (nonlinear_arith)
                requires
                    2 * out@.len() == i * (2 * n - i - 1) + 2 * (n - i - 1),
            ;
        }
        i = i + 1;
    }
    proof {
        assert(i * (2 * n - i - 1) == n * (n - 1)) by (nonlinear_arith)
            requires
                i == n,
        ;
    }
    out
}

} // verus!
