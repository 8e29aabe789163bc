//! Canonical body ordering.
//!
//! A system is described by an ordered list of full bodies (whose mutual
//! gravity is modelled) followed by an ordered list of small bodies
//! (massless test particles).  Their concatenation fixes the index of every
//! body in the flattened state vector and in the mass vector.

use vstd::prelude::*;

verus! {

/// Concatenates the full-body list and the small-body list into the
/// canonical body ordering.
pub fn concat_bodies(full: &Vec<i32>, small: &Vec<i32>) -> (r: Vec<i32>)
    ensures
        r@ == full@ + small@,
{
    let mut out: Vec<i32> = Vec::new();
    let mut i: usize = 0;
    while i < full.len()
        invariant
            i <= full.len(),
            out@ == full@.subrange(0, i as int),
        decreases full.len() - i,
    {
        out.push(full[i]);
        proof {
            assert(out@ =~= full@.subrange(0, i + 1));
        }
        i = i + 1;
    }
    let mut j: usize = 0;
    while j < small.len()
        invariant
            j <= small.len(),
            out@ == full@ + small@.subrange(0, j as int),
        decreases small.len() - j,
    {
        out.push(small[j]);
        proof {
            assert(out@ =~= full@ + small@.subrange(0, j + 1));
        }
        j = j + 1;
    }
    proof {
        assert(full@.subrange(0, full@.len() as int) =~= full@);
        assert(small@.subrange(0, small@.len() as int) =~= small@);
        assert(out@ =~= full@ + small@);
    }
    out
}

/// Index of the first occurrence of `id` in `bodies`, if any.
///
/// The observing body's slot in the state vector is found this way, as is
/// the decision whether a body gets its own SPK segment.
pub fn position_of(bodies: &Vec<i32>, id: i32) -> (r: Option<usize>)
    ensures
        match r {
            Some(i) => i < bodies@.len() && bodies@[i as int] == id && forall|j: int|
                0 <= j < i ==> bodies@[j] != id,
            None => forall|j: int| 0 <= j < bodies@.len() ==> bodies@[j] != id,
        },
{
    let mut i: usize = 0;
    while i < bodies.len()
        invariant
            i <= bodies.len(),
            forall|j: int| 0 <= j < i ==> bodies@[j] != id,
        decreases bodies.len() - i,
    {
        if bodies[i] == id {
            return Some(i);
        }
        i = i + 1;
    }
    None
}

/// Builds the mass vector matching the canonical body ordering: the
/// gravitational parameters of the full bodies in order, then `zero` for
/// every small body.  Generic in the scalar so that the numeric driver
/// supplies its own zero.
pub fn masses_with_zero_tail<T: Copy>(full_mus: &Vec<T>, zero: T, n: usize) -> (r: Vec<T>)
    requires
        full_mus@.len() <= n,
    ensures
        r@.len() == n,
        forall|k: int| 0 <= k < full_mus@.len() ==> r@[k] == full_mus@[k],
        forall|k: int| full_mus@.len() <= k < n ==> r@[k] == zero,
{
    let mut out: Vec<T> = Vec::new();
    let mut i: usize = 0;
    while i < full_mus.len()
        invariant
            full_mus@.len() <= n,
            i <= full_mus@.len(),
            out@.len() == i,
            forall|k: int| 0 <= k < i ==> out@[k] == full_mus@[k],
        decreases full_mus.len() - i,
    {
        out.push(full_mus[i]);
        i = i + 1;
    }
    while i < n
        invariant
            full_mus@.len() <= i <= n,
            out@.len() == i,
            forall|k: int| 0 <= k < full_mus@.len() ==> out@[k] == full_mus@[k],
            forall|k: int| full_mus@.len() <= k < i ==> out@[k] == zero,
        decreases n - i,
    {
        out.push(zero);
        i = i + 1;
    }
    out
}

/// The default observing body: the first entry of the full-body list.
pub fn default_center(bodies: &Vec<i32>) -> (r: i32)
    requires
        bodies@.len() > 0,
    ensures
        r == bodies@[0],
{
    bodies[0]
}

} // verus!
