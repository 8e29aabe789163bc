//! Layout of flattened system state vectors.
//!
//! A system of `n` bodies is integrated as one flat vector of `6 n` scalar
//! components: body `i` owns the block `[6 i, 6 i + 6)`, positions first,
//! velocities second.  The functions here assemble such vectors from
//! per-body blocks and slice blocks back out of them; they are generic in
//! the scalar so that the numeric driver can apply them to its own scalar
//! type.

use vstd::prelude::*;

verus! {

/// Length of the flattened state vector for a system of `n` bodies.
pub open spec fn state_width(n: int) -> int {
    6 * n
}

/// Computes the length of the flattened state vector for `n` bodies.
pub fn state_len(n: usize) -> (r: usize)
    requires
        6 * n <= usize::MAX,
    ensures
        r == state_width(n as int),
{
    6 * n
}

/// The block of the body at index `i` within a flattened state.
pub open spec fn block_of<T>(s: Seq<T>, i: int) -> Seq<T> {
    s.subrange(6 * i, 6 * i + 6)
}

/// Copies the six state components of the body at index `idx` out of a
/// flattened state vector.
pub fn extract_block<T: Copy>(state: &Vec<T>, idx: usize) -> (r: Vec<T>)
    requires
        6 * idx + 6 <= state@.len(),
    ensures
        r@ == block_of(state@, idx as int),
        r@.len() == 6,
{
    let n: usize = state.len();
    let start: usize = 6 * idx;
    let mut out: Vec<T> = Vec::new();
    let mut j: usize = start;
    while j < start + 6
        invariant
            n == state@.len(),
            start == 6 * idx,
            start + 6 <= n,
            start <= j <= start + 6,
            out@ == state@.subrange(start as int, j as int),
        decreases start + 6 - j,
    {
        out.push(state[j]);
        proof {
            assert(out@ =~= state@.subrange(start as int, j + 1));
        }
        j = j + 1;
    }
    out
}

/// Holds when every element of `parts` is a six-component block.
pub open spec fn all_blocks<T>(parts: Seq<Vec<T>>) -> bool {
    forall|k: int| 0 <= k < parts.len() ==> (#[trigger] parts[k])@.len() == 6
}

/// Concatenates per-body six-component blocks into one flattened state
/// vector, in body order.
pub fn concat_blocks<T: Copy>(parts: &Vec<Vec<T>>) -> (r: Vec<T>)
    requires
        all_blocks(parts@),
        6 * parts@.len() <= usize::MAX,
    ensures
        r@.len() == 6 * parts@.len(),
        forall|k: int| 0 <= k < parts@.len() ==> block_of(r@, k) == (#[trigger] parts@[k])@,
{
    let mut out: Vec<T> = Vec::new();
    let mut i: usize = 0;
    while i < parts.len()
        invariant
            all_blocks(parts@),
            6 * parts@.len() <= usize::MAX,
            i <= parts@.len(),
            out@.len() == 6 * i,
            forall|k: int| 0 <= k < i ==> block_of(out@, k) == (#[trigger] parts@[k])@,
        decreases parts.len() - i,
    {
        let ghost prev = out@;
        let part = &parts[i];
        let mut j: usize = 0;
        while j < part.len()
            invariant
                part@.len() == 6,
                j <= 6,
                out@ == prev + part@.subrange(0, j as int),
            decreases part.len() - j,
        {
            out.push(part[j]);
            proof {
                assert(out@ =~= prev + part@.subrange(0, j + 1));
            }
            j = j + 1;
        }
        proof {
            assert(part@.subrange(0, 6) =~= part@);
            assert(out@ == prev + part@);
            assert forall|k: int| 0 <= k < i + 1 implies block_of(out@, k) == (
            #[trigger] parts@[k])@ by {
                if k < i {
                    assert(block_of(prev, k) == parts@[k]@);
                    assert(out@.subrange(6 * k, 6 * k + 6) =~= prev.subrange(6 * k, 6 * k + 6));
                } else {
                    assert(out@.subrange(6 * k, 6 * k + 6) =~= part@);
                }
            }
        }
        i = i + 1;
    }
    out
}

/// Extracts, for every sample of a trajectory, the block of the body at
/// index `idx`: the per-sample state history of one body.
pub fn body_rows<T: Copy>(states: &Vec<Vec<T>>, idx: usize) -> (r: Vec<Vec<T>>)
    requires
        forall|k: int| 0 <= k < states@.len() ==> 6 * idx + 6 <= (#[trigger] states@[k])@.len(),
    ensures
        r@.len() == states@.len(),
        forall|k: int| 0 <= k < states@.len() ==> (#[trigger] r@[k])@ == block_of(
            states@[k]@,
            idx as int,
        ),
{
    let mut out: Vec<Vec<T>> = Vec::new();
    let mut k: usize = 0;
    while k < states.len()
        invariant
            forall|m: int| 0 <= m < states@.len() ==> 6 * idx + 6 <= (#[trigger] states@[m])@.len(),
            k <= states@.len(),
            out@.len() == k,
            forall|m: int| 0 <= m < k ==> (#[trigger] out@[m])@ == block_of(
                states@[m]@,
                idx as int,
            ),
        decreases states.len() - k,
    {
        let row = extract_block(&states[k], idx);
        out.push(row);
        k = k + 1;
    }
    out
}

} // verus!
