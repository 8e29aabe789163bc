//! Down-sampling of propagated trajectories.
//!
//! Before segments are written, the epoch and state sequences are thinned
//! by keeping every `step`-th sample, the first sample always included.
//! The stride is computed by the numeric driver as `floor(1 / fts)` from
//! the fraction of steps to save, so a fraction of `1` keeps everything
//! and a fraction of `0.5` keeps exactly every second sample.

use vstd::arithmetic::div_mod::lemma_fundamental_div_mod;
use vstd::arithmetic::div_mod::lemma_fundamental_div_mod_converse;
use vstd::arithmetic::mul::lemma_mul_by_zero_is_zero;
use vstd::arithmetic::mul::lemma_mul_inequality;
use vstd::arithmetic::mul::lemma_mul_is_distributive_sub_other_way;
use vstd::prelude::*;

verus! {

/// Every `step`-th element of `s`, beginning with index 0.
pub open spec fn downsampled<T>(s: Seq<T>, step: int) -> Seq<T>
    recommends
        step >= 1,
{
    Seq::new((((s.len() + step - 1) / step) as nat), |k: int| s[k * step])
}

/// A count `m` with `(m - 1) * step < n <= m * step` is the number of
/// multiples of `step` below `n`, which the down-sampled length formula
/// computes.
proof fn lemma_kept_count(n: int, step: int, m: int)
    requires
        step >= 1,
        n <= m * step,
        m * step < n + step,
    ensures
        (n + step - 1) / step == m,
{
    lemma_fundamental_div_mod_converse(n + step - 1, step, m, n + step - 1 - m * step);
}

/// Keeps every `step`-th sample of `xs`, the sample at index 0 included.
pub fn downsample<T: Copy>(xs: &Vec<T>, step: usize) -> (r: Vec<T>)
    requires
        step >= 1,
    ensures
        r@ == downsampled(xs@, step as int),
{
    let n: usize = xs.len();
    let mut out: Vec<T> = Vec::new();
    let mut i: usize = 0;
    proof {
        lemma_mul_by_zero_is_zero(step as int);
    }
    while i < n
        invariant
            step >= 1,
            n == xs@.len(),
            i == out@.len() * step,
            i == 0 || i < n + step,
            forall|k: int| 0 <= k < out@.len() ==> out@[k] == xs@[k * step],
        decreases n + step - i,
    {
        out.push(xs[i]);
        proof {
            lemma_mul_is_distributive_sub_other_way(step as int, out@.len() as int, 1);
            assert(i + step == out@.len() * step);
        }
        match i.checked_add(step) {
            Some(next) => {
                i = next;
            },
            None => {
                proof {
                    lemma_kept_count(n as int, step as int, out@.len() as int);
                    assert(out@ =~= downsampled(xs@, step as int));
                }
                return out;
            },
        }
    }
    proof {
        lemma_kept_count(n as int, step as int, out@.len() as int);
        assert(out@ =~= downsampled(xs@, step as int));
    }
    out
}

/// Down-sampling law: a stride of one preserves every sample.
pub proof fn lemma_downsample_all<T>(s: Seq<T>)
    ensures
        downsampled(s, 1) == s,
{
    assert(downsampled(s, 1) =~= s);
}

/// Down-sampling law: a stride of two keeps exactly the samples at even
/// indices, the first one included.
pub proof fn lemma_downsample_pairs<T>(s: Seq<T>)
    ensures
        downsampled(s, 2).len() == (s.len() + 1) / 2,
        forall|k: int| 0 <= k < downsampled(s, 2).len() ==> downsampled(s, 2)[k] == s[2 * k],
{
    assert forall|k: int| 0 <= k < downsampled(s, 2).len() implies downsampled(s, 2)[k] == s[2 * k]
    by {
        assert(k * 2 == 2 * k);
    }
}

/// Down-sampling law: sequences of equal length keep equal length under
/// the same stride, so down-sampled epochs and states stay aligned sample
/// for sample.
pub proof fn lemma_downsample_parallel<A, B>(a: Seq<A>, b: Seq<B>, step: int)
    requires
        step >= 1,
        a.len() == b.len(),
    ensures
        downsampled(a, step).len() == downsampled(b, step).len(),
{
}

/// Within a strictly increasing sequence, any later element exceeds any
/// earlier one.
proof fn lemma_increasing_at_distance(s: Seq<int>, i: int, j: int)
    requires
        forall|k: int| 0 <= k < s.len() - 1 ==> #[trigger] s[k] < s[k + 1],
        0 <= i < j < s.len(),
    ensures
        s[i] < s[j],
    decreases j - i,
{
    if i + 1 < j {
        lemma_increasing_at_distance(s, i, j - 1);
    }
}

/// Down-sampling law: a strictly increasing sequence of epochs stays
/// strictly increasing after down-sampling with any stride.
pub proof fn lemma_downsample_keeps_increasing(s: Seq<int>, step: int)
    requires
        step >= 1,
        forall|k: int| 0 <= k < s.len() - 1 ==> #[trigger] s[k] < s[k + 1],
    ensures
        forall|k: int|
            0 <= k < downsampled(s, step).len() - 1 ==> #[trigger] downsampled(s, step)[k]
                < downsampled(s, step)[k + 1],
{
    let d = downsampled(s, step);
    let n = s.len() as int;
    assert forall|k: int| 0 <= k < d.len() - 1 implies #[trigger] d[k] < d[k + 1] by {
        let c = d.len() as int;
        lemma_fundamental_div_mod(n + step - 1, step);
        vstd::arithmetic::div_mod::lemma_mod_pos_bound(n + step - 1, step);
        assert(step * c <= n + step - 1);
        lemma_mul_inequality(k + 1, c - 1, step);
        vstd::arithmetic::mul::lemma_mul_is_distributive_sub_other_way(step, c, 1);
        vstd::arithmetic::mul::lemma_mul_is_commutative(c, step);
        assert((k + 1) * step < n);
        vstd::arithmetic::mul::lemma_mul_nonnegative(k, step);
        vstd::arithmetic::mul::lemma_mul_strict_inequality(k, k + 1, step);
        lemma_increasing_at_distance(s, k * step, (k + 1) * step);
    }
}

} // verus!
