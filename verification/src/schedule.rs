//! Model of the fixed-step advance.
//!
//! The fixed-step integrators start at `t0`, advance by the nominal step
//! `h`, truncate a step that would overshoot `tfinal` to land exactly on
//! it, and emit one point per step taken; the initial point is the
//! caller's to record.  The model here states that schedule with exact
//! time arithmetic, and the laws below pin down how many points are
//! emitted and that the emitted epochs climb strictly up to `tfinal`.

use vstd::arithmetic::div_mod::lemma_div_plus_one;
use vstd::arithmetic::div_mod::lemma_fundamental_div_mod_converse;
use vstd::prelude::*;

verus! {

/// Number of points a fixed-step advance with step `h` emits between
/// `t0` and `tf`.
pub open spec fn fixed_step_count(t0: int, tf: int, h: int) -> nat
    decreases tf - t0,
    when h >= 1

{
    if h < 1 || t0 >= tf {
        0
    } else if t0 + h >= tf {
        1
    } else {
        1 + fixed_step_count(t0 + h, tf, h)
    }
}

/// The epochs a fixed-step advance with step `h` emits between `t0` and
/// `tf`, in the order they are produced.
pub open spec fn fixed_step_times(t0: int, tf: int, h: int) -> Seq<int>
    decreases tf - t0,
    when h >= 1

{
    if h < 1 || t0 >= tf {
        Seq::empty()
    } else if t0 + h >= tf {
        seq![tf]
    } else {
        seq![t0 + h] + fixed_step_times(t0 + h, tf, h)
    }
}

/// Step-count law: a fixed-step advance over a non-empty interval emits
/// exactly the number of steps of size `h` that cover the interval, the
/// last one truncated.
pub proof fn lemma_fixed_step_count(t0: int, tf: int, h: int)
    requires
        h >= 1,
        t0 < tf,
    ensures
        fixed_step_count(t0, tf, h) == (tf - t0 + h - 1) / h,
    decreases tf - t0,
{
    if t0 + h >= tf {
        lemma_fundamental_div_mod_converse(tf - t0 + h - 1, h, 1, tf - t0 - 1);
    } else {
        lemma_fixed_step_count(t0 + h, tf, h);
        lemma_div_plus_one(tf - t0 - h + h - 1, h);
    }
}

/// Schedule law: the emitted epochs are as many as the step count says,
/// climb strictly, stay within `(t0, tf]`, move by at most `h` at a time,
/// and end exactly on `tf`.
pub proof fn lemma_fixed_step_times(t0: int, tf: int, h: int)
    requires
        h >= 1,
        t0 < tf,
    ensures
        fixed_step_times(t0, tf, h).len() == fixed_step_count(t0, tf, h),
        fixed_step_times(t0, tf, h).first() == if t0 + h < tf {
            t0 + h
        } else {
            tf
        },
        fixed_step_times(t0, tf, h).last() == tf,
        forall|k: int|
            0 <= k < fixed_step_times(t0, tf, h).len() ==> t0 < #[trigger] fixed_step_times(
                t0,
                tf,
                h,
            )[k] <= tf,
        forall|k: int|
            0 <= k < fixed_step_times(t0, tf, h).len() - 1 ==> #[trigger] fixed_step_times(
                t0,
                tf,
                h,
            )[k] < fixed_step_times(t0, tf, h)[k + 1] <= fixed_step_times(t0, tf, h)[k] + h,
    decreases tf - t0,
{
    let times = fixed_step_times(t0, tf, h);
    if t0 + h >= tf {
        assert(times =~= seq![tf]);
    } else {
        lemma_fixed_step_times(t0 + h, tf, h);
        let rest = fixed_step_times(t0 + h, tf, h);
        assert(times == seq![t0 + h] + rest);
        assert(times.last() == rest.last());
        assert forall|k: int| 0 <= k < times.len() implies t0 < #[trigger] times[k] <= tf by {
            if k > 0 {
                assert(times[k] == rest[k - 1]);
            }
        }
        assert forall|k: int| 0 <= k < times.len() - 1 implies #[trigger] times[k] < times[k + 1]
            <= times[k] + h by {
            if k == 0 {
                assert(times[1] == rest[0]);
                assert(rest.first() == rest[0]);
            } else {
                assert(times[k] == rest[k - 1]);
                assert(times[k + 1] == rest[k]);
            }
        }
    }
}

} // verus!
