//! Planning of SPK type-9 segment writes.
//!
//! After down-sampling, one segment is written per body other than the
//! observing body, in body order: target, center, the `J2000` frame, an
//! identifier naming the pair, and a fixed Lagrange interpolation degree.
//! The functions here fix which bodies get a segment and what the
//! identifier says; the state matrices and epochs that fill the segment
//! are assembled by the numeric driver.

use vstd::prelude::*;

verus! {

/// Degree of the interpolating polynomial recorded in every written
/// segment.
pub const INTERPOLATION_DEGREE: i32 = 7;

/// The inertial frame every segment is expressed in.
pub fn frame_name() -> (r: &'static str)
    ensures
        r@ == "J2000"@,
{
    "J2000"
}

/// The character for the decimal digit `d`.
pub open spec fn digit_char(d: int) -> char {
    if d == 0 {
        '0'
    } else if d == 1 {
        '1'
    } else if d == 2 {
        '2'
    } else if d == 3 {
        '3'
    } else if d == 4 {
        '4'
    } else if d == 5 {
        '5'
    } else if d == 6 {
        '6'
    } else if d == 7 {
        '7'
    } else if d == 8 {
        '8'
    } else {
        '9'
    }
}

/// The decimal digits of a non-negative value, most significant first.
pub open spec fn decimal_digits(v: int) -> Seq<char>
    decreases v,
{
    if v < 10 {
        seq![digit_char(v)]
    } else {
        decimal_digits(v / 10) + seq![digit_char(v % 10)]
    }
}

/// The decimal rendering of an integer, with a leading minus sign when it
/// is negative.
pub open spec fn decimal(v: int) -> Seq<char> {
    if v < 0 {
        seq!['-'] + decimal_digits(-v)
    } else {
        decimal_digits(v)
    }
}

/// The identifier recorded in the segment for `target` observed from
/// `center`.
pub open spec fn segment_label(target: int, center: int) -> Seq<char> {
    "Position of "@ + decimal(target) + " relative to "@ + decimal(center)
}

/// Appends the character for the decimal digit `d`.
fn append_digit(out: &mut String, d: u32)
    requires
        d < 10,
    ensures
        final (out)@ == old(out)@ + seq![digit_char(d as int)],
{
    if d == 0 {
        proof {
            reveal_strlit("0");
            assert("0"@ =~= seq![digit_char(0)]);
        }
        out.append("0");
    } else if d == 1 {
        proof {
            reveal_strlit("1");
            assert("1"@ =~= seq![digit_char(1)]);
        }
        out.append("1");
    } else if d == 2 {
        proof {
            reveal_strlit("2");
            assert("2"@ =~= seq![digit_char(2)]);
        }
        out.append("2");
    } else if d == 3 {
        proof {
            reveal_strlit("3");
            assert("3"@ =~= seq![digit_char(3)]);
        }
        out.append("3");
    } else if d == 4 {
        proof {
            reveal_strlit("4");
            assert("4"@ =~= seq![digit_char(4)]);
        }
        out.append("4");
    } else if d == 5 {
        proof {
            reveal_strlit("5");
            assert("5"@ =~= seq![digit_char(5)]);
        }
        out.append("5");
    } else if d == 6 {
        proof {
            reveal_strlit("6");
            assert("6"@ =~= seq![digit_char(6)]);
        }
        out.append("6");
    } else if d == 7 {
        proof {
            reveal_strlit("7");
            assert("7"@ =~= seq![digit_char(7)]);
        }
        out.append("7");
    } else if d == 8 {
        proof {
            reveal_strlit("8");
            assert("8"@ =~= seq![digit_char(8)]);
        }
        out.append("8");
    } else {
        proof {
            reveal_strlit("9");
            assert("9"@ =~= seq![digit_char(9)]);
        }
        out.append("9");
    }
}

/// Appends the decimal digits of `v`, most significant first.
fn append_u32_decimal(out: &mut String, v: u32)
    ensures
        final (out)@ == old(out)@ + decimal_digits(v as int),
    decreases v,
{
    if v < 10 {
        append_digit(out, v);
    } else {
        append_u32_decimal(out, v / 10);
        append_digit(out, v % 10);
        proof {
            assert(out@ =~= old(out)@ + decimal_digits(v as int));
        }
    }
}

/// Appends the decimal rendering of `v`.
fn append_decimal(out: &mut String, v: i32)
    ensures
        final (out)@ == old(out)@ + decimal(v as int),
{
    if v < 0 {
        proof {
            reveal_strlit("-");
            assert("-"@ =~= seq!['-']);
        }
        out.append("-");
        let wide: i64 = -(v as i64);
        let mag: u32 = wide as u32;
        proof {
            assert(mag == -(v as int));
        }
        append_u32_decimal(out, mag);
        proof {
            assert(out@ =~= old(out)@ + decimal(v as int));
        }
    } else {
        append_u32_decimal(out, v as u32);
    }
}

/// Builds the identifier a segment for `target` observed from `center`
/// carries.
pub fn segment_identifier(target: i32, center: i32) -> (r: String)
    ensures
        r@ == segment_label(target as int, center as int),
{
    let mut s = String::from_str("Position of ");
    append_decimal(&mut s, target);
    s.append(" relative to ");
    append_decimal(&mut s, center);
    proof {
        assert(s@ =~= segment_label(target as int, center as int));
    }
    s
}

/// Number of entries of `s` other than `cb`: how many segments a write
/// of these bodies produces.
pub open spec fn segment_count(s: Seq<i32>, cb: i32) -> nat
    decreases s.len(),
{
    if s.len() == 0 {
        0
    } else {
        segment_count(s.drop_last(), cb) + if s.last() != cb {
            1nat
        } else {
            0nat
        }
    }
}

/// Selects the bodies that get a segment of their own: every body other
/// than the observing one, in body order, paired with its index in the
/// canonical ordering.
pub fn segment_targets(bodies: &Vec<i32>, cb_id: i32) -> (r: Vec<(usize, i32)>)
    ensures
        r@.len() == segment_count(bodies@, cb_id),
        forall|k: int|
            0 <= k < r@.len() ==> (#[trigger] r@[k]).0 < bodies@.len() && bodies@[r@[k].0 as int]
                == r@[k].1 && r@[k].1 != cb_id,
        forall|k1: int, k2: int| 0 <= k1 < k2 < r@.len() ==> r@[k1].0 < r@[k2].0,
        forall|i: int|
            0 <= i < bodies@.len() && bodies@[i] != cb_id ==> exists|k: int|
                0 <= k < r@.len() && (#[trigger] r@[k]).0 == i,
{
    let mut out: Vec<(usize, i32)> = Vec::new();
    let mut i: usize = 0;
    proof {
        assert(bodies@.subrange(0, 0) =~= Seq::<i32>::empty());
    }
    while i < bodies.len()
        invariant
            i <= bodies@.len(),
            out@.len() == segment_count(bodies@.subrange(0, i as int), cb_id),
            forall|k: int|
                0 <= k < out@.len() ==> (#[trigger] out@[k]).0 < i && bodies@[out@[k].0 as int]
                    == out@[k].1 && out@[k].1 != cb_id,
            forall|k1: int, k2: int| 0 <= k1 < k2 < out@.len() ==> out@[k1].0 < out@[k2].0,
            forall|m: int|
                0 <= m < i && bodies@[m] != cb_id ==> exists|k: int|
                    0 <= k < out@.len() && (#[trigger] out@[k]).0 == m,
        decreases bodies.len() - i,
    {
        proof {
            assert(bodies@.subrange(0, i + 1).drop_last() =~= bodies@.subrange(0, i as int));
            assert(bodies@.subrange(0, i + 1).last() == bodies@[i as int]);
        }
        if bodies[i] != cb_id {
            let ghost prev = out@;
            out.push((i, bodies[i]));
            proof {
                assert(out@[out@.len() - 1] == (i, bodies@[i as int]));
                assert forall|m: int| 0 <= m < i + 1 && bodies@[m] != cb_id implies exists|k: int|
                    0 <= k < out@.len() && (#[trigger] out@[k]).0 == m by {
                    if m == i {
                        assert(out@[out@.len() - 1].0 == m);
                    } else {
                        let k = choose|k: int| 0 <= k < prev.len() && (#[trigger] prev[k]).0 == m;
                        assert(out@[k].0 == m);
                    }
                }
            }
        }
        i = i + 1;
    }
    proof {
        assert(bodies@.subrange(0, bodies@.len() as int) =~= bodies@);
    }
    out
}

} // verus!
