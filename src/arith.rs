//! Integer helpers shared by the geometry.
use vstd::prelude::*;

verus! {

/// Division rounding toward zero, as Rust's `/` does on signed integers.
pub open spec fn tdiv(a: int, b: int) -> int {
    if a >= 0 {
        a / b
    } else {
        -((-a) / b)
    }
}

/// `v` limited to `[lo, hi]`.
pub open spec fn clamp(v: int, lo: int, hi: int) -> int {
    if v < lo {
        lo
    } else if v > hi {
        hi
    } else {
        v
    }
}

} // verus!

verus! {

/// `a / b` rounded toward zero.
pub fn div_trunc(a: i64, b: i64) -> (r: i64)
    requires
        b != 0,
        -0x1_0000_0000_0000 <= a <= 0x1_0000_0000_0000,
        -0x1_0000_0000_0000 <= b <= 0x1_0000_0000_0000,
    ensures
        r == tdiv(a as int, b as int),
        -0x1_0000_0000_0000 <= r <= 0x1_0000_0000_0000,
        a >= 0 ==> -a <= r <= a,
        a < 0 ==> a <= r <= -a,
{
    proof {
        let m = if b > 0 { b as int } else { -b as int };
        if a >= 0 {
            vstd::arithmetic::div_mod::lemma_div_is_ordered_by_denominator(a as int, 1, m);
            vstd::arithmetic::div_mod::lemma_div_pos_is_pos(a as int, m);
        } else {
            vstd::arithmetic::div_mod::lemma_div_is_ordered_by_denominator(-a as int, 1, m);
            vstd::arithmetic::div_mod::lemma_div_pos_is_pos(-a as int, m);
        }
    }
    if b > 0 {
        a / b
    } else {
        let q = a / (-b);
        proof {
            if a >= 0 {
                assert(a as int / (b as int) == -(a as int / (-b as int))) by (nonlinear_arith)
                    requires
                        a >= 0,
                        b < 0,
                ;
            } else {
                assert((-a) as int / (b as int) == -((-a) as int / (-b as int))) by (nonlinear_arith)
                    requires
                        a < 0,
                        b < 0,
                ;
            }
        }
        -q
    }
}

} // verus!
