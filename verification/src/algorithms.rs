//! Exact computation of the floored roots and logarithms at 64-bit width.
//!
//! Every integer type's operation funnels through these three functions: the
//! operand is widened to `u64` (all operands that pass the sign precondition
//! fit), the exact floored result is computed with integer arithmetic alone,
//! and the result is narrowed back, justified by the bounding lemmas here and
//! in [`crate::floors`].

use vstd::prelude::*;
use vstd::arithmetic::power::pow;
use crate::floors::{is_floor_sqrt, is_floor_cbrt, is_floor_log};

verus! {

/// The floored square root of `x`, found by binary search over the result
/// range: `2^32` squared already exceeds every `u64` operand.
pub fn sqrt_u64(x: u64) -> (r: u64)
    ensures
        is_floor_sqrt(x as int, r as int),
{
    let mut lo: u64 = 0;
    let mut hi: u64 = 0x1_0000_0000;
    while hi - lo > 1
        invariant
            lo < hi <= 0x1_0000_0000,
            (lo as int) * (lo as int) <= x as int,
            (x as int) < (hi as int) * (hi as int),
        decreases hi - lo,
    {
        let mid: u64 = lo + (hi - lo) / 2;
        proof {
            assert((mid as int) * (mid as int) < 0x1_0000_0000_0000_0000) by (nonlinear_arith)
                requires mid < 0x1_0000_0000u64;
        }
        if mid * mid <= x {
            lo = mid;
        } else {
            hi = mid;
        }
    }
    lo
}

/// The floored cube root of `x`, found by binary search: `2^22` cubed already
/// exceeds every `u64` operand, and candidate cubes are taken at 128 bits so
/// they never overflow.
pub fn cbrt_u64(x: u64) -> (r: u64)
    ensures
        is_floor_cbrt(x as int, r as int),
{
    let mut lo: u64 = 0;
    let mut hi: u64 = 0x40_0000;
    proof {
        assert((0x40_0000 as int) * (0x40_0000 as int) * (0x40_0000 as int)
            > 0xffff_ffff_ffff_ffff) by (nonlinear_arith);
    }
    while hi - lo > 1
        invariant
            lo < hi <= 0x40_0000,
            (lo as int) * (lo as int) * (lo as int) <= x as int,
            (x as int) < (hi as int) * (hi as int) * (hi as int),
        decreases hi - lo,
    {
        let mid: u64 = lo + (hi - lo) / 2;
        let m: u128 = mid as u128;
        proof {
            lemma_small_cube_bound(m as int);
        }
        if m * m * m <= x as u128 {
            lo = mid;
        } else {
            hi = mid;
        }
    }
    lo
}

/// The floored base-`base` logarithm of `x`, found by repeated multiplication:
/// the running power `p` always equals `base^r` and never exceeds `x`, and the
/// trial product is taken at 128 bits so it never overflows.
pub fn log_u64(x: u64, base: u64) -> (r: u64)
    requires
        x >= 1,
        base >= 2,
    ensures
        is_floor_log(x as int, base as int, r as int),
{
    let mut r: u64 = 0;
    let mut p: u64 = 1;
    proof {
        reveal(pow);
    }
    loop
        invariant
            1 <= p <= x,
            x >= 1,
            base >= 2,
            r <= 63,
            p as int == pow(base as int, r as nat),
            pow(2, r as nat) <= p as int,
        ensures
            1 <= p <= x,
            p as int == pow(base as int, r as nat),
            (p as int) * (base as int) > x as int,
        decreases x as int - p as int,
    {
        proof {
            lemma_u64_product_fits(p as int, base as int);
        }
        if (p as u128) * (base as u128) > x as u128 {
            break;
        }
        proof {
            lemma_double_le_product(base as int, p as int);
            assert((p as int) < 0x8000_0000_0000_0000);
            if r == 63 {
                vstd::arithmetic::power2::lemma2_to64_rest();
                vstd::arithmetic::power2::lemma_pow2(63);
                assert(false);
            }
        }
        let next: u64 = p * base;
        proof {
            reveal(pow);
            assert(pow(base as int, (r + 1) as nat) == (base as int) * pow(base as int, r as nat));
            assert(pow(2, (r + 1) as nat) == 2 * pow(2, r as nat));
        }
        p = next;
        r = r + 1;
    }
    proof {
        reveal(pow);
        assert(pow(base as int, (r + 1) as nat) == (base as int) * pow(base as int, r as nat));
        lemma_double_le_product(base as int, p as int);
    }
    r
}

/// Multiplying a positive number by a factor of at least two at least doubles
/// it, in either argument order.
proof fn lemma_double_le_product(b: int, p: int)
    by (nonlinear_arith)
    requires
        b >= 2,
        p >= 1,
    ensures
        2 * p <= b * p,
        b * p == p * b,
{
}

/// The square and cube of a number below `2^22` stay far below `2^128`, so the
/// trial cube in the search never overflows at 128 bits.
proof fn lemma_small_cube_bound(m: int)
    by (nonlinear_arith)
    requires
        0 <= m < 0x40_0000,
    ensures
        m * m < 0x1_0000_0000_0000,
        m * m * m < 0x4_0000_0000_0000_0000,
{
}

/// A product of two 64-bit values fits in 128 bits.
proof fn lemma_u64_product_fits(a: int, b: int)
    by (nonlinear_arith)
    requires
        0 <= a <= 0xffff_ffff_ffff_ffff,
        0 <= b <= 0xffff_ffff_ffff_ffff,
    ensures
        a * b < 0x1_0000_0000_0000_0000_0000_0000_0000_0000,
{
}

/// A floored logarithm to a base above one is strictly below its operand, so a
/// result computed at 64-bit width fits back into the operand's own type.
pub proof fn lemma_floor_log_lt_operand(x: int, base: int, r: int)
    requires
        base >= 2,
        is_floor_log(x, base, r),
    ensures
        r < x,
{
    lemma_pow_ge_exp_plus_one(base, r as nat);
}

/// An exponential with base at least two dominates its exponent:
/// `base^e >= e + 1`.
pub proof fn lemma_pow_ge_exp_plus_one(base: int, e: nat)
    requires
        base >= 2,
    ensures
        pow(base, e) >= e + 1,
    decreases e,
{
    reveal(pow);
    if e > 0 {
        lemma_pow_ge_exp_plus_one(base, (e - 1) as nat);
        assert(base * pow(base, (e - 1) as nat) >= 2 * pow(base, (e - 1) as nat))
            by (nonlinear_arith)
            requires base >= 2, pow(base, (e - 1) as nat) >= 1;
    }
}

}
