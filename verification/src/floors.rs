//! Characterisations of the floored root and logarithm operations.
//!
//! Each predicate states exactly what it means for an integer `r` to be the
//! floored result of the corresponding real-valued function on `x`. The
//! uniqueness lemmas show that each characterisation pins down a single
//! result, so any two functions meeting the same characterisation agree.

use vstd::prelude::*;
use vstd::arithmetic::power::{pow, lemma_pow_increases};

verus! {

/// `r` is the floored square root of `x`: the largest integer whose square
/// does not exceed `x`.
pub open spec fn is_floor_sqrt(x: int, r: int) -> bool {
    0 <= r && r * r <= x && x < (r + 1) * (r + 1)
}

/// `r` is the floored cube root of `x`: the largest integer whose cube does
/// not exceed `x`.
pub open spec fn is_floor_cbrt(x: int, r: int) -> bool {
    0 <= r && r * r * r <= x && x < (r + 1) * (r + 1) * (r + 1)
}

/// `r` is the floored base-`base` logarithm of `x`: the largest exponent `r`
/// with `base^r <= x`.
pub open spec fn is_floor_log(x: int, base: int, r: int) -> bool {
    0 <= r && pow(base, r as nat) <= x && x < pow(base, (r + 1) as nat)
}

/// The floored square root of an operand is unique: two integers satisfying
/// the characterisation for the same operand are equal.
pub proof fn lemma_floor_sqrt_unique(x: int, r1: int, r2: int)
    requires
        is_floor_sqrt(x, r1),
        is_floor_sqrt(x, r2),
    ensures
        r1 == r2,
{
    if r1 < r2 {
        assert((r1 + 1) * (r1 + 1) <= r2 * r2) by (nonlinear_arith)
            requires 0 <= r1 + 1 <= r2;
    }
    if r2 < r1 {
        assert((r2 + 1) * (r2 + 1) <= r1 * r1) by (nonlinear_arith)
            requires 0 <= r2 + 1 <= r1;
    }
}

/// The floored cube root of an operand is unique.
pub proof fn lemma_floor_cbrt_unique(x: int, r1: int, r2: int)
    requires
        is_floor_cbrt(x, r1),
        is_floor_cbrt(x, r2),
    ensures
        r1 == r2,
{
    if r1 < r2 {
        assert((r1 + 1) * (r1 + 1) * (r1 + 1) <= r2 * r2 * r2) by (nonlinear_arith)
            requires 0 <= r1 + 1 <= r2;
    }
    if r2 < r1 {
        assert((r2 + 1) * (r2 + 1) * (r2 + 1) <= r1 * r1 * r1) by (nonlinear_arith)
            requires 0 <= r2 + 1 <= r1;
    }
}

/// The floored logarithm of an operand to a base above one is unique. In
/// particular, any result of the base-10 or base-2 convenience operations and
/// any result of the general logarithm at the same base coincide.
pub proof fn lemma_floor_log_unique(x: int, base: int, r1: int, r2: int)
    requires
        base >= 2,
        is_floor_log(x, base, r1),
        is_floor_log(x, base, r2),
    ensures
        r1 == r2,
{
    if r1 < r2 {
        lemma_pow_increases(base as nat, (r1 + 1) as nat, r2 as nat);
    }
    if r2 < r1 {
        lemma_pow_increases(base as nat, (r2 + 1) as nat, r1 as nat);
    }
}

/// The base-10 convenience agrees with the general logarithm: for any
/// operand, a result meeting `log10`'s contract and a result meeting `log`'s
/// contract at base 10 are the same number.
pub proof fn lemma_log10_agrees_with_log(x: int, r10: int, r: int)
    requires
        is_floor_log(x, 10, r10),
        is_floor_log(x, 10, r),
    ensures
        r10 == r,
{
    lemma_floor_log_unique(x, 10, r10, r);
}

/// The base-2 convenience agrees with the general logarithm: for any operand,
/// a result meeting `log2`'s contract and a result meeting `log`'s contract
/// at base 2 are the same number.
pub proof fn lemma_log2_agrees_with_log(x: int, r2: int, r: int)
    requires
        is_floor_log(x, 2, r2),
        is_floor_log(x, 2, r),
    ensures
        r2 == r,
{
    lemma_floor_log_unique(x, 2, r2, r);
}

/// The floored square root of zero is zero.
pub proof fn lemma_floor_sqrt_zero(r: int)
    requires
        is_floor_sqrt(0, r),
    ensures
        r == 0,
{
    assert(r >= 1 ==> r * r >= 1) by (nonlinear_arith);
}

/// The floored cube root of zero is zero.
pub proof fn lemma_floor_cbrt_zero(r: int)
    requires
        is_floor_cbrt(0, r),
    ensures
        r == 0,
{
    assert(r >= 1 ==> r * r * r >= 1) by (nonlinear_arith);
}

/// A floored square root never exceeds its operand, so a result computed at a
/// wide integer type fits back into the operand's own type.
pub proof fn lemma_floor_sqrt_le_operand(x: int, r: int)
    requires
        is_floor_sqrt(x, r),
    ensures
        r <= x,
{
    assert(r >= 1 ==> r <= r * r) by (nonlinear_arith);
}

/// A floored cube root never exceeds its operand.
pub proof fn lemma_floor_cbrt_le_operand(x: int, r: int)
    requires
        is_floor_cbrt(x, r),
    ensures
        r <= x,
{
    assert(r >= 1 ==> r <= r * r * r) by (nonlinear_arith);
}

}
