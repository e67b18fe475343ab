//! Checked variants of the floored operations.
//!
//! The trait operations state their sign preconditions as contracts, so a
//! verified caller can never violate them. A caller that receives its operand
//! at run time and wants to validate rather than prove can use these
//! functions: each returns the floored result exactly on the operands the
//! operation is defined for, and the matching [`DomainError`] on every other.

use vstd::prelude::*;
use crate::algorithms::{sqrt_u64, cbrt_u64, log_u64, lemma_floor_log_lt_operand};
use crate::floors::{
    is_floor_sqrt,
    is_floor_cbrt,
    is_floor_log,
    lemma_floor_sqrt_le_operand,
    lemma_floor_cbrt_le_operand,
};

verus! {

/// A violated mathematical precondition: the real-valued counterpart of the
/// operation is undefined on the offending operand.
#[derive(Clone, Copy, Debug, PartialEq, Eq, Structural)]
pub enum DomainError {
    /// A square or cube root was asked of a negative operand.
    NegativeOperand,
    /// A logarithm was asked of an operand at or below zero.
    NonPositiveOperand,
}

/// The floored square root of `x`, or `NegativeOperand` exactly when `x` is
/// negative.
pub fn try_sqrt_i64(x: i64) -> (r: Result<i64, DomainError>)
    ensures
        x >= 0 ==> r is Ok && is_floor_sqrt(x as int, r->Ok_0 as int),
        x < 0 ==> r == Err::<i64, DomainError>(DomainError::NegativeOperand),
{
    if x < 0 {
        Err(DomainError::NegativeOperand)
    } else {
        let w: u64 = sqrt_u64(x as u64);
        proof {
            lemma_floor_sqrt_le_operand(x as int, w as int);
        }
        Ok(w as i64)
    }
}

/// The floored cube root of `x`, or `NegativeOperand` exactly when `x` is
/// negative.
pub fn try_cbrt_i64(x: i64) -> (r: Result<i64, DomainError>)
    ensures
        x >= 0 ==> r is Ok && is_floor_cbrt(x as int, r->Ok_0 as int),
        x < 0 ==> r == Err::<i64, DomainError>(DomainError::NegativeOperand),
{
    if x < 0 {
        Err(DomainError::NegativeOperand)
    } else {
        let w: u64 = cbrt_u64(x as u64);
        proof {
            lemma_floor_cbrt_le_operand(x as int, w as int);
        }
        Ok(w as i64)
    }
}

/// The floored base-`n` logarithm of `x`, or `NonPositiveOperand` exactly
/// when `x` is at or below zero.
pub fn try_log_i64(x: i64, n: u64) -> (r: Result<i64, DomainError>)
    requires
        n >= 2,
    ensures
        x >= 1 ==> r is Ok && is_floor_log(x as int, n as int, r->Ok_0 as int),
        x < 1 ==> r == Err::<i64, DomainError>(DomainError::NonPositiveOperand),
{
    if x < 1 {
        Err(DomainError::NonPositiveOperand)
    } else {
        let w: u64 = log_u64(x as u64, n);
        proof {
            lemma_floor_log_lt_operand(x as int, n as int, w as int);
        }
        Ok(w as i64)
    }
}

/// The floored base-`n` logarithm of an unsigned `x`, or `NonPositiveOperand`
/// exactly when `x` is zero.
pub fn try_log_u64(x: u64, n: u64) -> (r: Result<u64, DomainError>)
    requires
        n >= 2,
    ensures
        x >= 1 ==> r is Ok && is_floor_log(x as int, n as int, r->Ok_0 as int),
        x == 0 ==> r == Err::<u64, DomainError>(DomainError::NonPositiveOperand),
{
    if x == 0 {
        Err(DomainError::NonPositiveOperand)
    } else {
        Ok(log_u64(x, n))
    }
}

}
