//! Floored integer square roots, cube roots and integer-base logarithms for
//! every standard integer width and signedness, without any casting through
//! floating point on the caller's side.
//!
//! The single trait [`IntTraits`] extends the built-in integer types with
//! `sqrt`, `cbrt` and `log` (plus `log10` and `log2` conveniences), each
//! returning the largest integer not exceeding the true real-valued result.
//! The sign preconditions are stated as contracts, so a verified caller can
//! never hit the domain violations; callers that need to validate first can
//! use the checked variants in [`checked`].

use vstd::prelude::*;

pub mod algorithms;
pub mod checked;
pub mod floors;
mod signed;
mod unsigned;

verus! {

/// Extends an integer type with floored root and logarithm operations.
///
/// Every standard integer type implements `IntTraits<Self>`: the operand and
/// the result have the same type, and the two spec functions give their
/// mathematical values, over which the contracts are stated.
pub trait IntTraits<T>: Sized {
    /// The mathematical value of the operand.
    spec fn in_val(self) -> int;

    /// The mathematical value of a result.
    spec fn out_val(v: T) -> int;

    /// Takes the floored square root of a number.
    ///
    /// The operand must be non-negative; for unsigned types the precondition
    /// is vacuous.
    fn sqrt(self) -> (r: T)
        requires
            self.in_val() >= 0,
        ensures
            crate::floors::is_floor_sqrt(self.in_val(), Self::out_val(r)),
    ;

    /// Takes the floored cube root of a number.
    ///
    /// The operand must be non-negative; for unsigned types the precondition
    /// is vacuous.
    fn cbrt(self) -> (r: T)
        requires
            self.in_val() >= 0,
        ensures
            crate::floors::is_floor_cbrt(self.in_val(), Self::out_val(r)),
    ;

    /// Returns the floored logarithm of the operand.
    ///
    /// The logarithm must be of integer base, taken as a `u64` whatever the
    /// operand's own type, purely so that callers need not cast the base. The
    /// operand must be positive, and the base at least two for the floored
    /// logarithm to be defined.
    fn log(self, n: u64) -> (r: T)
        requires
            self.in_val() >= 1,
            n >= 2,
        ensures
            crate::floors::is_floor_log(self.in_val(), n as int, Self::out_val(r)),
    ;

    /// Returns the floored base-10 logarithm of the operand, which must be
    /// positive.
    fn log10(self) -> (r: T)
        requires
            self.in_val() >= 1,
        ensures
            crate::floors::is_floor_log(self.in_val(), 10, Self::out_val(r)),
    {
        self.log(10)
    }

    /// Returns the floored base-2 logarithm of the operand, which must be
    /// positive.
    fn log2(self) -> (r: T)
        requires
            self.in_val() >= 1,
        ensures
            crate::floors::is_floor_log(self.in_val(), 2, Self::out_val(r)),
    {
        self.log(2)
    }
}

}
