//! The floored operations on the unsigned integer types.
//!
//! An unsigned operand is never negative, so the sign preconditions of
//! `sqrt` and `cbrt` hold vacuously. Each operand is widened to `u64`, the
//! exact result is computed there, and the narrowing back is justified by the
//! result never exceeding the operand.

use vstd::prelude::*;
use crate::IntTraits;
use crate::algorithms::{sqrt_u64, cbrt_u64, log_u64, lemma_floor_log_lt_operand};
use crate::floors::{lemma_floor_sqrt_le_operand, lemma_floor_cbrt_le_operand};

verus! {

impl IntTraits<u8> for u8 {
    open spec fn in_val(self) -> int {
        self as int
    }

    open spec fn out_val(v: u8) -> int {
        v as int
    }

    fn sqrt(self) -> (r: u8) {
        let w: u64 = sqrt_u64(self as u64);
        proof {
            lemma_floor_sqrt_le_operand(self as int, w as int);
        }
        w as u8
    }

    fn cbrt(self) -> (r: u8) {
        let w: u64 = cbrt_u64(self as u64);
        proof {
            lemma_floor_cbrt_le_operand(self as int, w as int);
        }
        w as u8
    }

    fn log(self, n: u64) -> (r: u8) {
        let w: u64 = log_u64(self as u64, n);
        proof {
            lemma_floor_log_lt_operand(self as int, n as int, w as int);
        }
        w as u8
    }
}

impl IntTraits<u16> for u16 {
    open spec fn in_val(self) -> int {
        self as int
    }

    open spec fn out_val(v: u16) -> int {
        v as int
    }

    fn sqrt(self) -> (r: u16) {
        let w: u64 = sqrt_u64(self as u64);
        proof {
            lemma_floor_sqrt_le_operand(self as int, w as int);
        }
        w as u16
    }

    fn cbrt(self) -> (r: u16) {
        let w: u64 = cbrt_u64(self as u64);
        proof {
            lemma_floor_cbrt_le_operand(self as int, w as int);
        }
        w as u16
    }

    fn log(self, n: u64) -> (r: u16) {
        let w: u64 = log_u64(self as u64, n);
        proof {
            lemma_floor_log_lt_operand(self as int, n as int, w as int);
        }
        w as u16
    }
}

impl IntTraits<u32> for u32 {
    open spec fn in_val(self) -> int {
        self as int
    }

    open spec fn out_val(v: u32) -> int {
        v as int
    }

    fn sqrt(self) -> (r: u32) {
        let w: u64 = sqrt_u64(self as u64);
        proof {
            lemma_floor_sqrt_le_operand(self as int, w as int);
        }
        w as u32
    }

    fn cbrt(self) -> (r: u32) {
        let w: u64 = cbrt_u64(self as u64);
        proof {
            lemma_floor_cbrt_le_operand(self as int, w as int);
        }
        w as u32
    }

    fn log(self, n: u64) -> (r: u32) {
        let w: u64 = log_u64(self as u64, n);
        proof {
            lemma_floor_log_lt_operand(self as int, n as int, w as int);
        }
        w as u32
    }
}

impl IntTraits<u64> for u64 {
    open spec fn in_val(self) -> int {
        self as int
    }

    open spec fn out_val(v: u64) -> int {
        v as int
    }

    fn sqrt(self) -> (r: u64) {
        sqrt_u64(self)
    }

    fn cbrt(self) -> (r: u64) {
        cbrt_u64(self)
    }

    fn log(self, n: u64) -> (r: u64) {
        log_u64(self, n)
    }
}

impl IntTraits<usize> for usize {
    open spec fn in_val(self) -> int {
        self as int
    }

    open spec fn out_val(v: usize) -> int {
        v as int
    }

    fn sqrt(self) -> (r: usize) {
        let w: u64 = sqrt_u64(self as u64);
        proof {
            lemma_floor_sqrt_le_operand(self as int, w as int);
        }
        w as usize
    }

    fn cbrt(self) -> (r: usize) {
        let w: u64 = cbrt_u64(self as u64);
        proof {
            lemma_floor_cbrt_le_operand(self as int, w as int);
        }
        w as usize
    }

    fn log(self, n: u64) -> (r: usize) {
        let w: u64 = log_u64(self as u64, n);
        proof {
            lemma_floor_log_lt_operand(self as int, n as int, w as int);
        }
        w as usize
    }
}

}
