//! The floored operations on the signed integer types.
//!
//! The contracts demand a non-negative operand for the roots and a positive
//! one for the logarithms, so each operand widens losslessly to `u64`; the
//! result never exceeds the operand, so it narrows back into the signed type.

use vstd::prelude::*;
use crate::IntTraits;
use crate::algorithms::{sqrt_u64, cbrt_u64, log_u64, lemma_floor_log_lt_operand};
use crate::floors::{lemma_floor_sqrt_le_operand, lemma_floor_cbrt_le_operand};

verus! {

impl IntTraits<i8> for i8 {
    open spec fn in_val(self) -> int {
        self as int
    }

    open spec fn out_val(v: i8) -> int {
        v as int
    }

    fn sqrt(self) -> (r: i8) {
        let w: u64 = sqrt_u64(self as u64);
        proof {
            lemma_floor_sqrt_le_operand(self as int, w as int);
        }
        w as i8
    }

    fn cbrt(self) -> (r: i8) {
        let w: u64 = cbrt_u64(self as u64);
        proof {
            lemma_floor_cbrt_le_operand(self as int, w as int);
        }
        w as i8
    }

    fn log(self, n: u64) -> (r: i8) {
        let w: u64 = log_u64(self as u64, n);
        proof {
            lemma_floor_log_lt_operand(self as int, n as int, w as int);
        }
        w as i8
    }
}

impl IntTraits<i16> for i16 {
    open spec fn in_val(self) -> int {
        self as int
    }

    open spec fn out_val(v: i16) -> int {
        v as int
    }

    fn sqrt(self) -> (r: i16) {
        let w: u64 = sqrt_u64(self as u64);
        proof {
            lemma_floor_sqrt_le_operand(self as int, w as int);
        }
        w as i16
    }

    fn cbrt(self) -> (r: i16) {
        let w: u64 = cbrt_u64(self as u64);
        proof {
            lemma_floor_cbrt_le_operand(self as int, w as int);
        }
        w as i16
    }

    fn log(self, n: u64) -> (r: i16) {
        let w: u64 = log_u64(self as u64, n);
        proof {
            lemma_floor_log_lt_operand(self as int, n as int, w as int);
        }
        w as i16
    }
}

impl IntTraits<i32> for i32 {
    open spec fn in_val(self) -> int {
        self as int
    }

    open spec fn out_val(v: i32) -> int {
        v as int
    }

    fn sqrt(self) -> (r: i32) {
        let w: u64 = sqrt_u64(self as u64);
        proof {
            lemma_floor_sqrt_le_operand(self as int, w as int);
        }
        w as i32
    }

    fn cbrt(self) -> (r: i32) {
        let w: u64 = cbrt_u64(self as u64);
        proof {
            lemma_floor_cbrt_le_operand(self as int, w as int);
        }
        w as i32
    }

    fn log(self, n: u64) -> (r: i32) {
        let w: u64 = log_u64(self as u64, n);
        proof {
            lemma_floor_log_lt_operand(self as int, n as int, w as int);
        }
        w as i32
    }
}

impl IntTraits<i64> for i64 {
    open spec fn in_val(self) -> int {
        self as int
    }

    open spec fn out_val(v: i64) -> int {
        v as int
    }

    fn sqrt(self) -> (r: i64) {
        let w: u64 = sqrt_u64(self as u64);
        proof {
            lemma_floor_sqrt_le_operand(self as int, w as int);
        }
        w as i64
    }

    fn cbrt(self) -> (r: i64) {
        let w: u64 = cbrt_u64(self as u64);
        proof {
            lemma_floor_cbrt_le_operand(self as int, w as int);
        }
        w as i64
    }

    fn log(self, n: u64) -> (r: i64) {
        let w: u64 = log_u64(self as u64, n);
        proof {
            lemma_floor_log_lt_operand(self as int, n as int, w as int);
        }
        w as i64
    }
}

impl IntTraits<isize> for isize {
    open spec fn in_val(self) -> int {
        self as int
    }

    open spec fn out_val(v: isize) -> int {
        v as int
    }

    fn sqrt(self) -> (r: isize) {
        let w: u64 = sqrt_u64(self as u64);
        proof {
            lemma_floor_sqrt_le_operand(self as int, w as int);
        }
        w as isize
    }

    fn cbrt(self) -> (r: isize) {
        let w: u64 = cbrt_u64(self as u64);
        proof {
            lemma_floor_cbrt_le_operand(self as int, w as int);
        }
        w as isize
    }

    fn log(self, n: u64) -> (r: isize) {
        let w: u64 = log_u64(self as u64, n);
        proof {
            lemma_floor_log_lt_operand(self as int, n as int, w as int);
        }
        w as isize
    }
}

}
