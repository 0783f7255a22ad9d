//! Signed fixed-point numbers with 16 fractional bits (Q16.16).
//!
//! The controller runs on a core without a hardware float unit, so every
//! normalized quantity (color channels, hue fractions, brightness) is kept
//! as an `i32` holding the value scaled by 2^16.  All arithmetic is exact
//! integer arithmetic; multiplication and division truncate toward zero on
//! the non-negative ranges the color pipeline uses, which coincides with
//! flooring.

use vstd::prelude::*;

verus! {

/// The representation of 1.0: 2^16.
pub const ONE_BITS: i32 = 65536;

/// A fixed-point number; `bits` holds the value scaled by 2^16.
#[derive(Clone, Copy, Debug, PartialEq, Eq, Structural)]
pub struct Fix32 {
    pub bits: i32,
}

impl Fix32 {
    /// The constant 0.0.
    pub fn zero() -> (r: Fix32)
        ensures
            r.bits == 0,
    {
        Fix32 { bits: 0 }
    }

    /// The constant 1.0.
    pub fn one() -> (r: Fix32)
        ensures
            r.bits == ONE_BITS,
    {
        Fix32 { bits: ONE_BITS }
    }

    /// Builds the fixed-point value of a small integer.
    pub fn from_int(n: i16) -> (r: Fix32)
        ensures
            r.bits == n * 65536,
    {
        Fix32 { bits: (n as i32) * 65536 }
    }

    /// The integer part of a non-negative value.
    pub fn to_int_floor(self) -> (r: i32)
        requires
            self.bits >= 0,
        ensures
            r == self.bits / 65536,
    {
        self.bits / 65536
    }

    /// Exact addition.
    pub fn plus(self, other: Fix32) -> (r: Fix32)
        requires
            i32::MIN <= self.bits + other.bits <= i32::MAX,
        ensures
            r.bits == self.bits + other.bits,
    {
        Fix32 { bits: self.bits + other.bits }
    }

    /// Exact subtraction.
    pub fn minus(self, other: Fix32) -> (r: Fix32)
        requires
            i32::MIN <= self.bits - other.bits <= i32::MAX,
        ensures
            r.bits == self.bits - other.bits,
    {
        Fix32 { bits: self.bits - other.bits }
    }

    /// Fixed-point multiplication of non-negative values, flooring.
    pub fn times(self, other: Fix32) -> (r: Fix32)
        requires
            0 <= self.bits,
            0 <= other.bits,
            self.bits * other.bits / 65536 <= i32::MAX,
        ensures
            r.bits == self.bits * other.bits / 65536,
    {
        proof {
            lemma_mul_bounds_i32(self.bits as int, other.bits as int);
        }
        let p: i64 = (self.bits as i64) * (other.bits as i64);
        Fix32 { bits: (p / 65536) as i32 }
    }

    /// Fixed-point division of a non-negative value by a positive one, flooring.
    pub fn divide(self, other: Fix32) -> (r: Fix32)
        requires
            0 <= self.bits,
            0 < other.bits,
            self.bits * 65536 / (other.bits as int) <= i32::MAX,
        ensures
            r.bits == self.bits * 65536 / (other.bits as int),
    {
        proof {
            vstd::arithmetic::div_mod::lemma_div_is_ordered(
                0,
                self.bits * 65536,
                other.bits as int,
            );
        }
        let p: i64 = (self.bits as i64) * 65536;
        Fix32 { bits: (p / (other.bits as i64)) as i32 }
    }

    /// The smaller of two values.
    pub fn min_of(self, other: Fix32) -> (r: Fix32)
        ensures
            r.bits == if self.bits <= other.bits { self.bits } else { other.bits },
    {
        if self.bits <= other.bits {
            self
        } else {
            other
        }
    }

    /// The larger of two values.
    pub fn max_of(self, other: Fix32) -> (r: Fix32)
        ensures
            r.bits == if self.bits >= other.bits { self.bits } else { other.bits },
    {
        if self.bits >= other.bits {
            self
        } else {
            other
        }
    }

    /// Wraps a value in `[0, 2]` back into `[0, 1]`: the fractional part of
    /// a hue sum.
    pub fn wrap_unit(self) -> (r: Fix32)
        requires
            0 <= self.bits <= 2 * 65536,
        ensures
            r.bits == if self.bits < 65536 { self.bits as int } else { self.bits - 65536 },
    {
        if self.bits < ONE_BITS {
            self
        } else {
            Fix32 { bits: self.bits - ONE_BITS }
        }
    }
}

/// The product of two non-negative `i32` values fits in an `i64`.
proof fn lemma_mul_bounds_i32(a: int, b: int)
    by (nonlinear_arith)
    requires
        0 <= a <= 0x7fff_ffff,
        0 <= b <= 0x7fff_ffff,
    ensures
        0 <= a * b <= 0x3fff_ffff_0000_0001,
{
}

/// A part divided by its whole is at most one.
pub proof fn lemma_div_le_one(a: int, b: int)
    by (nonlinear_arith)
    requires
        0 <= a <= b,
        0 < b,
    ensures
        a * 65536 / b <= 65536,
{
}

/// A fixed-point product of values in `[0, 1]` stays in `[0, 1]` and below
/// both factors.
pub proof fn lemma_mulf_bounds(a: int, b: int)
    by (nonlinear_arith)
    requires
        0 <= a <= 65536,
        0 <= b <= 65536,
    ensures
        0 <= a * b / 65536 <= a,
        a * b / 65536 <= b,
{
}

/// Fixed-point division by a denominator of at least one cannot grow a
/// non-negative numerator.
pub proof fn lemma_divf_le(a: int, b: int)
    by (nonlinear_arith)
    requires
        0 <= a,
        65536 <= b,
    ensures
        0 <= a * 65536 / b <= a,
{
}

} // verus!
