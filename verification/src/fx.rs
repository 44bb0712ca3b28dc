//! The fixed-point numeric domain: signed values with 16 integer bits and 16
//! fractional bits, stored as an `i32` whose unit is 2^-16. Every sample and
//! filter coefficient of the pipeline lives in this domain, so that the whole
//! signal path is bit-exact and reproducible. Arithmetic wraps on overflow,
//! exactly like the two's-complement primitive it is stored in.

use vstd::prelude::*;
use vstd::arithmetic::div_mod::{
    lemma_hoist_over_denominator, lemma_mod_multiples_vanish, lemma_small_mod,
};

verus! {

/// A 16.16 fixed-point number. The mathematical value is `bits / 65536`.
#[derive(Clone, Copy, PartialEq, Eq, Structural, Debug)]
pub struct Fix {
    pub bits: i32,
}

impl View for Fix {
    type V = int;

    open spec fn view(&self) -> int {
        self.bits as int
    }
}

/// Reduce an unbounded integer to the `i32` range by two's-complement
/// wrapping, the behaviour of the underlying 32-bit store on overflow.
pub open spec fn wrap32(v: int) -> int {
    let m = v % 0x1_0000_0000;
    if m >= 0x8000_0000 {
        m - 0x1_0000_0000
    } else {
        m
    }
}

/// Bit result of fixed-point addition.
pub open spec fn fx_add(a: int, b: int) -> int {
    wrap32(a + b)
}

/// Bit result of fixed-point subtraction.
pub open spec fn fx_sub(a: int, b: int) -> int {
    wrap32(a - b)
}

/// Bit result of fixed-point multiplication: the exact product is rescaled by
/// 2^16 and the fractional remainder discarded, rounding toward minus
/// infinity (`int` division by a positive divisor is floor division).
pub open spec fn fx_mul(a: int, b: int) -> int {
    wrap32((a * b) / 65536)
}

/// Wrapping leaves an in-range value unchanged.
pub proof fn lemma_wrap32_id(v: int)
    requires
        -0x8000_0000 <= v < 0x8000_0000,
    ensures
        wrap32(v) == v,
{
    if v >= 0 {
        lemma_small_mod(v as nat, 0x1_0000_0000);
    } else {
        lemma_mod_multiples_vanish(1, v, 0x1_0000_0000);
        lemma_small_mod((v + 0x1_0000_0000) as nat, 0x1_0000_0000);
    }
}

/// Wrapping is invariant under shifts by the full 32-bit range.
pub proof fn lemma_wrap32_shift(v: int)
    ensures
        wrap32(v + 0x1_0000_0000) == wrap32(v),
{
    lemma_mod_multiples_vanish(1, v, 0x1_0000_0000);
}

impl Fix {
    /// Raw constructor from a bit pattern, the inverse of `to_bits`.
    pub fn from_bits(bits: i32) -> (r: Fix)
        ensures
            r@ == bits as int,
    {
        Fix { bits }
    }

    /// The underlying bit pattern.
    pub fn to_bits(self) -> (r: i32)
        ensures
            r as int == self@,
    {
        self.bits
    }

    /// The zero value.
    pub fn zero() -> (r: Fix)
        ensures
            r@ == 0,
    {
        Fix { bits: 0 }
    }

    /// Wrapping fixed-point addition.
    pub fn add(self, other: Fix) -> (r: Fix)
        ensures
            r@ == fx_add(self@, other@),
    {
        let bits = self.bits.wrapping_add(other.bits);
        proof {
            let v = self@ + other@;
            if v >= 0x8000_0000 {
                lemma_wrap32_shift(v - 0x1_0000_0000);
                lemma_wrap32_id(v - 0x1_0000_0000);
            } else if v < -0x8000_0000 {
                lemma_wrap32_shift(v);
                lemma_wrap32_id(v + 0x1_0000_0000);
            } else {
                lemma_wrap32_id(v);
            }
        }
        Fix { bits }
    }

    /// Wrapping fixed-point subtraction.
    pub fn sub(self, other: Fix) -> (r: Fix)
        ensures
            r@ == fx_sub(self@, other@),
    {
        let bits = self.bits.wrapping_sub(other.bits);
        proof {
            let v = self@ - other@;
            if v >= 0x8000_0000 {
                lemma_wrap32_shift(v - 0x1_0000_0000);
                lemma_wrap32_id(v - 0x1_0000_0000);
            } else if v < -0x8000_0000 {
                lemma_wrap32_shift(v);
                lemma_wrap32_id(v + 0x1_0000_0000);
            } else {
                lemma_wrap32_id(v);
            }
        }
        Fix { bits }
    }

    /// Wrapping fixed-point multiplication: the 64-bit product is floored to
    /// a multiple of 2^-16 and the result wrapped into the 32-bit store.
    pub fn mul(self, other: Fix) -> (r: Fix)
        ensures
            r@ == fx_mul(self@, other@),
    {
        proof {
            assert(-0x4000_0000_0000_0000 <= self@ * other@ <= 0x4000_0000_0000_0000)
                by (nonlinear_arith)
                requires
                    -0x8000_0000 <= self@ <= 0x7FFF_FFFF,
                    -0x8000_0000 <= other@ <= 0x7FFF_FFFF,
            ;
        }
        let p: i128 = (self.bits as i128) * (other.bits as i128);
        // Shift into nonnegative territory by a multiple of the divisor so
        // that unsigned division below is exactly floor division.
        let su: u64 = (p + 0x4000_0000_0000_0000i128) as u64;
        let q2: u64 = su / 65536;
        proof {
            assert(q2 <= 0x2_0000_0000_0000) by {
                vstd::arithmetic::div_mod::lemma_div_is_ordered(
                    su as int,
                    0x8000_0000_0000_0000,
                    65536,
                );
            }
        }
        let q: i64 = (q2 as i64) - 0x4000_0000_0000;
        proof {
            lemma_hoist_over_denominator(p as int, 0x4000_0000_0000, 65536nat);
            assert(q == (self@ * other@) / 65536);
        }
        let mu: u64 = ((q + 0x8000_0000_0000) as u64) % 0x1_0000_0000;
        let r64: i64 = if mu >= 0x8000_0000 {
            (mu as i64) - 0x1_0000_0000
        } else {
            mu as i64
        };
        proof {
            lemma_mod_multiples_vanish(0x8000, q as int, 0x1_0000_0000);
            assert(r64 == fx_mul(self@, other@));
        }
        Fix { bits: r64 as i32 }
    }
}

} // verus!
