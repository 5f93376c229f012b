//! Real-valued coordinates, held as IEEE 754 double-precision bit patterns.
//!
//! The windowing toolkit reports positions, sizes and times as double
//! precision numbers.  This crate stores and compares such values but never
//! does floating-point arithmetic on them, so it keeps each one as the bit
//! pattern of the corresponding IEEE 754 double.  Two values are equal
//! exactly when their bit patterns are, which makes every translation in
//! this crate lossless by construction.
//!
//! The one value the crate must *produce* itself is the frame size that
//! realization copies from the configured integer default size.  Every
//! `i32` is exactly representable as a double, and [`Scalar::from_i32`]
//! computes that encoding with integer arithmetic alone, proved against
//! [`f64_bits_of_i32`].

use vstd::prelude::*;
use vstd::arithmetic::power2::{pow2, lemma2_to64, lemma2_to64_rest, lemma_pow2_adds, lemma_pow2_strictly_increases, lemma_pow2_pos};
use vstd::arithmetic::mul::{lemma_mul_inequality, lemma_mul_is_distributive_sub};

verus! {

/// A real number, represented by the bits of an IEEE 754 double.
#[derive(Copy, Clone, Debug, PartialEq, Eq, Structural)]
pub struct Scalar {
    /// The IEEE 754 double-precision bit pattern of the value.
    pub bits: u64,
}

impl Scalar {
    /// Wraps a raw IEEE 754 double bit pattern.
    pub fn from_bits(bits: u64) -> (r: Scalar)
        ensures
            r.bits == bits,
    {
        Scalar { bits }
    }

    /// Returns the raw IEEE 754 double bit pattern.
    pub fn bits(&self) -> (r: u64)
        ensures
            r == self.bits,
    {
        self.bits
    }

    /// The value zero (positive zero has an all-zero bit pattern).
    pub fn zero() -> (r: Scalar)
        ensures
            r.bits == 0,
            r == spec_scalar_of_i32(0),
    {
        Scalar { bits: 0 }
    }

    /// Encodes an `i32` as the IEEE 754 double of the same value.
    ///
    /// Every `i32` is exactly representable, so this is the bit pattern
    /// that the usual integer-to-double conversion yields.
    pub fn from_i32(v: i32) -> (r: Scalar)
        ensures
            r == spec_scalar_of_i32(v as int),
    {
        if v == 0 {
            return Scalar { bits: 0 };
        }
        let sign: u64 = if v < 0 { 1 } else { 0 };
        let m: u64 = if v < 0 { (-(v as i64)) as u64 } else { v as u64 };
        assert(1 <= m <= 0x8000_0000u64);
        // Find k with 2^k <= m < 2^(k + 1).
        let mut k: u64 = 0;
        let mut p: u64 = 1;
        proof {
            lemma2_to64();
            lemma2_to64_rest();
        }
        while p * 2 <= m
            invariant
                p == pow2(k as nat),
                p <= m <= 0x8000_0000u64,
                k <= 31,
            decreases m - p,
        {
            proof {
                if k == 31 {
                    // p == 2^31, so p * 2 > m; the loop cannot continue.
                    assert(pow2(31) == 0x8000_0000u64) by {
                        lemma2_to64();
                    }
                }
                lemma_pow2_adds(k as nat, 1);
                lemma2_to64();
            }
            p = p * 2;
            k = k + 1;
        }
        assert(pow2(k as nat) <= m < pow2((k + 1) as nat)) by {
            lemma_pow2_adds(k as nat, 1);
            lemma2_to64();
        }
        proof {
            lemma_floor_log2(m as nat, k as nat);
        }
        // q == 2^(52 - k)
        let mut q: u64 = 1;
        let mut j: u64 = k;
        while j < 52
            invariant
                k <= j <= 52,
                q == pow2((j - k) as nat),
                q <= 0x10_0000_0000_0000u64,
            decreases 52 - j,
        {
            proof {
                lemma_pow2_adds((j - k) as nat, 1);
                lemma2_to64();
                if j + 1 - k < 52 {
                    lemma_pow2_strictly_increases((j + 1 - k) as nat, 52);
                }
                lemma2_to64_rest();
            }
            q = q * 2;
            j = j + 1;
        }
        assert(q == pow2((52 - k) as nat));
        let frac: u64 = m - p;
        // frac <= 2^k - 1, so frac * q <= 2^52 - q.
        proof {
            lemma_pow2_adds(k as nat, (52 - k) as nat);
            lemma_mul_inequality(frac as int, pow2(k as nat) - 1, q as int);
            lemma_mul_is_distributive_sub(q as int, pow2(k as nat) as int, 1);
            lemma_pow2_pos((52 - k) as nat);
            lemma2_to64_rest();
            assert((pow2(k as nat) - 1) * q == q * (pow2(k as nat) - 1));
            assert(q * pow2(k as nat) == pow2(k as nat) * q);
            assert(frac * q <= pow2(52) - q);
        }
        let mant: u64 = frac * q;
        assert(mant <= pow2(52 as nat) - q);
        let bits: u64 = sign * 0x8000_0000_0000_0000u64 + (1023 + k) * 0x10_0000_0000_0000u64
            + mant;
        proof {
            lemma2_to64_rest();
            assert(pow2(63) == 0x8000_0000_0000_0000u64);
            assert(pow2(52) == 0x10_0000_0000_0000u64);
        }
        Scalar { bits }
    }
}

impl Default for Scalar {
    /// The default value is zero.
    fn default() -> (r: Scalar)
        ensures
            r.bits == 0,
    {
        Scalar { bits: 0 }
    }
}

/// The position of the highest set bit: `floor(log2(n))` for `n >= 1`.
pub open spec fn floor_log2(n: nat) -> nat
    decreases n,
{
    if n <= 1 {
        0
    } else {
        1 + floor_log2(n / 2)
    }
}

/// `floor_log2` is characterized by bracketing powers of two.
proof fn lemma_floor_log2(m: nat, k: nat)
    requires
        pow2(k) <= m < pow2(k + 1),
    ensures
        floor_log2(m) == k,
    decreases k,
{
    lemma_pow2_pos(k);
    if k == 0 {
        assert(pow2(0) == 1 && pow2(1) == 2) by {
            lemma2_to64();
        }
    } else {
        assert(pow2(k) == pow2((k - 1) as nat) * 2) by {
            lemma_pow2_adds((k - 1) as nat, 1);
            lemma2_to64();
        }
        assert(pow2(k + 1) == pow2(k) * 2) by {
            lemma_pow2_adds(k, 1);
            lemma2_to64();
        }
        lemma_pow2_pos((k - 1) as nat);
        assert(pow2((k - 1) as nat) <= m / 2 < pow2(k));
        lemma_floor_log2(m / 2, (k - 1) as nat);
        assert(m > 1);
    }
}

/// The IEEE 754 double-precision bit pattern of an `i32` value:
/// a sign bit, a biased exponent of `1023 + floor(log2(|v|))`, and the bits
/// of `|v|` below its leading one, shifted to the top of the 52-bit
/// mantissa field.  Zero encodes as all-zero bits.
pub open spec fn f64_bits_of_i32(v: int) -> u64 {
    if v == 0 {
        0u64
    } else {
        let s: int = if v < 0 {
            1
        } else {
            0
        };
        let m: int = if v < 0 {
            -v
        } else {
            v
        };
        let k = floor_log2(m as nat);
        (s * pow2(63) + (1023 + k) * pow2(52) + (m - pow2(k)) * pow2((52 - k) as nat)) as u64
    }
}

/// The `Scalar` holding the IEEE 754 double of an `i32` value.
pub open spec fn spec_scalar_of_i32(v: int) -> Scalar {
    Scalar { bits: f64_bits_of_i32(v) }
}

} // verus!
