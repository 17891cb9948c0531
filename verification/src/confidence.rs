//! The confidence gate.
//!
//! The light client reports its confidence as a JSON number, which arrives as
//! an IEEE-754 binary64 value. This crate carries such a value as its 64-bit
//! pattern and decides on the pattern alone. What the pattern means as a
//! number is written out below, and the decision is proved to agree with it.

use vstd::prelude::*;
use vstd::arithmetic::power2::{pow2, lemma2_to64_rest, lemma_pow2_pos, lemma_pow2_strictly_increases};

verus! {

/// The acceptance threshold, counted in halves of a percent: 185 halves are
/// 92.5 percent.
pub const THRESHOLD_HALF_PERCENTS: u64 = 185;

/// The binary64 pattern of the acceptance threshold.
pub const THRESHOLD_BITS: u64 = 0x4057_2000_0000_0000;

/// The binary64 pattern of positive infinity, the largest pattern that is a
/// number and not negative.
pub const POSITIVE_INFINITY_BITS: u64 = 0x7FF0_0000_0000_0000;

/// The sign field of a binary64 pattern: 1 for a negative value.
pub open spec fn sign_bit(bits: u64) -> int {
    bits as int / 0x8000_0000_0000_0000
}

/// The 11-bit exponent field of a binary64 pattern.
pub open spec fn exponent_field(bits: u64) -> int {
    (bits as int / 0x10_0000_0000_0000) % 0x800
}

/// The 52-bit fraction field of a binary64 pattern.
pub open spec fn fraction_field(bits: u64) -> int {
    bits as int % 0x10_0000_0000_0000
}

/// Whether the pattern is not a number.
pub open spec fn is_nan(bits: u64) -> bool {
    exponent_field(bits) == 0x7FF && fraction_field(bits) != 0
}

/// Whether the pattern is an infinity.
pub open spec fn is_infinite(bits: u64) -> bool {
    exponent_field(bits) == 0x7FF && fraction_field(bits) == 0
}

/// The integer significand of a finite pattern: the fraction, with the hidden
/// leading bit unless the value is subnormal.
pub open spec fn significand(bits: u64) -> int {
    if exponent_field(bits) == 0 {
        fraction_field(bits)
    } else {
        0x10_0000_0000_0000 + fraction_field(bits)
    }
}

/// The scale of a finite pattern: its magnitude is
/// `significand * 2^(scale - 1075)`.
pub open spec fn scale(bits: u64) -> int {
    if exponent_field(bits) == 0 {
        1
    } else {
        exponent_field(bits)
    }
}

/// Whether the magnitude of a finite pattern is at least `halves / 2`, that is
/// `significand * 2^(scale - 1074) >= halves`, stated without fractions.
pub open spec fn magnitude_reaches(bits: u64, halves: nat) -> bool {
    if scale(bits) >= 1074 {
        significand(bits) * pow2((scale(bits) - 1074) as nat) >= halves
    } else {
        significand(bits) >= halves * pow2((1074 - scale(bits)) as nat)
    }
}

/// Whether the value that the pattern encodes is a number and is at least the
/// acceptance threshold.
pub open spec fn reaches_threshold(bits: u64) -> bool {
    &&& sign_bit(bits) == 0
    &&& !is_nan(bits)
    &&& (is_infinite(bits) || magnitude_reaches(bits, THRESHOLD_HALF_PERCENTS as nat))
}

/// Among the patterns of non-negative numbers, order of patterns is order of
/// values: a pattern reaches the threshold exactly when it lies between the
/// threshold's pattern and that of positive infinity.
pub proof fn lemma_threshold_by_pattern(bits: u64)
    ensures
        reaches_threshold(bits) <==> THRESHOLD_BITS <= bits <= POSITIVE_INFINITY_BITS,
{
    let e = exponent_field(bits);
    let m = significand(bits);
    lemma2_to64_rest();
    if sign_bit(bits) == 0 && e != 0x7FF {
        let s = scale(bits);
        if s >= 1074 {
            let p = pow2((s - 1074) as nat);
            lemma_pow2_pos((s - 1074) as nat);
            assert(m * p >= m) by (nonlinear_arith)
                requires
                    p >= 1,
                    m >= 0,
            ;
        } else if s >= 1030 {
            let k = (1074 - s) as nat;
            if k < 44 {
                lemma_pow2_strictly_increases(k, 44);
            }
            assert(pow2(k) <= 0x1000_0000_0000);
        } else if s == 1029 {
            assert(pow2(45) == 0x2000_0000_0000);
        } else {
            let k = (1074 - s) as nat;
            if k > 46 {
                lemma_pow2_strictly_increases(46, k);
            }
            assert(pow2(k) >= 0x4000_0000_0000);
        }
    }
}

/// A confidence value as the light client reported it.
#[derive(Clone, Copy, Debug, PartialEq, Eq, Structural)]
pub struct Confidence {
    /// The IEEE-754 binary64 pattern of the reported number.
    pub bits: u64,
}

impl Confidence {
    /// Wraps the binary64 pattern of a reported confidence.
    pub fn from_bits(bits: u64) -> (confidence: Confidence)
        ensures
            confidence.bits == bits,
    {
        Confidence { bits }
    }

    /// Whether retrieval may go on: the reported value is a number and is at
    /// least the acceptance threshold.
    pub fn meets_threshold(&self) -> (passes: bool)
        ensures
            passes == reaches_threshold(self.bits),
    {
        proof {
            lemma_threshold_by_pattern(self.bits);
        }
        THRESHOLD_BITS <= self.bits && self.bits <= POSITIVE_INFINITY_BITS
    }
}

} // verus!
