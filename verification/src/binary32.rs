//! Single-precision numbers, held by their IEEE 754 bit patterns.
//!
//! Temperatures and load fractions arrive as single-precision numbers. This
//! module gives the number that a bit pattern stands for and decides the strict
//! order between two patterns with integer arithmetic alone.

use vstd::prelude::*;
use vstd::arithmetic::power2::{
    pow2,
    lemma2_to64,
    lemma_pow2_pos,
    lemma_pow2_strictly_increases,
    lemma_pow2_unfold,
};

verus! {

/// The pattern's highest bit, which holds the sign.
pub const SIGN_BIT: u32 = 0x8000_0000;

/// The magnitude bits of an infinity; every larger magnitude is not a number.
pub const INFINITY_BITS: u32 = 0x7F80_0000;

/// The number of patterns that share one exponent: two to the power 23.
pub const FRACTION_RANGE: u32 = 0x80_0000;

/// The smallest positive number of the format is two to the power minus 149,
/// so every finite number is a whole multiple of it.
pub open spec fn unit_exponent() -> nat {
    149
}

/// The number `m * 2^149` that the magnitude bits `bits` stand for: with the
/// exponent field `e` and the fraction field `f`, the magnitude `m` is
/// `f * 2^-149` when `e` is 0 and `(2^23 + f) * 2^(e - 150)` otherwise.
/// The magnitude bits of an infinity come out above those of every finite number.
pub open spec fn scaled_magnitude_of(bits: nat) -> nat {
    let exponent = bits / (FRACTION_RANGE as nat);
    let fraction = bits % (FRACTION_RANGE as nat);
    if exponent == 0 {
        fraction
    } else {
        (FRACTION_RANGE + fraction) as nat * pow2((exponent - 1) as nat)
    }
}

/// The number `numerator / 2^shift`, as a multiple of two to the power minus 149.
pub open spec fn scaled_ratio(numerator: nat, shift: nat) -> int
    recommends
        shift <= unit_exponent(),
{
    (numerator * pow2((unit_exponent() - shift) as nat)) as int
}

/// A single-precision number.
#[derive(Clone, Copy, Debug, PartialEq, Eq, Structural)]
pub struct Binary32 {
    /// The IEEE 754 bit pattern: sign, eight exponent bits, 23 fraction bits.
    pub bits: u32,
}

impl Default for Binary32 {
    /// Positive zero.
    fn default() -> (r: Self)
        ensures
            r == (Binary32 { bits: 0 }),
    {
        Binary32 { bits: 0 }
    }
}

impl Binary32 {
    /// The pattern without its sign bit.
    pub open spec fn magnitude_bits(self) -> nat {
        (self.bits % SIGN_BIT) as nat
    }

    /// Whether the sign bit is set.
    pub open spec fn is_negative(self) -> bool {
        self.bits >= SIGN_BIT
    }

    /// Whether the pattern stands for no number at all.
    pub open spec fn is_nan(self) -> bool {
        self.magnitude_bits() > INFINITY_BITS
    }

    /// The number that the pattern stands for, times two to the power 149.
    /// Meaningful unless `is_nan()`; an infinity lies beyond every finite number.
    pub open spec fn scaled(self) -> int {
        if self.is_negative() {
            -(scaled_magnitude_of(self.magnitude_bits()) as int)
        } else {
            scaled_magnitude_of(self.magnitude_bits()) as int
        }
    }

    /// The strict order of IEEE 754: both are numbers, and `self` is the greater.
    pub open spec fn exceeds_spec(self, other: Binary32) -> bool {
        &&& !self.is_nan()
        &&& !other.is_nan()
        &&& self.scaled() > other.scaled()
    }

    /// The same order, read off the bit patterns: of two numbers that are not
    /// negative the one with the greater pattern is the greater, of two
    /// negative numbers the one with the smaller pattern, and a number that
    /// is not negative exceeds a negative one unless both are zero.
    pub open spec fn exceeds_by_bits(self, other: Binary32) -> bool {
        let mine = self.magnitude_bits();
        let theirs = other.magnitude_bits();
        &&& mine <= INFINITY_BITS
        &&& theirs <= INFINITY_BITS
        &&& if self.is_negative() {
            other.is_negative() && mine < theirs
        } else if other.is_negative() {
            mine != 0 || theirs != 0
        } else {
            mine > theirs
        }
    }

    /// The number with the given bit pattern.
    pub fn from_bits(bits: u32) -> (r: Binary32)
        ensures
            r.bits == bits,
    {
        Binary32 { bits }
    }

    /// The bit pattern of this number.
    pub fn to_bits(self) -> (r: u32)
        ensures
            r == self.bits,
    {
        self.bits
    }

    /// Whether `self > other` holds as IEEE 754 defines it: false when either
    /// is not a number, and the two zeros are equal.
    #[verifier::when_used_as_spec(exceeds_spec)]
    pub fn exceeds(self, other: Binary32) -> (r: bool)
        ensures
            r == self.exceeds_spec(other),
            r == self.exceeds_by_bits(other),
    {
        let mine: u32 = self.bits % SIGN_BIT;
        let theirs: u32 = other.bits % SIGN_BIT;
        proof {
            lemma_exceeds_by_bits(self, other);
        }
        if mine > INFINITY_BITS || theirs > INFINITY_BITS {
            return false;
        }
        if self.bits >= SIGN_BIT {
            other.bits >= SIGN_BIT && mine < theirs
        } else if other.bits >= SIGN_BIT {
            mine != 0 || theirs != 0
        } else {
            mine > theirs
        }
    }
}

/// Magnitude bits of one exponent stand for numbers from `2^23 * 2^(e - 1)`
/// (from 0 when `e` is 0) up to, but not including, `2^23 * 2^e`.
proof fn lemma_scaled_magnitude_bounds(bits: nat)
    ensures
        scaled_magnitude_of(bits) < FRACTION_RANGE * pow2(bits / (FRACTION_RANGE as nat)),
        bits >= FRACTION_RANGE ==> scaled_magnitude_of(bits) >= FRACTION_RANGE * pow2(
            (bits / (FRACTION_RANGE as nat) - 1) as nat,
        ),
{
    let exponent = bits / (FRACTION_RANGE as nat);
    let fraction = bits % (FRACTION_RANGE as nat);
    let range = FRACTION_RANGE as nat;
    if exponent == 0 {
        lemma2_to64();
    } else {
        let below = pow2((exponent - 1) as nat);
        lemma_pow2_unfold(exponent);
        lemma_pow2_pos((exponent - 1) as nat);
        assert((range + fraction) * below < range * (2 * below)) by (nonlinear_arith)
            requires
                fraction < range,
                below > 0,
        ;
        assert((range + fraction) * below >= range * below) by (nonlinear_arith)
            requires
                below > 0,
        ;
    }
}

/// The order of the magnitude bits is the order of the numbers they stand for.
pub proof fn lemma_scaled_magnitude_order(a: nat, b: nat)
    ensures
        a < b <==> scaled_magnitude_of(a) < scaled_magnitude_of(b),
        a == b <==> scaled_magnitude_of(a) == scaled_magnitude_of(b),
{
    if a < b {
        lemma_scaled_magnitude_increases(a, b);
    } else if b < a {
        lemma_scaled_magnitude_increases(b, a);
    }
}

/// The order of two numbers can be read off their bit patterns.
pub proof fn lemma_exceeds_by_bits(a: Binary32, b: Binary32)
    ensures
        a.exceeds_spec(b) == a.exceeds_by_bits(b),
{
    lemma_scaled_magnitude_order(a.magnitude_bits(), b.magnitude_bits());
    lemma_scaled_magnitude_order(0, a.magnitude_bits());
    lemma_scaled_magnitude_order(0, b.magnitude_bits());
}

/// Between a finite bound that is not negative and the number of the next bit
/// pattern lies no other number: what exceeds the bound reaches the next one.
pub proof fn lemma_exceeds_reaches_next(value: Binary32, bound: Binary32)
    requires
        !value.is_nan(),
        !bound.is_negative(),
        bound.magnitude_bits() < INFINITY_BITS,
    ensures
        value.exceeds(bound) <==> value.scaled() >= (Binary32 {
            bits: (bound.bits + 1) as u32,
        }).scaled(),
{
    let next = Binary32 { bits: (bound.bits + 1) as u32 };
    lemma_scaled_magnitude_order(bound.magnitude_bits(), next.magnitude_bits());
    lemma_scaled_magnitude_order(value.magnitude_bits(), bound.magnitude_bits());
    lemma_scaled_magnitude_order(value.magnitude_bits(), next.magnitude_bits());
}

proof fn lemma_scaled_magnitude_increases(a: nat, b: nat)
    requires
        a < b,
    ensures
        scaled_magnitude_of(a) < scaled_magnitude_of(b),
{
    let range = FRACTION_RANGE as nat;
    let exponent_a = a / range;
    let exponent_b = b / range;
    let fraction_a = a % range;
    let fraction_b = b % range;
    if exponent_a == exponent_b {
        if exponent_a != 0 {
            let scale = pow2((exponent_a - 1) as nat);
            lemma_pow2_pos((exponent_a - 1) as nat);
            assert((range + fraction_a) * scale < (range + fraction_b) * scale)
                by (nonlinear_arith)
                requires
                    fraction_a < fraction_b,
                    scale > 0,
            ;
        }
    } else {
        assert(exponent_a < exponent_b);
        lemma_scaled_magnitude_bounds(a);
        lemma_scaled_magnitude_bounds(b);
        let upper = pow2(exponent_a);
        let lower = pow2((exponent_b - 1) as nat);
        if exponent_a < exponent_b - 1 {
            lemma_pow2_strictly_increases(exponent_a, (exponent_b - 1) as nat);
        }
        assert(range * upper <= range * lower) by (nonlinear_arith)
            requires
                upper <= lower,
        ;
    }
}

} // verus!
