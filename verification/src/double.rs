//! Double-precision numbers, carried by their bit patterns.
//!
//! The player compares pitches and otherwise hands them on, so all that it needs of a
//! double is its order. The order is stated over the numbers themselves: every finite
//! double is a whole multiple of the smallest positive one, two to the power of -1074.

use vstd::arithmetic::mul::*;
use vstd::arithmetic::power2::*;
use vstd::prelude::*;

verus! {

/// The bit pattern of positive infinity. What lies above it, the sign bit aside, is not a
/// number.
pub const INFINITY_BITS: u64 = 0x7ff0_0000_0000_0000;

/// The sign bit.
pub const SIGN_BIT: u64 = 0x8000_0000_0000_0000;

/// The bit pattern of the lowest pitch that can be set, 20 Hz.
pub const LOWEST_PITCH_BITS: u64 = 0x4034_0000_0000_0000;

/// The bit pattern of the highest pitch that can be set, 20 kHz.
pub const HIGHEST_PITCH_BITS: u64 = 0x40d3_8800_0000_0000;

/// How many fractions share an exponent.
pub open spec fn fractions() -> nat {
    0x10_0000_0000_0000
}

/// How many of the smallest positive double make one.
pub open spec fn one() -> nat {
    pow2(1074)
}

/// The magnitude that an exponent field and a fraction field encode, as a multiple of the
/// smallest positive double. Infinity comes out above every finite magnitude.
pub open spec fn magnitude_of_fields(exponent: nat, fraction: nat) -> nat {
    if exponent == 0 {
        fraction
    } else {
        (fractions() + fraction) * pow2((exponent - 1) as nat)
    }
}

/// The magnitude that a bit pattern without its sign encodes.
pub open spec fn magnitude(bits: nat) -> nat {
    magnitude_of_fields(bits / fractions(), bits % fractions())
}

/// A double-precision number.
#[derive(Debug, PartialEq, Eq, Structural, Clone, Copy)]
pub struct Double {
    pub bits: u64,
}

impl Double {
    /// The bit pattern without its sign.
    pub open spec fn unsigned(self) -> nat {
        if self.bits >= SIGN_BIT {
            (self.bits - SIGN_BIT) as nat
        } else {
            self.bits as nat
        }
    }

    pub open spec fn is_nan(self) -> bool {
        self.unsigned() > INFINITY_BITS
    }

    /// The number, as a multiple of the smallest positive double.
    pub open spec fn value(self) -> int {
        if self.bits >= SIGN_BIT {
            -magnitude(self.unsigned())
        } else {
            magnitude(self.unsigned()) as int
        }
    }

    /// Whether the number is at most another one, which it is not where either is no number.
    pub fn at_most(&self, other: &Double) -> (res: bool)
        ensures
            res == (!self.is_nan() && !other.is_nan() && self.value() <= other.value()),
    {
        let negative: bool = self.bits >= SIGN_BIT;
        let other_negative: bool = other.bits >= SIGN_BIT;
        let unsigned: u64 = if negative {
            self.bits - SIGN_BIT
        } else {
            self.bits
        };
        let other_unsigned: u64 = if other_negative {
            other.bits - SIGN_BIT
        } else {
            other.bits
        };
        if unsigned > INFINITY_BITS || other_unsigned > INFINITY_BITS {
            return false;
        }
        proof {
            lemma_magnitude_orders(unsigned as nat, other_unsigned as nat);
            lemma_magnitude_orders(0, unsigned as nat);
            lemma_magnitude_orders(0, other_unsigned as nat);
            assert(magnitude(0) == 0);
        }
        if negative && other_negative {
            unsigned >= other_unsigned
        } else if negative {
            true
        } else if other_negative {
            unsigned == 0 && other_unsigned == 0
        } else {
            unsigned <= other_unsigned
        }
    }
}

/// Whether a frequency can be played: it is above zero or is no number at all.
pub open spec fn is_applicable(frequency: Double) -> bool {
    frequency.is_nan() || frequency.value() > 0
}

/// Whether a pitch can be set: it lies between 20 Hz and 20 kHz.
pub open spec fn is_settable_pitch(pitch: Double) -> bool {
    !pitch.is_nan() && 20 * one() <= pitch.value() <= 20000 * one()
}

/// Whether a frequency can be played.
pub fn applicable(frequency: &Double) -> (res: bool)
    ensures
        res == is_applicable(*frequency),
{
    let zero = Double { bits: 0 };
    assert(magnitude(0) == 0);
    !frequency.at_most(&zero)
}

/// Whether a pitch can be set.
pub fn settable_pitch(pitch: &Double) -> (res: bool)
    ensures
        res == is_settable_pitch(*pitch),
{
    proof {
        lemma_pitch_bounds();
    }
    let lowest = Double { bits: LOWEST_PITCH_BITS };
    let highest = Double { bits: HIGHEST_PITCH_BITS };
    lowest.at_most(pitch) && pitch.at_most(&highest)
}

/// Doubles are ordered by their bit patterns: upwards where both are positive, downwards
/// where both are negative, and a negative one comes before a positive one. The two zeros
/// are equal, and what is not a number is not ordered at all.
pub proof fn law_doubles_are_ordered_by_their_bits(a: Double, b: Double, res: bool)
    requires
        call_ensures(Double::at_most, (&a, &b), res),
    ensures
        res == (if 0x7ff0_0000_0000_0000 < a.bits < 0x8000_0000_0000_0000 || a.bits
            > 0xfff0_0000_0000_0000 || 0x7ff0_0000_0000_0000 < b.bits < 0x8000_0000_0000_0000
            || b.bits > 0xfff0_0000_0000_0000 {
            false
        } else if a.bits < 0x8000_0000_0000_0000 && b.bits < 0x8000_0000_0000_0000 {
            a.bits <= b.bits
        } else if a.bits >= 0x8000_0000_0000_0000 && b.bits >= 0x8000_0000_0000_0000 {
            a.bits >= b.bits
        } else if a.bits >= 0x8000_0000_0000_0000 {
            true
        } else {
            a.bits == 0 && b.bits == 0x8000_0000_0000_0000
        }),
{
    lemma_magnitude_orders(a.unsigned(), b.unsigned());
    lemma_magnitude_orders(0, a.unsigned());
    lemma_magnitude_orders(0, b.unsigned());
    assert(magnitude(0) == 0);
}

/// The pitches that can be set are the doubles from 20 to 20000.
pub proof fn law_settable_pitches_by_their_bits(pitch: Double, res: bool)
    requires
        call_ensures(settable_pitch, (&pitch,), res),
    ensures
        res == (0x4034_0000_0000_0000 <= pitch.bits <= 0x40d3_8800_0000_0000),
{
    lemma_pitch_by_bits(pitch);
}

pub(crate) proof fn lemma_pitch_by_bits(pitch: Double)
    ensures
        is_settable_pitch(pitch) <==> 0x4034_0000_0000_0000 <= pitch.bits
            <= 0x40d3_8800_0000_0000,
{
    lemma_pitch_bounds();
    lemma_magnitude_orders(0, pitch.unsigned());
    lemma_magnitude_orders(0, LOWEST_PITCH_BITS as nat);
    assert(magnitude(0) == 0);
    lemma_magnitude_orders(LOWEST_PITCH_BITS as nat, pitch.unsigned());
    lemma_magnitude_orders(pitch.unsigned(), HIGHEST_PITCH_BITS as nat);
}

/// The frequencies that cannot be played are the two zeros and the doubles below them.
pub proof fn law_inapplicable_frequencies_by_their_bits(frequency: Double, res: bool)
    requires
        call_ensures(applicable, (&frequency,), res),
    ensures
        !res <==> frequency.bits == 0 || 0x8000_0000_0000_0000 <= frequency.bits
            <= 0xfff0_0000_0000_0000,
{
    lemma_applicable_by_bits(frequency);
}

pub(crate) proof fn lemma_applicable_by_bits(frequency: Double)
    ensures
        !is_applicable(frequency) <==> frequency.bits == 0 || 0x8000_0000_0000_0000
            <= frequency.bits <= 0xfff0_0000_0000_0000,
{
    lemma_magnitude_orders(0, frequency.unsigned());
    assert(magnitude(0) == 0);
}

/// The bounds of the pitches that can be set are 20 and 20000.
proof fn lemma_pitch_bounds()
    ensures
        (Double { bits: LOWEST_PITCH_BITS }).value() == 20 * one(),
        (Double { bits: HIGHEST_PITCH_BITS }).value() == 20000 * one(),
{
    assert(0x4034_0000_0000_0000nat / fractions() == 1027);
    assert(0x4034_0000_0000_0000nat % fractions() == 0x4_0000_0000_0000);
    assert(0x40d3_8800_0000_0000nat / fractions() == 1037);
    assert(0x40d3_8800_0000_0000nat % fractions() == 0x3_8800_0000_0000);
    lemma_pow2_adds(48, 1026);
    lemma_pow2_adds(38, 1036);
    assert(pow2(48) == 0x1_0000_0000_0000 && pow2(38) == 0x40_0000_0000) by {
        lemma2_to64();
        lemma2_to64_rest();
    }
    assert(0x14_0000_0000_0000 * pow2(1026) == 20 * (0x1_0000_0000_0000 * pow2(1026)))
        by (nonlinear_arith);
    assert(0x13_8800_0000_0000 * pow2(1036) == 20000 * (0x40_0000_0000 * pow2(1036)))
        by (nonlinear_arith);
}

/// Unsigned bit patterns are ordered as the magnitudes that they encode.
proof fn lemma_magnitude_orders(a: nat, b: nat)
    ensures
        a < b <==> magnitude(a) < magnitude(b),
        a == b <==> magnitude(a) == magnitude(b),
{
    if a < b {
        lemma_magnitude_increases(a, b);
    } else if b < a {
        lemma_magnitude_increases(b, a);
    }
}

/// A larger unsigned bit pattern encodes a larger magnitude.
proof fn lemma_magnitude_increases(a: nat, b: nat)
    requires
        a < b,
    ensures
        magnitude(a) < magnitude(b),
{
    let (ea, fa) = (a / fractions(), a % fractions());
    let (eb, fb) = (b / fractions(), b % fractions());
    if eb > 0 {
        lemma_pow2_pos((eb - 1) as nat);
        assert(fractions() <= (fractions() + fb) * pow2((eb - 1) as nat)) by (nonlinear_arith)
            requires
                pow2((eb - 1) as nat) >= 1,
                fractions() > 0,
        ;
    }
    if ea == eb && ea > 0 {
        lemma_mul_strict_inequality(
            (fractions() + fa) as int,
            (fractions() + fb) as int,
            pow2((ea - 1) as nat) as int,
        );
    } else if ea < eb && ea > 0 {
        let (pa, pb) = (pow2((ea - 1) as nat), pow2((eb - 1) as nat));
        lemma_pow2_pos((ea - 1) as nat);
        lemma_pow2_unfold(ea);
        if ea < eb - 1 {
            lemma_pow2_strictly_increases(ea, (eb - 1) as nat);
        }
        assert(2 * pa <= pb);
        assert((fractions() + fa) * pa < (fractions() + fb) * pb) by (nonlinear_arith)
            requires
                pa > 0,
                2 * pa <= pb,
                fa < fractions(),
        ;
    }
}

} // verus!
