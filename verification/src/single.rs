//! 32-bit floating-point numbers as their bits.
//!
//! Sizes and opacities are such numbers. Nothing here computes with them; they are
//! only compared with 0 and 1, and that is decided on the bits.

use vstd::arithmetic::power2::{
    lemma2_to64, lemma_pow2_adds, lemma_pow2_pos, lemma_pow2_strictly_increases, pow2,
};
use vstd::prelude::*;

verus! {

/// A 32-bit number by its bits: sign, 8 bits of exponent, 23 of fraction.
#[derive(Debug, Clone, Copy, PartialEq, Eq, Structural)]
pub struct Single {
    pub bits: u32,
}

/// What the bits stand for.
pub enum Meaning {
    /// No number.
    Nan,
    /// Beyond every number, on the positive or negative side.
    Infinite { negative: bool },
    /// A number, in units of the smallest positive one.
    Finite(int),
}

/// The bits without the sign.
pub open spec fn magnitude(bits: u32) -> int {
    bits as int % 0x8000_0000
}

/// The distance from 0 that a magnitude below infinity stands for, in units of the
/// smallest positive number.
pub open spec fn distance(magnitude: int) -> int {
    let exponent = magnitude / 0x80_0000;
    let fraction = magnitude % 0x80_0000;
    if exponent == 0 {
        fraction
    } else {
        (0x80_0000 + fraction) * pow2((exponent - 1) as nat)
    }
}

/// The number 1, in units of the smallest positive number.
pub open spec fn one() -> int {
    pow2(149) as int
}

impl Single {
    /// What the bits stand for.
    pub open spec fn value(self) -> Meaning {
        let m = magnitude(self.bits);
        let negative = self.bits >= 0x8000_0000;
        if m > 0x7f80_0000 {
            Meaning::Nan
        } else if m == 0x7f80_0000 {
            Meaning::Infinite { negative }
        } else if negative {
            Meaning::Finite(-distance(m))
        } else {
            Meaning::Finite(distance(m))
        }
    }

    /// Whether it is 0 or less.
    pub open spec fn at_most_zero(self) -> bool {
        match self.value() {
            Meaning::Nan => false,
            Meaning::Infinite { negative } => negative,
            Meaning::Finite(n) => n <= 0,
        }
    }

    /// Whether it is from 0 to 1.
    pub open spec fn in_unit(self) -> bool {
        match self.value() {
            Meaning::Finite(n) => 0 <= n <= one(),
            _ => false,
        }
    }

    /// Whether it is 0 or less.
    pub fn is_at_most_zero(self) -> (yes: bool)
        ensures
            yes == self.at_most_zero(),
    {
        let m: u32 = self.bits % 0x8000_0000;
        proof {
            lemma_distance(m as int);
        }
        m <= 0x7f80_0000 && (m == 0 || self.bits >= 0x8000_0000)
    }

    /// Whether it is from 0 to 1.
    pub fn is_in_unit(self) -> (yes: bool)
        ensures
            yes == self.in_unit(),
    {
        let m: u32 = self.bits % 0x8000_0000;
        proof {
            lemma_distance(m as int);
        }
        self.bits <= 0x3f80_0000 || m == 0
    }
}

/// Only the magnitude 0 stands for 0, and the magnitude of 1 parts those below from
/// those above.
proof fn lemma_distance(m: int)
    requires
        0 <= m < 0x8000_0000,
    ensures
        distance(m) >= 0,
        distance(m) == 0 <==> m == 0,
        distance(m) <= one() <==> m <= 0x3f80_0000,
{
    let exponent = m / 0x80_0000;
    let fraction = m % 0x80_0000;
    assert(pow2(23) == 0x80_0000) by {
        lemma2_to64();
    }
    assert(pow2(24) == 0x100_0000) by {
        lemma2_to64();
    }
    if exponent == 0 {
        lemma_pow2_strictly_increases(23, 149);
    } else {
        let p = pow2((exponent - 1) as nat) as int;
        lemma_pow2_pos((exponent - 1) as nat);
        assert((0x80_0000 + fraction) * p >= p) by (nonlinear_arith)
            requires
                fraction >= 0,
                p > 0,
        ;
        lemma_pow2_adds(23, 126);
        lemma_pow2_adds(24, 125);
        if exponent < 127 {
            if exponent - 1 < 125 {
                lemma_pow2_strictly_increases((exponent - 1) as nat, 125);
            }
            let q = pow2(125) as int;
            assert((0x80_0000 + fraction) * p <= 0x100_0000 * q) by (nonlinear_arith)
                requires
                    0 <= fraction < 0x80_0000,
                    0 < p <= q,
            ;
        } else if exponent == 127 {
            assert((0x80_0000 + fraction) * p == 0x80_0000 * p + fraction * p)
                by (nonlinear_arith);
            if fraction > 0 {
                assert(fraction * p > 0) by (nonlinear_arith)
                    requires
                        fraction > 0,
                        p > 0,
                ;
            } else {
                assert(fraction * p == 0) by (nonlinear_arith)
                    requires
                        fraction == 0,
                ;
            }
        } else {
            lemma_pow2_strictly_increases(126, (exponent - 1) as nat);
            lemma_pow2_pos(126);
            let q = pow2(126) as int;
            assert((0x80_0000 + fraction) * p > 0x80_0000 * q) by (nonlinear_arith)
                requires
                    fraction >= 0,
                    p > q,
                    q > 0,
            ;
        }
    }
}

/// 19, 600 and 400 are greater than 0, and 1 lies from 0 to 1.
pub proof fn lemma_default_sizes()
    ensures
        !(Single { bits: 0x4198_0000 }).at_most_zero(),
        !(Single { bits: 0x4416_0000 }).at_most_zero(),
        !(Single { bits: 0x43c8_0000 }).at_most_zero(),
        (Single { bits: 0x3f80_0000 }).in_unit(),
{
    lemma_distance(0x4198_0000);
    lemma_distance(0x4416_0000);
    lemma_distance(0x43c8_0000);
    lemma_distance(0x3f80_0000);
}

/// By the bits: 0 or less are the two zeros and every negative number down to infinity;
/// from 0 to 1 are the numbers whose bits are at most those of 1, and the negative zero.
pub proof fn law_comparisons_by_bits(s: Single)
    ensures
        s.at_most_zero() <==> s.bits == 0 || 0x8000_0000 <= s.bits <= 0xff80_0000,
        s.in_unit() <==> s.bits <= 0x3f80_0000 || s.bits == 0x8000_0000,
{
    lemma_distance(magnitude(s.bits));
}

/// A number and the one with the other sign lie on either side of 0, equally far.
pub proof fn law_sign_turns_the_number(bits: u32)
    requires
        bits < 0x7f80_0000,
    ensures
        ({
            let negative = Single { bits: (bits + 0x8000_0000) as u32 };
            &&& Single { bits }.value() matches Meaning::Finite(n)
            &&& negative.value() == Meaning::Finite(-n)
            &&& n >= 0
        }),
{
    lemma_distance(bits as int);
}

/// Two bit patterns stand for the infinities, one for each sign; those whose magnitude lies
/// beyond are no numbers, and all others are.
pub proof fn law_infinities(s: Single)
    ensures
        s.value() == (Meaning::Infinite { negative: false }) <==> s.bits == 0x7f80_0000,
        s.value() == (Meaning::Infinite { negative: true }) <==> s.bits == 0xff80_0000,
        s.value() is Nan <==> 0x7f80_0000 < s.bits < 0x8000_0000 || s.bits > 0xff80_0000,
{
}

/// The bits of a whole number: shifted up until 24 bits are used, the highest of them is left
/// out and the exponent makes up for the shift.
pub proof fn law_whole_numbers(n: int, shift: nat, bits: u32)
    requires
        shift <= 23,
        0x80_0000 <= n * pow2(shift) < 0x100_0000,
        bits == (150 - shift) * 0x80_0000 + (n * pow2(shift) - 0x80_0000),
    ensures
        (Single { bits }).value() == Meaning::Finite(n * one()),
{
    let scaled = n * pow2(shift);
    let exponent = 150 - shift;
    assert(magnitude(bits) == bits);
    assert(bits as int / 0x80_0000 == exponent && bits as int % 0x80_0000 == scaled - 0x80_0000);
    let p = pow2((exponent - 1) as nat) as int;
    let q = pow2(shift) as int;
    lemma_pow2_adds(shift, (exponent - 1) as nat);
    assert(q * p == one());
    assert(scaled * p == n * (q * p)) by (nonlinear_arith)
        requires
            scaled == n * q,
    ;
}

} // verus!
