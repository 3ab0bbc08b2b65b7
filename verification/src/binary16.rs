//! IEEE 754 half-precision numbers, handled by bit pattern.
//!
//! The controller stores most of its analogue values in this format, one number per
//! register. Everything the register logic needs from such a number (whether it is a
//! number at all, and how it compares with a limit) can be read from the bits, so no
//! hardware arithmetic is involved.

use vstd::prelude::*;
use vstd::arithmetic::power2::lemma_pow2_pos;
use vstd::arithmetic::power2::lemma_pow2_strictly_increases;
use vstd::arithmetic::power2::lemma_pow2_unfold;
use vstd::arithmetic::power2::pow2;

verus! {

/// A half-precision number: one sign bit, five exponent bits, ten fraction bits.
///
/// A pattern that encodes no number, a NaN, is a value like any other: it is kept as
/// it is, and `is_nan` tells it from the numbers.
///
/// Equality is equality of bit patterns, so the two zeros differ and a NaN equals
/// itself. Numeric comparison is `lt` and `le`.
#[derive(Clone, Copy, Debug, PartialEq, Eq, Structural, Hash)]
pub struct Half {
    pub bits: u16,
}

/// The magnitude bits of positive infinity; every larger magnitude is a NaN.
pub const INFINITY_BITS: u16 = 0x7C00;

/// The sign bit.
pub const SIGN_BIT: u16 = 0x8000;

impl Half {
    /// The bit pattern without its sign bit.
    pub open spec fn magnitude(self) -> int {
        self.bits as int % 0x8000
    }

    /// Whether the sign bit is set.
    pub open spec fn negative(self) -> bool {
        self.bits >= 0x8000
    }

    /// Whether the pattern encodes no number.
    pub open spec fn nan(self) -> bool {
        self.magnitude() > 0x7C00
    }

    /// The place of a number on the number line, the two zeros sharing place 0.
    ///
    /// Among patterns of one sign, a larger magnitude encodes a number further from
    /// zero, so ordering by rank is ordering by value.
    pub open spec fn rank(self) -> int {
        if self.negative() {
            -self.magnitude()
        } else {
            self.magnitude()
        }
    }

    /// The exponent bits of the pattern.
    pub open spec fn exponent(self) -> int {
        self.magnitude() / 1024
    }

    /// The fraction bits of the pattern.
    pub open spec fn fraction(self) -> int {
        self.magnitude() % 1024
    }

    /// The number that the pattern encodes, multiplied by 2 to the power 24, which
    /// makes it whole.
    ///
    /// With exponent bits 0 the number is the fraction times 2 to the power -24. With
    /// exponent bits `e` from 1 to 30 it is (1024 + fraction) times 2 to the power
    /// `e` - 25. An infinity counts as the number that the next exponent would give,
    /// 65536, which lies beyond every number of the format. A NaN has no number.
    pub open spec fn scaled(self) -> int
        recommends
            !self.nan(),
    {
        let size = if self.exponent() == 0 {
            self.fraction()
        } else {
            (1024 + self.fraction()) * pow2((self.exponent() - 1) as nat)
        };
        if self.negative() {
            -size
        } else {
            size
        }
    }

    /// Numeric `<`: false whenever either side is a NaN.
    pub open spec fn below(self, other: Half) -> bool {
        !self.nan() && !other.nan() && self.rank() < other.rank()
    }

    /// Numeric `<=`: false whenever either side is a NaN.
    pub open spec fn at_most(self, other: Half) -> bool {
        !self.nan() && !other.nan() && self.rank() <= other.rank()
    }

    /// Whether `self` is a number in the closed interval from `min` to `max`.
    pub open spec fn within(self, min: Half, max: Half) -> bool {
        min.at_most(self) && self.at_most(max)
    }

    /// The number with the given bit pattern.
    pub fn from_bits(bits: u16) -> (h: Half)
        ensures
            h.bits == bits,
    {
        Half { bits }
    }

    /// The bit pattern.
    pub fn to_bits(self) -> (bits: u16)
        ensures
            bits == self.bits,
    {
        self.bits
    }

    /// Positive zero.
    pub fn zero() -> (h: Half)
        ensures
            h.bits == 0,
    {
        Half { bits: 0 }
    }

    fn magnitude_bits(self) -> (m: u16)
        ensures
            m == self.magnitude(),
    {
        if self.bits >= SIGN_BIT {
            self.bits - SIGN_BIT
        } else {
            self.bits
        }
    }

    fn rank_value(self) -> (r: i32)
        ensures
            r == self.rank(),
    {
        let m: u16 = self.magnitude_bits();
        if self.bits >= SIGN_BIT {
            0i32 - (m as i32)
        } else {
            m as i32
        }
    }

    /// Whether the pattern encodes no number.
    pub fn is_nan(self) -> (r: bool)
        ensures
            r == self.nan(),
    {
        self.magnitude_bits() > INFINITY_BITS
    }

    /// Numeric `<`.
    pub fn lt(self, other: Half) -> (r: bool)
        ensures
            r == self.below(other),
    {
        !self.is_nan() && !other.is_nan() && self.rank_value() < other.rank_value()
    }

    /// Numeric `<=`.
    pub fn le(self, other: Half) -> (r: bool)
        ensures
            r == self.at_most(other),
    {
        !self.is_nan() && !other.is_nan() && self.rank_value() <= other.rank_value()
    }

    /// Whether `self` is a number in the closed interval from `min` to `max`.
    pub fn is_within(self, min: Half, max: Half) -> (r: bool)
        ensures
            r == self.within(min, max),
    {
        min.le(self) && self.le(max)
    }
}

/// The size of a number grows with the magnitude of its pattern.
proof fn lemma_size_grows(a: Half, b: Half)
    requires
        !a.negative(),
        !b.negative(),
        !a.nan(),
        !b.nan(),
        a.magnitude() < b.magnitude(),
    ensures
        0 <= a.scaled() < b.scaled(),
{
    let ea = a.exponent();
    let eb = b.exponent();
    let fa = a.fraction();
    let fb = b.fraction();
    if eb > 0 {
        let pb = pow2((eb - 1) as nat) as int;
        lemma_pow2_pos((eb - 1) as nat);
        assert(1024 * pb <= (1024 + fb) * pb) by (nonlinear_arith)
            requires
                0 <= fb,
                pb > 0,
        ;
        if ea == 0 {
            assert(1024 <= 1024 * pb) by (nonlinear_arith)
                requires
                    pb > 0,
            ;
        } else {
            let pa = pow2((ea - 1) as nat) as int;
            lemma_pow2_pos((ea - 1) as nat);
            assert(0 <= (1024 + fa) * pa) by (nonlinear_arith)
                requires
                    0 <= fa,
                    pa > 0,
            ;
            if ea == eb {
                assert((1024 + fa) * pa < (1024 + fb) * pa) by (nonlinear_arith)
                    requires
                        fa < fb,
                        pa > 0,
                ;
            } else {
                lemma_pow2_unfold(ea as nat);
                assert((1024 + fa) * pa < 1024 * (2 * pa)) by (nonlinear_arith)
                    requires
                        fa < 1024,
                        pa > 0,
                ;
                if ea < eb - 1 {
                    lemma_pow2_strictly_increases(ea as nat, (eb - 1) as nat);
                }
                assert(1024 * (2 * pa) <= 1024 * pb) by (nonlinear_arith)
                    requires
                        2 * pa <= pb,
                ;
            }
        }
    }
}

/// Ordering by rank is ordering by value: of two patterns that encode numbers, the one
/// of lower rank encodes the smaller number, and patterns of equal rank encode equal
/// numbers.
pub proof fn lemma_rank_orders_values(a: Half, b: Half)
    requires
        !a.nan(),
        !b.nan(),
    ensures
        a.rank() < b.rank() <==> a.scaled() < b.scaled(),
        a.rank() == b.rank() <==> a.scaled() == b.scaled(),
        a.below(b) <==> a.scaled() < b.scaled(),
        a.at_most(b) <==> a.scaled() <= b.scaled(),
{
    let pa = Half { bits: a.magnitude() as u16 };
    let pb = Half { bits: b.magnitude() as u16 };
    let zero = Half { bits: 0 };
    assert(zero.scaled() == 0);
    if pa.magnitude() < pb.magnitude() {
        lemma_size_grows(pa, pb);
    }
    if pb.magnitude() < pa.magnitude() {
        lemma_size_grows(pb, pa);
    }
    if 0 < pa.magnitude() {
        lemma_size_grows(zero, pa);
    }
    if 0 < pb.magnitude() {
        lemma_size_grows(zero, pb);
    }
}

} // verus!
