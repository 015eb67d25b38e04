//! Physical quantities as IEEE 754 double-precision bit patterns.
//!
//! The engine never does arithmetic on a quantity: its host does. What the
//! engine does is compare quantities with each other and with the limits of
//! its rules, and for that the bit pattern is enough. Among numbers the order
//! of two patterns follows from sign and magnitude alone, which is what
//! [`Scalar::rank`] captures; a NaN compares false with everything.

use vstd::arithmetic::power2::{lemma2_to64, lemma2_to64_rest, lemma_pow2_adds, lemma_pow2_pos, lemma_pow2_strictly_increases, pow2};
use vstd::prelude::*;

verus! {

/// 2^52: the number of fractions that a binade holds.
pub const FRACTION_MODULUS: u64 = 0x0010_0000_0000_0000;

/// The sign bit of a double-precision pattern.
pub const SIGN_BIT: u64 = 0x8000_0000_0000_0000;

/// The pattern of positive infinity: every larger magnitude is a NaN.
pub const INFINITY_BITS: u64 = 0x7FF0_0000_0000_0000;

/// The pattern of 1.
pub const ONE_BITS: u64 = 0x3FF0_0000_0000_0000;

/// A quantity in SI units, held as the bit pattern of a double-precision number.
#[derive(Debug, Clone, Copy)]
pub struct Scalar {
    pub bits: u64,
}

impl Scalar {
    /// The pattern without its sign bit.
    pub open spec fn magnitude(self) -> int {
        if self.bits >= SIGN_BIT {
            self.bits - SIGN_BIT
        } else {
            self.bits as int
        }
    }

    /// Whether the sign bit is set (true of -0, of negative numbers and of some NaNs).
    pub open spec fn sign_negative(self) -> bool {
        self.bits >= SIGN_BIT
    }

    /// Whether the pattern is not a number.
    pub open spec fn is_nan(self) -> bool {
        self.magnitude() > INFINITY_BITS
    }

    /// The place of a number in the order of all numbers: two numbers compare as
    /// their ranks do. Both zeros have rank 0, the infinities have the outermost ranks.
    pub open spec fn rank(self) -> int {
        if self.sign_negative() {
            -self.magnitude()
        } else {
            self.magnitude()
        }
    }

    /// Whether the pattern is a number other than an infinity.
    pub open spec fn is_finite(self) -> bool {
        self.magnitude() < INFINITY_BITS
    }

    /// The exponent field of the pattern, 0 to 2047.
    pub open spec fn exponent_field(self) -> int {
        self.magnitude() / (FRACTION_MODULUS as int)
    }

    /// The fraction field of the pattern.
    pub open spec fn fraction_field(self) -> int {
        self.magnitude() % (FRACTION_MODULUS as int)
    }

    /// The significand of a finite number as an integer: the fraction, and above the
    /// subnormal range the implicit leading bit before it.
    pub open spec fn significand(self) -> int {
        if self.exponent_field() == 0 {
            self.fraction_field()
        } else {
            FRACTION_MODULUS + self.fraction_field()
        }
    }

    /// The binade of a finite number, counted from the subnormal range, which it shares
    /// with the lowest normal binade.
    pub open spec fn binade(self) -> nat {
        if self.exponent_field() <= 1 {
            0
        } else {
            (self.exponent_field() - 1) as nat
        }
    }

    /// The binary exponent of the last place of a finite number: the magnitude of the
    /// number is `significand() * 2^exponent()`.
    pub open spec fn exponent(self) -> int {
        self.binade() - 1074
    }

    /// The magnitude of a finite number in units of 2^-1074, the smallest magnitude that
    /// a double-precision number resolves.
    pub open spec fn units(self) -> int {
        self.significand() * pow2(self.binade())
    }

    /// The value of a finite number in units of 2^-1074.
    pub open spec fn signed_units(self) -> int {
        if self.sign_negative() {
            -self.units()
        } else {
            self.units()
        }
    }

    /// Whether this number is the ratio `numerator / denominator` rounded to double
    /// precision: finite, not negative, and off the ratio by at most half a unit in its
    /// last place.
    pub open spec fn is_rounded(self, numerator: nat, denominator: nat) -> bool {
        &&& self.is_finite()
        &&& !self.sign_negative()
        &&& denominator > 0
        &&& if self.exponent() <= 0 {
            let off = self.significand() * denominator - numerator * pow2((-self.exponent()) as nat);
            -(denominator as int) <= 2 * off <= denominator
        } else {
            let off = self.significand() * pow2(self.exponent() as nat) * denominator - numerator;
            -(denominator * pow2(self.exponent() as nat)) <= 2 * off <= denominator * pow2(
                self.exponent() as nat,
            )
        }
    }

    /// `self < other` as double-precision numbers.
    pub open spec fn spec_lt(self, other: Scalar) -> bool {
        !self.is_nan() && !other.is_nan() && self.rank() < other.rank()
    }

    /// `self <= other` as double-precision numbers.
    pub open spec fn spec_le(self, other: Scalar) -> bool {
        !self.is_nan() && !other.is_nan() && self.rank() <= other.rank()
    }

    /// `self > other` as double-precision numbers.
    pub open spec fn spec_gt(self, other: Scalar) -> bool {
        other.spec_lt(self)
    }

    /// The pattern of `|self|`: the sign bit cleared, everything else kept.
    pub open spec fn spec_abs(self) -> Scalar {
        Scalar { bits: self.magnitude() as u64 }
    }

    /// The larger of two quantities. A NaN gives way to the other operand; of two equal
    /// numbers the first is taken.
    pub open spec fn spec_max(self, other: Scalar) -> Scalar {
        if self.is_nan() || self.spec_lt(other) {
            other
        } else {
            self
        }
    }

    /// Positive zero.
    pub open spec fn spec_zero() -> Scalar {
        Scalar { bits: 0 }
    }

    /// One.
    pub open spec fn spec_one() -> Scalar {
        Scalar { bits: ONE_BITS }
    }

    /// Wraps a bit pattern.
    pub fn from_bits(bits: u64) -> (value: Scalar)
        ensures
            value.bits == bits,
    {
        Scalar { bits }
    }

    /// The bit pattern.
    pub fn to_bits(self) -> (bits: u64)
        ensures
            bits == self.bits,
    {
        self.bits
    }

    /// Positive zero.
    pub fn zero() -> (value: Scalar)
        ensures
            value == Scalar::spec_zero(),
    {
        Scalar { bits: 0 }
    }

    /// One.
    pub fn one() -> (value: Scalar)
        ensures
            value == Scalar::spec_one(),
    {
        Scalar { bits: ONE_BITS }
    }

    fn magnitude_bits(self) -> (m: u64)
        ensures
            m == self.magnitude(),
    {
        if self.bits >= SIGN_BIT {
            self.bits - SIGN_BIT
        } else {
            self.bits
        }
    }

    /// Whether the quantity is not a number.
    pub fn not_a_number(self) -> (nan: bool)
        ensures
            nan == self.is_nan(),
    {
        self.magnitude_bits() > INFINITY_BITS
    }

    /// `self < other`.
    pub fn lt(self, other: Scalar) -> (less: bool)
        ensures
            less == self.spec_lt(other),
    {
        if self.not_a_number() || other.not_a_number() {
            return false;
        }
        let a: u64 = self.magnitude_bits();
        let b: u64 = other.magnitude_bits();
        if self.bits >= SIGN_BIT {
            if other.bits >= SIGN_BIT {
                a > b
            } else {
                a > 0 || b > 0
            }
        } else {
            if other.bits >= SIGN_BIT {
                false
            } else {
                a < b
            }
        }
    }

    /// `self <= other`.
    pub fn le(self, other: Scalar) -> (at_most: bool)
        ensures
            at_most == self.spec_le(other),
    {
        if self.not_a_number() || other.not_a_number() {
            return false;
        }
        !other.lt(self)
    }

    /// `self > other`.
    pub fn gt(self, other: Scalar) -> (more: bool)
        ensures
            more == self.spec_gt(other),
    {
        other.lt(self)
    }

    /// `|self|`.
    pub fn abs(self) -> (value: Scalar)
        ensures
            value == self.spec_abs(),
    {
        Scalar { bits: self.magnitude_bits() }
    }

    /// The larger of `self` and `other`.
    pub fn max(self, other: Scalar) -> (value: Scalar)
        ensures
            value == self.spec_max(other),
    {
        if self.not_a_number() || self.lt(other) {
            other
        } else {
            self
        }
    }
}

/// Among finite numbers a larger pattern is a larger magnitude.
pub proof fn lemma_magnitude_orders_units(a: Scalar, b: Scalar)
    requires
        a.is_finite(),
        b.is_finite(),
    ensures
        a.magnitude() < b.magnitude() <==> a.units() < b.units(),
        a.magnitude() == b.magnitude() <==> a.units() == b.units(),
        a.units() >= 0,
{
    if a.magnitude() < b.magnitude() {
        lemma_units_increase(a, b);
    }
    if b.magnitude() < a.magnitude() {
        lemma_units_increase(b, a);
    }
    lemma_pow2_pos(a.binade());
    assert(a.significand() >= 0);
    assert(a.units() >= 0) by (nonlinear_arith)
        requires
            a.units() == a.significand() * pow2(a.binade()),
            a.significand() >= 0,
            pow2(a.binade()) > 0,
    ;
}

proof fn lemma_units_increase(a: Scalar, b: Scalar)
    requires
        a.is_finite(),
        b.is_finite(),
        a.magnitude() < b.magnitude(),
    ensures
        a.units() < b.units(),
{
    let m = FRACTION_MODULUS as int;
    let (ea, fa) = (a.exponent_field(), a.fraction_field());
    let (eb, fb) = (b.exponent_field(), b.fraction_field());
    assert(a.magnitude() == ea * m + fa && 0 <= fa < m);
    assert(b.magnitude() == eb * m + fb && 0 <= fb < m);
    assert(ea <= eb) by (nonlinear_arith)
        requires
            ea * m + fa < eb * m + fb,
            0 <= fa < m,
            0 <= fb < m,
    ;
    let (pa, pb) = (pow2(a.binade()), pow2(b.binade()));
    lemma_pow2_pos(a.binade());
    lemma_pow2_pos(b.binade());
    if a.binade() == b.binade() {
        assert(a.significand() < b.significand());
        assert(a.significand() * pa < b.significand() * pa) by (nonlinear_arith)
            requires
                a.significand() < b.significand(),
                pa > 0,
        ;
    } else {
        assert(a.binade() < b.binade());
        lemma_pow2_strictly_increases(a.binade(), b.binade());
        lemma_pow2_adds(1, a.binade());
        assert(pow2(1) == 2) by {
            vstd::arithmetic::power2::lemma2_to64();
        }
        lemma_pow2_strictly_increases(a.binade(), (a.binade() + 1) as nat);
        if a.binade() + 1 < b.binade() {
            lemma_pow2_strictly_increases((a.binade() + 1) as nat, b.binade());
        }
        assert(2 * pa <= pb);
        assert(a.significand() < 2 * m);
        assert(b.significand() >= m);
        assert(a.significand() * pa < b.significand() * pb) by (nonlinear_arith)
            requires
                0 <= a.significand() < 2 * m,
                b.significand() >= m,
                2 * pa <= pb,
                pa > 0,
                m > 0,
        ;
    }
}

/// Finite numbers compare as their values do: the order that the comparisons decide
/// by rank is the order of the numbers that the patterns stand for.
pub proof fn lemma_order_is_by_value(a: Scalar, b: Scalar)
    requires
        a.is_finite(),
        b.is_finite(),
    ensures
        a.spec_lt(b) <==> a.signed_units() < b.signed_units(),
        a.spec_le(b) <==> a.signed_units() <= b.signed_units(),
        a.spec_gt(b) <==> a.signed_units() > b.signed_units(),
{
    lemma_magnitude_orders_units(a, b);
    lemma_magnitude_orders_units(b, a);
    let zero = Scalar::spec_zero();
    lemma_magnitude_orders_units(zero, a);
    lemma_magnitude_orders_units(zero, b);
    lemma_magnitude_orders_units(a, zero);
    lemma_magnitude_orders_units(b, zero);
    assert(zero.units() == 0) by {
        assert(zero.significand() == 0);
        assert(zero.units() == 0 * pow2(zero.binade()));
    }
}

/// Every finite number lies strictly between the infinities, and a NaN compares with
/// nothing.
pub proof fn lemma_infinities_and_nan(a: Scalar, b: Scalar)
    ensures
        a.is_finite() ==> a.spec_lt(Scalar { bits: INFINITY_BITS }) && (Scalar {
            bits: (SIGN_BIT + INFINITY_BITS) as u64,
        }).spec_lt(a),
        a.is_nan() ==> !a.spec_lt(b) && !b.spec_lt(a) && !a.spec_le(b) && !b.spec_le(a)
            && !a.spec_gt(b) && !b.spec_gt(a),
{
}

/// The order of numbers is total: of two numbers exactly one of `<`, `>` and equal rank holds.
pub proof fn lemma_order_total(a: Scalar, b: Scalar)
    requires
        !a.is_nan(),
        !b.is_nan(),
    ensures
        a.spec_lt(b) || a.spec_gt(b) || a.rank() == b.rank(),
        a.spec_le(b) <==> !a.spec_gt(b),
{
}

/// `<` is transitive, and `<=` chains with it.
pub proof fn lemma_order_transitive(a: Scalar, b: Scalar, c: Scalar)
    ensures
        a.spec_lt(b) && b.spec_lt(c) ==> a.spec_lt(c),
        a.spec_le(b) && b.spec_le(c) ==> a.spec_le(c),
        a.spec_le(b) && b.spec_lt(c) ==> a.spec_lt(c),
        a.spec_lt(b) && b.spec_le(c) ==> a.spec_lt(c),
{
}

/// An absolute value is never negative, and is a NaN only when its operand is. Of a
/// finite number it is the number without its sign.
pub proof fn lemma_abs_non_negative(a: Scalar)
    ensures
        !a.spec_abs().sign_negative(),
        a.spec_abs().is_nan() == a.is_nan(),
        a.spec_abs().rank() == a.magnitude(),
        !a.is_nan() ==> Scalar::spec_zero().spec_le(a.spec_abs()),
        a.is_finite() ==> a.spec_abs().is_finite() && a.spec_abs().signed_units() == (if a.signed_units()
            < 0 {
            -a.signed_units()
        } else {
            a.signed_units()
        }),
{
    if a.is_finite() {
        lemma_magnitude_orders_units(a, a);
        assert(a.spec_abs().magnitude() == a.magnitude());
    }
}

/// The maximum is one of its operands and, among numbers, below neither. Of two finite
/// numbers it has the larger value.
pub proof fn lemma_max_bounds(a: Scalar, b: Scalar)
    ensures
        a.spec_max(b) == a || a.spec_max(b) == b,
        !a.is_nan() && !b.is_nan() ==> a.spec_le(a.spec_max(b)) && b.spec_le(a.spec_max(b)),
        a.is_nan() ==> a.spec_max(b) == b,
        b.is_nan() ==> a.spec_max(b) == a || a.is_nan(),
        a.is_finite() && b.is_finite() ==> a.spec_max(b).signed_units() == (if a.signed_units()
            < b.signed_units() {
            b.signed_units()
        } else {
            a.signed_units()
        }),
{
    if a.is_finite() && b.is_finite() {
        lemma_order_is_by_value(a, b);
    }
}

/// Zero and one are the numbers 0 and 1.
pub proof fn lemma_zero_and_one()
    ensures
        Scalar::spec_zero().is_rounded(0, 1),
        Scalar::spec_zero().units() == 0,
        Scalar::spec_one().is_rounded(1, 1),
{
    lemma2_to64();
    lemma2_to64_rest();
    assert(Scalar::spec_zero().significand() == 0);
    assert(Scalar::spec_zero().units() == 0 * pow2(Scalar::spec_zero().binade()));
}

} // verus!
