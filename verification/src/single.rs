//! Single-precision numbers carried by their IEEE-754 binary32 encoding.
//!
//! The library never computes with such a number; it only orders them. The
//! encoding is a sign bit over a 31-bit magnitude, and the magnitude is an
//! 8-bit exponent field over a 23-bit fraction. Every finite value is a whole
//! multiple of 2^-149, so the model of a value is that multiple, an `int`.

use vstd::prelude::*;
use vstd::arithmetic::power2::{pow2, lemma_pow2_pos, lemma_pow2_unfold, lemma_pow2_adds,
    lemma_pow2_strictly_increases, lemma2_to64};

verus! {

/// The sign bit of an encoding.
pub const SIGN_BIT: u32 = 0x8000_0000;

/// The magnitude that encodes infinity; every larger magnitude is a NaN.
pub const INFINITY_MAGNITUDE: u32 = 0x7f80_0000;

/// Number of fraction values per exponent: 2^23.
pub const FRACTION_STEPS: u32 = 0x80_0000;

/// Encoding of 0.
pub const ZERO_BITS: u32 = 0x0000_0000;

/// Encoding of 1/2.
pub const HALF_BITS: u32 = 0x3f00_0000;

/// Encoding of 1.
pub const ONE_BITS: u32 = 0x3f80_0000;

/// Encoding of -40.
pub const MINUS_40_BITS: u32 = 0xc220_0000;

/// Encoding of 89.
pub const PLUS_89_BITS: u32 = 0x42b2_0000;

/// Encoding of -89.
pub const MINUS_89_BITS: u32 = 0xc2b2_0000;

/// Encoding of 90.
pub const PLUS_90_BITS: u32 = 0x42b4_0000;

/// Encoding of -90.
pub const MINUS_90_BITS: u32 = 0xc2b4_0000;

/// Encoding of 180.
pub const PLUS_180_BITS: u32 = 0x4334_0000;

/// Encoding of -180.
pub const MINUS_180_BITS: u32 = 0xc334_0000;

/// What a magnitude stands for, in units of 2^-149.
///
/// Below 2^23 the magnitude is a subnormal fraction and counts the units
/// itself. From there on, exponent field `e` and fraction `f` stand for
/// `(2^23 + f) * 2^(e - 1)` units. The magnitude of infinity gets a number
/// beyond every finite one.
pub open spec fn scaled_magnitude(m: int) -> int {
    if m < FRACTION_STEPS {
        m
    } else {
        (FRACTION_STEPS + m % (FRACTION_STEPS as int)) * pow2(
            (m / (FRACTION_STEPS as int) - 1) as nat,
        )
    }
}

/// The whole number `n` in units of 2^-149.
pub open spec fn whole(n: int) -> int {
    n * pow2(149)
}

/// A single-precision number, held as its 32-bit encoding.
#[derive(Clone, Copy, Debug, PartialEq, Eq, Structural)]
pub struct Single {
    pub bits: u32,
}

/// The number that `bits` encodes.
pub open spec fn number(bits: u32) -> Single {
    Single { bits }
}

impl Single {
    /// The encoding without its sign bit.
    pub open spec fn magnitude(self) -> int {
        if self.bits >= SIGN_BIT {
            self.bits - SIGN_BIT
        } else {
            self.bits as int
        }
    }

    /// The sign bit is set (true of -0 as well).
    pub open spec fn sign_negative(self) -> bool {
        self.bits >= SIGN_BIT
    }

    /// The encoding is not a number.
    pub open spec fn is_nan(self) -> bool {
        self.magnitude() > INFINITY_MAGNITUDE
    }

    /// The encoded number in units of 2^-149; both zeros give 0.
    pub open spec fn scaled(self) -> int {
        if self.sign_negative() {
            -scaled_magnitude(self.magnitude())
        } else {
            scaled_magnitude(self.magnitude())
        }
    }

    /// The key by which encodings are ordered: the magnitude, negated under
    /// a set sign bit.
    pub open spec fn key(self) -> int {
        if self.sign_negative() {
            -self.magnitude()
        } else {
            self.magnitude()
        }
    }

    /// `self < other` as IEEE-754 orders them: false when either is a NaN.
    pub open spec fn precedes(self, other: Single) -> bool {
        !self.is_nan() && !other.is_nan() && self.scaled() < other.scaled()
    }

    /// `self <= other` as IEEE-754 orders them: false when either is a NaN.
    pub open spec fn at_most(self, other: Single) -> bool {
        !self.is_nan() && !other.is_nan() && self.scaled() <= other.scaled()
    }

    /// `self == other` as IEEE-754 compares them: false when either is a
    /// NaN, true of the two zeros.
    pub open spec fn same_number(self, other: Single) -> bool {
        !self.is_nan() && !other.is_nan() && self.scaled() == other.scaled()
    }

    /// The number with the given encoding.
    pub fn from_bits(bits: u32) -> (r: Single)
        ensures
            r == number(bits),
    {
        Single { bits }
    }

    /// The encoding of the number.
    pub fn to_bits(self) -> (r: u32)
        ensures
            r == self.bits,
    {
        self.bits
    }

    /// Whether the encoding is not a number.
    pub fn nan(self) -> (r: bool)
        ensures
            r == self.is_nan(),
    {
        if self.bits >= SIGN_BIT {
            self.bits - SIGN_BIT > INFINITY_MAGNITUDE
        } else {
            self.bits > INFINITY_MAGNITUDE
        }
    }

    fn ordering_key(self) -> (k: i64)
        ensures
            k == self.key(),
    {
        if self.bits >= SIGN_BIT {
            let m: u32 = self.bits - SIGN_BIT;
            0 - (m as i64)
        } else {
            self.bits as i64
        }
    }

    /// Strict order of two numbers.
    pub fn lt(self, other: Single) -> (r: bool)
        ensures
            r == self.precedes(other),
    {
        if self.nan() || other.nan() {
            return false;
        }
        proof {
            lemma_key_orders_as_value(self, other);
        }
        self.ordering_key() < other.ordering_key()
    }

    /// Weak order of two numbers.
    pub fn le(self, other: Single) -> (r: bool)
        ensures
            r == self.at_most(other),
    {
        if self.nan() || other.nan() {
            return false;
        }
        proof {
            lemma_key_orders_as_value(self, other);
        }
        self.ordering_key() <= other.ordering_key()
    }

    /// Numeric equality of two numbers.
    pub fn same(self, other: Single) -> (r: bool)
        ensures
            r == self.same_number(other),
    {
        if self.nan() || other.nan() {
            return false;
        }
        proof {
            lemma_key_orders_as_value(self, other);
        }
        self.ordering_key() == other.ordering_key()
    }
}

/// A larger magnitude stands for a larger number.
pub proof fn lemma_scaled_magnitude_increases(m1: int, m2: int)
    requires
        0 <= m1 < m2,
    ensures
        0 <= scaled_magnitude(m1) < scaled_magnitude(m2),
{
    let steps = FRACTION_STEPS as int;
    if m2 < steps {
    } else {
        let e2 = m2 / steps;
        let f2 = m2 % steps;
        let p2 = pow2((e2 - 1) as nat) as int;
        lemma_pow2_pos((e2 - 1) as nat);
        assert((steps + f2) * p2 >= steps) by (nonlinear_arith)
            requires
                p2 >= 1,
                f2 >= 0,
                steps > 0,
        ;
        if m1 < steps {
        } else {
            let e1 = m1 / steps;
            let f1 = m1 % steps;
            let p1 = pow2((e1 - 1) as nat) as int;
            lemma_pow2_pos((e1 - 1) as nat);
            assert((steps + f1) * p1 >= 0) by (nonlinear_arith)
                requires
                    p1 >= 1,
                    f1 >= 0,
                    steps > 0,
            ;
            if e1 == e2 {
                assert((steps + f1) * p1 < (steps + f2) * p1) by (nonlinear_arith)
                    requires
                        p1 >= 1,
                        f1 < f2,
                ;
            } else {
                assert(e1 < e2);
                lemma_pow2_unfold(e1 as nat);
                if e1 < e2 - 1 {
                    lemma_pow2_strictly_increases(e1 as nat, (e2 - 1) as nat);
                }
                assert((steps + f1) * p1 < (steps + f2) * p2) by (nonlinear_arith)
                    requires
                        p1 >= 1,
                        p2 >= 2 * p1,
                        0 <= f1 < steps,
                        0 <= f2,
                ;
            }
        }
    }
}

/// Two encodings of numbers are ordered by their keys as the numbers are by
/// their values.
pub proof fn lemma_key_orders_as_value(a: Single, b: Single)
    ensures
        a.key() < b.key() <==> a.scaled() < b.scaled(),
        a.key() == b.key() <==> a.scaled() == b.scaled(),
{
    let ma = a.magnitude();
    let mb = b.magnitude();
    if ma < mb {
        lemma_scaled_magnitude_increases(ma, mb);
    }
    if mb < ma {
        lemma_scaled_magnitude_increases(mb, ma);
    }
    if 0 < ma {
        lemma_scaled_magnitude_increases(0, ma);
    }
    if 0 < mb {
        lemma_scaled_magnitude_increases(0, mb);
    }
}

/// What the named encodings stand for.
pub proof fn lemma_named_encodings()
    ensures
        number(ZERO_BITS).scaled() == 0,
        number(HALF_BITS).scaled() * 2 == whole(1),
        number(ONE_BITS).scaled() == whole(1),
        number(MINUS_40_BITS).scaled() == whole(-40),
        number(PLUS_89_BITS).scaled() == whole(89),
        number(MINUS_89_BITS).scaled() == whole(-89),
        number(PLUS_90_BITS).scaled() == whole(90),
        number(MINUS_90_BITS).scaled() == whole(-90),
        number(PLUS_180_BITS).scaled() == whole(180),
        number(MINUS_180_BITS).scaled() == whole(-180),
        !number(ZERO_BITS).is_nan(),
        !number(HALF_BITS).is_nan(),
        !number(ONE_BITS).is_nan(),
        !number(MINUS_40_BITS).is_nan(),
        !number(PLUS_89_BITS).is_nan(),
        !number(MINUS_89_BITS).is_nan(),
        !number(PLUS_90_BITS).is_nan(),
        !number(MINUS_90_BITS).is_nan(),
        !number(PLUS_180_BITS).is_nan(),
        !number(MINUS_180_BITS).is_nan(),
{
    lemma2_to64();
    let unit = pow2(149) as int;
    // 1/2 and 1 sit at fraction 0 of exponent fields 126 and 127.
    lemma_pow2_adds(23, 125);
    lemma_pow2_adds(23, 126);
    lemma_pow2_unfold(149);
    lemma_pow2_unfold(148);
    assert(scaled_magnitude(0x3f00_0000) == 0x80_0000 * pow2(125));
    assert(scaled_magnitude(0x3f80_0000) == 0x80_0000 * pow2(126));
    // 40 = 5 * 2^3, 89 = 89 * 2^0, 90 = 45 * 2^1, 180 = 45 * 2^2: each
    // encoding holds the odd part shifted up to 24 bits.
    lemma_pow2_adds(18, 131);
    lemma_pow2_adds(17, 132);
    lemma_pow2_adds(16, 133);
    let p131 = pow2(131) as int;
    let p132 = pow2(132) as int;
    let p133 = pow2(133) as int;
    assert(scaled_magnitude(0x4220_0000) == 0xa0_0000 * p131);
    assert(scaled_magnitude(0x42b2_0000) == 0xb2_0000 * p132);
    assert(scaled_magnitude(0x42b4_0000) == 0xb4_0000 * p132);
    assert(scaled_magnitude(0x4334_0000) == 0xb4_0000 * p133);
    assert(0xa0_0000 * p131 == 40 * unit) by (nonlinear_arith)
        requires
            unit == 0x4_0000 * p131,
    ;
    assert(0xb2_0000 * p132 == 89 * unit) by (nonlinear_arith)
        requires
            unit == 0x2_0000 * p132,
    ;
    assert(0xb4_0000 * p132 == 90 * unit) by (nonlinear_arith)
        requires
            unit == 0x2_0000 * p132,
    ;
    assert(0xb4_0000 * p133 == 180 * unit) by (nonlinear_arith)
        requires
            unit == 0x1_0000 * p133,
    ;
}

} // verus!
