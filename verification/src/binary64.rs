//! IEEE-754 binary64 numbers, held by their encoding.
//!
//! The library never does arithmetic on these numbers. It orders them, tests
//! their sign and class, and moves them around; all of that is exact on the
//! encoding. What an encoding denotes is stated over the reals.

use vstd::prelude::*;
use vstd::arithmetic::power2::*;
use vstd::arithmetic::mul::*;

verus! {

/// Encoding of the sign bit.
pub const SIGN_BIT: u64 = 0x8000_0000_0000_0000;

/// Encoding of positive infinity; every larger magnitude encodes a NaN.
pub const INFINITY_BITS: u64 = 0x7FF0_0000_0000_0000;

/// Number of encodings that share one exponent, `2^52`.
pub const FRACTION_SPAN: u64 = 0x0010_0000_0000_0000;

/// What a binary64 encoding denotes.
pub enum Number {
    /// Not a number.
    Nan,
    /// Negative infinity.
    NegInfinity,
    /// A finite number.
    Finite { value: real },
    /// Positive infinity.
    PosInfinity,
}

/// A binary64 number by its 64-bit encoding.
#[derive(Clone, Copy, Debug, PartialEq, Eq, Structural)]
pub struct Binary64 {
    pub bits: u64,
}

/// How many times the smallest positive binary64, `2^-1074`, goes into one.
pub open spec fn steps_per_unit() -> int {
    pow2(1074) as int
}

/// How many times `2^-1074` goes into `|x|`, for the finite `x` whose
/// encoding, sign bit cleared, is `magnitude`. Every finite binary64 is a
/// whole multiple of `2^-1074`.
pub open spec fn magnitude_steps(magnitude: int) -> int {
    let exponent = magnitude / (FRACTION_SPAN as int);
    let fraction = magnitude % (FRACTION_SPAN as int);
    if exponent == 0 {
        fraction
    } else {
        (FRACTION_SPAN + fraction) * pow2((exponent - 1) as nat)
    }
}

/// The real number that is `steps` times `2^-1074`.
pub open spec fn steps_value(steps: int) -> real {
    (steps as real) / (steps_per_unit() as real)
}

impl Binary64 {
    /// The sign bit is set.
    pub open spec fn sign_negative(self) -> bool {
        self.bits >= SIGN_BIT
    }

    /// The encoding with the sign bit cleared.
    pub open spec fn magnitude(self) -> int {
        if self.bits >= SIGN_BIT {
            self.bits - SIGN_BIT
        } else {
            self.bits as int
        }
    }

    /// The encoding is that of a NaN.
    pub open spec fn is_nan(self) -> bool {
        self.magnitude() > INFINITY_BITS
    }

    /// The encoding is that of a finite number.
    pub open spec fn is_finite(self) -> bool {
        self.magnitude() < INFINITY_BITS
    }

    /// How many times `2^-1074` goes into a finite number; negative for a
    /// negative number.
    pub open spec fn steps(self) -> int {
        if self.sign_negative() {
            -magnitude_steps(self.magnitude())
        } else {
            magnitude_steps(self.magnitude())
        }
    }

    /// The value of a finite number.
    pub open spec fn value(self) -> real {
        steps_value(self.steps())
    }

    /// The number with the opposite sign: the encoding with the sign bit
    /// flipped.
    pub open spec fn negated(self) -> Binary64 {
        if self.bits >= SIGN_BIT {
            Binary64 { bits: (self.bits - SIGN_BIT) as u64 }
        } else {
            Binary64 { bits: (self.bits + SIGN_BIT) as u64 }
        }
    }

    /// The number is less than zero. Neither zero, of either sign, nor a NaN
    /// is.
    pub open spec fn below_zero(self) -> bool {
        match self@ {
            Number::NegInfinity => true,
            Number::Finite { value } => value < 0 as real,
            _ => false,
        }
    }
}

impl View for Binary64 {
    type V = Number;

    open spec fn view(&self) -> Number {
        if self.is_nan() {
            Number::Nan
        } else if self.is_finite() {
            Number::Finite { value: self.value() }
        } else if self.sign_negative() {
            Number::NegInfinity
        } else {
            Number::PosInfinity
        }
    }
}

/// Numbers are ordered as their counts of steps are, and the count of the
/// negated number is the negated count.
pub proof fn lemma_steps_value(a: int, b: int)
    ensures
        a <= b <==> steps_value(a) <= steps_value(b),
        a < b <==> steps_value(a) < steps_value(b),
        a == b <==> steps_value(a) == steps_value(b),
        steps_value(-a) == -steps_value(a),
        steps_value(0) == 0 as real,
{
    lemma_pow2_pos(1074);
    let unit = steps_per_unit() as real;
    let x = a as real;
    let y = b as real;
    assert(unit > 0 as real);
    assert(x <= y <==> x / unit <= y / unit) by (nonlinear_arith)
        requires
            unit > 0 as real,
    ;
    assert(x < y <==> x / unit < y / unit) by (nonlinear_arith)
        requires
            unit > 0 as real,
    ;
    assert((-x) / unit == -(x / unit)) by (nonlinear_arith)
        requires
            unit > 0 as real,
    ;
    assert((-a) as real == -x);
    assert((0 as real) / unit == 0 as real) by (nonlinear_arith)
        requires
            unit > 0 as real,
    ;
}

/// A whole number of units has that number as its value.
pub proof fn lemma_whole_value(n: int)
    ensures
        steps_value(n * steps_per_unit()) == n as real,
{
    lemma_pow2_pos(1074);
    let unit = steps_per_unit() as real;
    assert((n * steps_per_unit()) as real == (n as real) * unit) by (nonlinear_arith)
        requires
            unit == steps_per_unit() as real,
    ;
    assert(((n as real) * unit) / unit == n as real) by (nonlinear_arith)
        requires
            unit > 0 as real,
    ;
}

/// Zero is the only finite magnitude that encodes zero.
pub proof fn lemma_magnitude_steps_positive(magnitude: int)
    requires
        0 <= magnitude < SIGN_BIT,
    ensures
        magnitude_steps(magnitude) >= 0,
        magnitude < INFINITY_BITS ==> (magnitude_steps(magnitude) == 0 <==> magnitude == 0),
{
    let span = FRACTION_SPAN as int;
    let exponent = magnitude / span;
    let fraction = magnitude % span;
    assert(magnitude == exponent * span + fraction);
    if exponent != 0 {
        lemma_pow2_pos((exponent - 1) as nat);
        lemma_mul_strictly_positive(span + fraction, pow2((exponent - 1) as nat) as int);
    }
}

/// Among finite encodings with the sign bit cleared, a larger encoding is a
/// larger number.
pub proof fn lemma_magnitude_steps_increase(a: int, b: int)
    requires
        0 <= a < b < INFINITY_BITS,
    ensures
        0 <= magnitude_steps(a) < magnitude_steps(b),
{
    let span = FRACTION_SPAN as int;
    let ea = a / span;
    let fa = a % span;
    let eb = b / span;
    let fb = b % span;
    assert(a == ea * span + fa && b == eb * span + fb);
    assert(0 <= ea <= eb < 2047);
    if ea == eb {
        if ea != 0 {
            let p = pow2((ea - 1) as nat) as int;
            lemma_pow2_pos((ea - 1) as nat);
            lemma_mul_strict_inequality(span + fa, span + fb, p);
            lemma_mul_nonnegative(span + fa, p);
        }
    } else {
        let pb = pow2((eb - 1) as nat) as int;
        lemma_pow2_pos((eb - 1) as nat);
        lemma_mul_inequality(1, pb, span + fb);
        assert(span + fb <= (span + fb) * pb) by {
            lemma_mul_is_commutative(span + fb, pb);
        }
        if ea != 0 {
            let pa = pow2((ea - 1) as nat) as int;
            lemma_pow2_pos((ea - 1) as nat);
            lemma_pow2_unfold(ea as nat);
            if ea < eb - 1 {
                lemma_pow2_strictly_increases(ea as nat, (eb - 1) as nat);
            }
            assert(2 * pa <= pb);
            lemma_mul_strict_inequality(span + fa, 2 * span, pa);
            assert((2 * span) * pa == span * (2 * pa)) by (nonlinear_arith);
            lemma_mul_inequality(2 * pa, pb, span);
            assert(span * (2 * pa) <= span * pb) by {
                lemma_mul_is_commutative(span, 2 * pa);
                lemma_mul_is_commutative(span, pb);
            }
            lemma_mul_inequality(span, span + fb, pb);
            lemma_mul_nonnegative(span + fa, pa);
        }
    }
}

impl Binary64 {
    /// The number with the given encoding.
    pub fn from_bits(bits: u64) -> (r: Self)
        ensures
            r.bits == bits,
    {
        Binary64 { bits }
    }

    /// The encoding of the number.
    pub fn to_bits(self) -> (r: u64)
        ensures
            r == self.bits,
    {
        self.bits
    }

    /// Positive zero.
    pub fn zero() -> (r: Self)
        ensures
            r.bits == 0,
            r@ == (Number::Finite { value: 0 as real }),
    {
        proof {
            lemma_steps_value(0, 0);
        }
        Binary64 { bits: 0 }
    }

    /// The number with the opposite sign.
    pub fn negate(self) -> (r: Self)
        ensures
            r == self.negated(),
    {
        if self.bits >= SIGN_BIT {
            Binary64 { bits: self.bits - SIGN_BIT }
        } else {
            Binary64 { bits: self.bits + SIGN_BIT }
        }
    }

    /// Whether the number is less than zero.
    pub fn is_below_zero(self) -> (r: bool)
        ensures
            r == self.below_zero(),
    {
        proof {
            lemma_magnitude_steps_positive(self.magnitude());
            lemma_steps_value(self.steps(), 0);
        }
        self.bits > SIGN_BIT && self.bits - SIGN_BIT <= INFINITY_BITS
    }

    /// Negation changes the sign of a number and nothing else; a NaN stays
    /// a NaN.
    pub proof fn lemma_negated(self)
        ensures
            self.negated().negated() == self,
            self.negated().magnitude() == self.magnitude(),
            self.negated().sign_negative() == !self.sign_negative(),
            self.negated()@ == match self@ {
                Number::Nan => Number::Nan,
                Number::NegInfinity => Number::PosInfinity,
                Number::PosInfinity => Number::NegInfinity,
                Number::Finite { value } => Number::Finite { value: -value },
            },
    {
        lemma_steps_value(self.steps(), 0);
        lemma_steps_value(self.negated().steps(), 0);
    }

    /// Whether a finite number is zero, of either sign, is read off its
    /// magnitude.
    pub proof fn lemma_zero(self)
        requires
            self.is_finite(),
        ensures
            self.value() == 0 as real <==> self.magnitude() == 0,
    {
        lemma_magnitude_steps_positive(self.magnitude());
        lemma_steps_value(self.steps(), 0);
    }
}

} // verus!
