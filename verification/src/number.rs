//! A double-precision number, carried by its IEEE-754 bit pattern.
//!
//! The library never adds or multiplies numbers: it orders them, picks among them,
//! negates them and copies them. All of that is exact on the bit pattern.
use vstd::prelude::*;

verus! {

/// The sign bit of a bit pattern.
pub const SIGN_BIT: u64 = 0x8000_0000_0000_0000;

/// The magnitude of positive infinity; larger magnitudes are not numbers.
pub const INFINITY_BITS: u64 = 0x7ff0_0000_0000_0000;

/// A double-precision number by its bit pattern. `==` compares bit patterns, so it
/// tells `-0` from `+0` and holds of a NaN and itself.
#[derive(Clone, Copy, Debug, PartialEq, Eq, Structural)]
pub struct Real {
    pub bits: u64,
}

impl Real {
    /// The bit pattern without its sign.
    pub open spec fn magnitude(self) -> int {
        if self.bits >= SIGN_BIT {
            self.bits - SIGN_BIT
        } else {
            self.bits as int
        }
    }

    /// An integer that orders numbers as they are ordered on the real line: both
    /// zeros map to 0, and of two numbers the larger one has the larger rank.
    pub open spec fn rank(self) -> int {
        if self.bits >= SIGN_BIT {
            -self.magnitude()
        } else {
            self.magnitude()
        }
    }

    /// Whether the bit pattern is a number (an infinity is one).
    pub open spec fn is_number(self) -> bool {
        self.magnitude() <= INFINITY_BITS
    }

    /// `self < other`: false as soon as one of the two is NaN.
    pub open spec fn less(self, other: Real) -> bool {
        self.is_number() && other.is_number() && self.rank() < other.rank()
    }

    /// `self <= other`: false as soon as one of the two is NaN.
    pub open spec fn at_most(self, other: Real) -> bool {
        self.is_number() && other.is_number() && self.rank() <= other.rank()
    }

    /// `self == other` as numbers: the two zeros are equal, NaN equals nothing.
    pub open spec fn same(self, other: Real) -> bool {
        self.is_number() && other.is_number() && self.rank() == other.rank()
    }

    /// The number limited to `lo..=hi`; NaN stays NaN.
    pub open spec fn clamped_to(self, lo: Real, hi: Real) -> Real {
        if self.less(lo) {
            lo
        } else if hi.less(self) {
            hi
        } else {
            self
        }
    }

    /// The larger of two numbers; NaN only where both are.
    pub open spec fn larger(self, other: Real) -> Real {
        if !self.is_number() || self.less(other) {
            other
        } else {
            self
        }
    }

    /// The smaller of two numbers; NaN only where both are.
    pub open spec fn smaller(self, other: Real) -> Real {
        if !self.is_number() || other.less(self) {
            other
        } else {
            self
        }
    }

    /// The same magnitude under the other sign.
    pub open spec fn negated(self) -> Real {
        if self.bits >= SIGN_BIT {
            Real { bits: (self.bits - SIGN_BIT) as u64 }
        } else {
            Real { bits: (self.bits + SIGN_BIT) as u64 }
        }
    }

    /// The same magnitude without the sign.
    pub open spec fn unsigned(self) -> Real {
        Real { bits: self.magnitude() as u64 }
    }

    /// `+0`.
    pub open spec fn zero_value() -> Real {
        Real { bits: 0 }
    }

    /// `+1`.
    pub open spec fn one_value() -> Real {
        Real { bits: 0x3ff0_0000_0000_0000 }
    }

    /// `-1`.
    pub open spec fn minus_one_value() -> Real {
        Real { bits: 0xbff0_0000_0000_0000 }
    }

    pub fn from_bits(bits: u64) -> (r: Real)
        ensures
            r.bits == bits,
    {
        Real { bits }
    }

    pub fn to_bits(self) -> (bits: u64)
        ensures
            bits == self.bits,
    {
        self.bits
    }

    pub fn zero() -> (r: Real)
        ensures
            r == Real::zero_value(),
    {
        Real { bits: 0 }
    }

    pub fn one() -> (r: Real)
        ensures
            r == Real::one_value(),
    {
        Real { bits: 0x3ff0_0000_0000_0000 }
    }

    pub fn minus_one() -> (r: Real)
        ensures
            r == Real::minus_one_value(),
    {
        Real { bits: 0xbff0_0000_0000_0000 }
    }

    /// The magnitude as an integer.
    fn magnitude_bits(self) -> (m: u64)
        ensures
            m == self.magnitude(),
    {
        if self.bits >= SIGN_BIT {
            self.bits - SIGN_BIT
        } else {
            self.bits
        }
    }

    pub fn is_nan(self) -> (r: bool)
        ensures
            r == !self.is_number(),
    {
        self.magnitude_bits() > INFINITY_BITS
    }

    /// Neither NaN nor an infinity.
    pub fn is_finite(self) -> (r: bool)
        ensures
            r == (self.magnitude() < INFINITY_BITS),
    {
        self.magnitude_bits() < INFINITY_BITS
    }

    /// `self < other` on numbers.
    pub fn lt(self, other: Real) -> (r: bool)
        ensures
            r == self.less(other),
    {
        if self.is_nan() || other.is_nan() {
            return false;
        }
        let a: u64 = self.magnitude_bits();
        let b: u64 = other.magnitude_bits();
        if self.bits < SIGN_BIT {
            other.bits < SIGN_BIT && a < b
        } else if other.bits < SIGN_BIT {
            a > 0 || b > 0
        } else {
            b < a
        }
    }

    /// `self <= other` on numbers.
    pub fn le(self, other: Real) -> (r: bool)
        ensures
            r == self.at_most(other),
    {
        !self.is_nan() && !other.is_nan() && !other.lt(self)
    }

    /// `self == other` on numbers.
    pub fn equals(self, other: Real) -> (r: bool)
        ensures
            r == self.same(other),
    {
        self.le(other) && other.le(self)
    }

    /// The number limited to `lo..=hi`.
    pub fn clamp(self, lo: Real, hi: Real) -> (r: Real)
        requires
            lo.at_most(hi),
        ensures
            r == self.clamped_to(lo, hi),
    {
        if self.lt(lo) {
            lo
        } else if hi.lt(self) {
            hi
        } else {
            self
        }
    }

    /// The larger of two numbers; of two equal ones the first.
    pub fn max(self, other: Real) -> (r: Real)
        ensures
            r == self.larger(other),
    {
        if self.is_nan() || self.lt(other) {
            other
        } else {
            self
        }
    }

    /// The smaller of two numbers; of two equal ones the first.
    pub fn min(self, other: Real) -> (r: Real)
        ensures
            r == self.smaller(other),
    {
        if self.is_nan() || other.lt(self) {
            other
        } else {
            self
        }
    }

    pub fn abs(self) -> (r: Real)
        ensures
            r == self.unsigned(),
    {
        Real { bits: self.magnitude_bits() }
    }

    pub fn neg(self) -> (r: Real)
        ensures
            r == self.negated(),
    {
        if self.bits >= SIGN_BIT {
            Real { bits: self.bits - SIGN_BIT }
        } else {
            Real { bits: self.bits + SIGN_BIT }
        }
    }
}

/// On numbers, `<` is a strict order in which any two are related or equal in rank.
pub proof fn order_is_total(a: Real, b: Real)
    requires
        a.is_number(),
        b.is_number(),
    ensures
        a.less(b) || b.less(a) || a.rank() == b.rank(),
        !(a.less(b) && b.less(a)),
        a.at_most(b) == !b.less(a),
{
}

/// `<` carries over a chain of three.
pub proof fn order_is_transitive(a: Real, b: Real, c: Real)
    requires
        a.less(b),
        b.less(c),
    ensures
        a.less(c),
{
}

/// A clamped number lies within the limits, and clamping it again changes nothing.
pub proof fn clamp_is_idempotent(x: Real, lo: Real, hi: Real)
    requires
        x.is_number(),
        lo.at_most(hi),
    ensures
        lo.at_most(x.clamped_to(lo, hi)),
        x.clamped_to(lo, hi).at_most(hi),
        x.clamped_to(lo, hi).clamped_to(lo, hi) == x.clamped_to(lo, hi),
{
}

/// Negation swaps the order, and undoes itself.
pub proof fn negation_reverses_order(a: Real, b: Real)
    ensures
        a.negated().negated() == a,
        a.less(b) == b.negated().less(a.negated()),
{
}

/// Numbers are ordered by their bit patterns: upwards among those without a sign, downwards
/// among those with one, and what has a sign lies below what has none, but for the two zeros.
pub proof fn order_follows_the_bits(a: u64, b: u64)
    requires
        a <= INFINITY_BITS,
        b <= INFINITY_BITS,
    ensures
        ({
            let (x, y) = (Real { bits: a }, Real { bits: b });
            let (nx, ny) = (
                Real { bits: (a + SIGN_BIT) as u64 },
                Real { bits: (b + SIGN_BIT) as u64 },
            );
            &&& x.less(y) <==> a < b
            &&& x.at_most(y) <==> a <= b
            &&& x.same(y) <==> a == b
            &&& nx.less(ny) <==> b < a
            &&& nx.at_most(ny) <==> b <= a
            &&& nx.same(ny) <==> a == b
            &&& nx.less(y) <==> a > 0 || b > 0
            &&& nx.at_most(y)
            &&& !x.less(ny)
            &&& x.at_most(ny) <==> a == 0 && b == 0
            &&& x.same(ny) <==> a == 0 && b == 0
            &&& x.negated() == nx && nx.negated() == x
            &&& x.unsigned() == x && nx.unsigned() == x
        }),
{
}

/// What is not a number is neither below nor above nor equal to anything, stays what it is
/// when it is limited, and gives way where the larger or the smaller of two is asked for.
pub proof fn what_is_no_number_has_no_order(bits: u64, other: Real)
    requires
        INFINITY_BITS < bits < SIGN_BIT || bits > SIGN_BIT + INFINITY_BITS,
    ensures
        ({
            let x = Real { bits };
            &&& !x.is_number()
            &&& !x.less(other) && !other.less(x)
            &&& !x.at_most(other) && !other.at_most(x)
            &&& !x.same(other) && !other.same(x)
            &&& x.clamped_to(other, other) == x
            &&& x.larger(other) == other && x.smaller(other) == other
            &&& other.is_number() ==> other.larger(x) == other && other.smaller(x) == other
        }),
{
}

/// A number within the limits is left as it is; one below them comes to the lower limit, one
/// above them to the upper.
pub proof fn clamp_moves_only_what_is_outside(x: Real, lo: Real, hi: Real)
    requires
        lo.at_most(hi),
    ensures
        x.less(lo) ==> x.clamped_to(lo, hi) == lo,
        hi.less(x) ==> x.clamped_to(lo, hi) == hi,
        lo.at_most(x) && x.at_most(hi) ==> x.clamped_to(lo, hi) == x,
{
}

/// The larger of two numbers is one of them and below neither; the smaller is one of them and
/// above neither.
pub proof fn larger_and_smaller_are_extremes(a: Real, b: Real)
    requires
        a.is_number(),
        b.is_number(),
    ensures
        a.larger(b) == a || a.larger(b) == b,
        a.at_most(a.larger(b)) && b.at_most(a.larger(b)),
        a.smaller(b) == a || a.smaller(b) == b,
        a.smaller(b).at_most(a) && a.smaller(b).at_most(b),
        a.same(b) ==> a.larger(b) == a && a.smaller(b) == a,
{
}

/// A number without its sign is the number or its negation, and is not below 0.
pub proof fn unsigned_is_not_below_zero(a: Real)
    requires
        a.is_number(),
    ensures
        a.unsigned() == a || a.unsigned() == a.negated(),
        Real::zero_value().at_most(a.unsigned()),
        Real::zero_value().less(a) ==> a.unsigned() == a,
        Real::zero_value().less(Real::one_value()),
        Real::minus_one_value() == Real::one_value().negated(),
        Real::zero_value().same(Real::zero_value().negated()),
{
}

} // verus!
