//! Signed decimal fixed-point numbers with six fractional digits.
//!
//! Every quantity of the control laws (degrees, degrees per second, load
//! factors, seconds, normalised deflections, controller gains) is a `Fixed`:
//! a 64-bit count of millionths. Arithmetic never wraps; a result that does not
//! fit is pinned to the nearest representable value, and products and quotients
//! are rounded toward zero so that negating an operand negates the result.

use vstd::prelude::*;

verus! {

/// Number of raw steps in one whole unit.
pub const SCALE: i64 = 1_000_000;

/// The representable raw value nearest to `x`.
pub open spec fn saturate(x: int) -> int {
    if x < i64::MIN {
        i64::MIN as int
    } else if x > i64::MAX {
        i64::MAX as int
    } else {
        x
    }
}

/// `x / d` rounded toward zero, for a positive divisor.
pub open spec fn quotient(x: int, d: int) -> int
    recommends
        d > 0,
{
    if x >= 0 {
        x / d
    } else {
        -((-x) / d)
    }
}

/// Raw value of the product of two fixed-point numbers given by their raw values.
pub open spec fn product(a: int, b: int) -> int {
    saturate(quotient(a * b, SCALE as int))
}

/// Raw value of the ratio of two fixed-point numbers given by their raw values.
pub open spec fn ratio(a: int, b: int) -> int
    recommends
        b > 0,
{
    saturate(quotient(a * SCALE, b))
}

/// `x` limited to the interval from `lo` to `hi`; the lower bound is applied first.
pub open spec fn clamp_int(x: int, lo: int, hi: int) -> int {
    let y = if x < lo { lo } else { x };
    if y > hi {
        hi
    } else {
        y
    }
}

/// A fixed-point number; `raw` counts millionths.
#[derive(Clone, Copy, PartialEq, Eq, PartialOrd, Ord, Hash, Structural, Debug)]
pub struct Fixed {
    pub raw: i64,
}

impl View for Fixed {
    type V = int;

    open spec fn view(&self) -> int {
        self.raw as int
    }
}

proof fn lemma_product_fits(a: int, b: int)
    by (nonlinear_arith)
    requires
        i64::MIN <= a <= i64::MAX,
        i64::MIN <= b <= i64::MAX,
    ensures
        -0x4000_0000_0000_0000_0000_0000_0000_0000 <= a * b
            <= 0x4000_0000_0000_0000_0000_0000_0000_0000,
{
}

fn narrow(x: i128) -> (r: i64)
    ensures
        r == saturate(x as int),
{
    if x < i64::MIN as i128 {
        i64::MIN
    } else if x > i64::MAX as i128 {
        i64::MAX
    } else {
        x as i64
    }
}

impl Fixed {
    /// The number with the given count of millionths.
    pub fn from_micros(raw: i64) -> (r: Fixed)
        ensures
            r@ == raw,
    {
        Fixed { raw }
    }

    /// The whole number `n`.
    pub fn from_int(n: i32) -> (r: Fixed)
        ensures
            r@ == n * SCALE,
    {
        Fixed { raw: (n as i64) * SCALE }
    }

    /// Zero.
    pub fn zero() -> (r: Fixed)
        ensures
            r@ == 0,
    {
        Fixed { raw: 0 }
    }

    /// The count of millionths.
    pub fn micros(self) -> (r: i64)
        ensures
            r == self@,
    {
        self.raw
    }

    /// Saturating sum.
    pub fn plus(self, other: Fixed) -> (r: Fixed)
        ensures
            r@ == saturate(self@ + other@),
    {
        Fixed { raw: narrow(self.raw as i128 + other.raw as i128) }
    }

    /// Saturating difference.
    pub fn minus(self, other: Fixed) -> (r: Fixed)
        ensures
            r@ == saturate(self@ - other@),
    {
        Fixed { raw: narrow(self.raw as i128 - other.raw as i128) }
    }

    /// Saturating negation.
    pub fn negated(self) -> (r: Fixed)
        ensures
            r@ == saturate(-self@),
    {
        Fixed { raw: narrow(-(self.raw as i128)) }
    }

    /// Product, rounded toward zero and saturated.
    pub fn times(self, other: Fixed) -> (r: Fixed)
        ensures
            r@ == product(self@, other@),
    {
        proof {
            lemma_product_fits(self@, other@);
        }
        let wide: i128 = (self.raw as i128) * (other.raw as i128);
        Fixed { raw: narrow(wide / (SCALE as i128)) }
    }

    /// Ratio by a positive divisor, rounded toward zero and saturated.
    pub fn over(self, divisor: Fixed) -> (r: Fixed)
        requires
            divisor@ > 0,
        ensures
            r@ == ratio(self@, divisor@),
    {
        let wide: i128 = (self.raw as i128) * (SCALE as i128);
        Fixed { raw: narrow(wide / (divisor.raw as i128)) }
    }

    /// Whether the number is below zero. Zero itself counts as positive.
    pub fn is_negative(self) -> (r: bool)
        ensures
            r == (self@ < 0),
    {
        self.raw < 0
    }
}

} // verus!
