//! Exact rational numbers used as the engine's price signal.
//!
//! The driving loop observes one price per block and hands it to the
//! strategy pipeline. A price is kept as a signed numerator over an
//! unsigned denominator, so comparisons and the moving-average
//! recurrence are exact: no rounding enters the decision path.

use vstd::prelude::*;

verus! {

/// A signed exact rational `num / den`.
///
/// Well-formed values have `den >= 1`; only then do the cross-multiplied
/// comparison predicates below order values as rationals. The strategy
/// code itself never divides by `den`, so even a malformed value cannot
/// make a decision step fail.
#[derive(Clone, Copy, Debug, PartialEq, Eq, Structural)]
pub struct Rational {
    pub num: i64,
    pub den: u64,
}

impl Rational {
    /// The denominator is positive, so the value denotes `num / den`.
    pub open spec fn wf(self) -> bool {
        self.den >= 1
    }

    /// `self <= other` as rationals, by cross multiplication.
    pub open spec fn is_le(self, other: Rational) -> bool {
        self.num * other.den <= other.num * self.den
    }

    /// `self < other` as rationals, by cross multiplication.
    pub open spec fn is_lt(self, other: Rational) -> bool {
        self.num * other.den < other.num * self.den
    }

    /// `self >= other` as rationals, by cross multiplication.
    pub open spec fn is_ge(self, other: Rational) -> bool {
        other.num * self.den <= self.num * other.den
    }

    /// `self` and `other` denote the same rational.
    pub open spec fn same_value(self, other: Rational) -> bool {
        self.num * other.den == other.num * self.den
    }

    pub fn new(num: i64, den: u64) -> (r: Rational)
        requires
            den >= 1,
        ensures
            r.num == num,
            r.den == den,
            r.wf(),
    {
        Rational { num, den }
    }

    pub fn from_int(num: i64) -> (r: Rational)
        ensures
            r.num == num,
            r.den == 1,
            r.wf(),
    {
        Rational { num, den: 1 }
    }

    /// Exact `self <= other` on the cross products; orders as rationals
    /// whenever both denominators are positive.
    pub fn at_most(&self, other: &Rational) -> (r: bool)
        ensures
            r == self.is_le(*other),
    {
        proof {
            lemma_cross_product_fits(self.num as int, other.den as int);
            lemma_cross_product_fits(other.num as int, self.den as int);
        }
        let lhs: i128 = (self.num as i128) * (other.den as i128);
        let rhs: i128 = (other.num as i128) * (self.den as i128);
        lhs <= rhs
    }

    /// Exact `self >= other` on the cross products.
    pub fn at_least(&self, other: &Rational) -> (r: bool)
        ensures
            r == self.is_ge(*other),
    {
        proof {
            lemma_cross_product_fits(self.num as int, other.den as int);
            lemma_cross_product_fits(other.num as int, self.den as int);
        }
        let lhs: i128 = (other.num as i128) * (self.den as i128);
        let rhs: i128 = (self.num as i128) * (other.den as i128);
        lhs <= rhs
    }

    /// Exact value equality: `self` and `other` denote the same rational
    /// even when their representations differ.
    pub fn same(&self, other: &Rational) -> (r: bool)
        ensures
            r == self.same_value(*other),
    {
        proof {
            lemma_cross_product_fits(self.num as int, other.den as int);
            lemma_cross_product_fits(other.num as int, self.den as int);
        }
        let lhs: i128 = (self.num as i128) * (other.den as i128);
        let rhs: i128 = (other.num as i128) * (self.den as i128);
        lhs == rhs
    }
}

/// The product of an `i64`-ranged factor and a `u64`-ranged factor fits
/// in an `i128`.
proof fn lemma_cross_product_fits(a: int, b: int)
    requires
        i64::MIN <= a <= i64::MAX,
        0 <= b <= u64::MAX,
    ensures
        i128::MIN <= a * b <= i128::MAX,
{
    assert(i128::MIN <= a * b <= i128::MAX) by (nonlinear_arith)
        requires
            i64::MIN <= a <= i64::MAX,
            0 <= b <= u64::MAX,
    ;
}

/// For well-formed values, `<=` chained with `<` is `<`: a price at most
/// `b` is strictly below anything strictly above `b`.
pub proof fn lemma_le_lt_trans(a: Rational, b: Rational, c: Rational)
    requires
        a.wf(),
        b.wf(),
        c.wf(),
        a.is_le(b),
        b.is_lt(c),
    ensures
        a.is_lt(c),
{
    assert(a.num * c.den < c.num * a.den) by (nonlinear_arith)
        requires
            a.den >= 1,
            b.den >= 1,
            c.den >= 1,
            a.num * b.den <= b.num * a.den,
            b.num * c.den < c.num * b.den,
    ;
}

} // verus!
