//! Exact rational numbers: the scalar type of the simulation.
//!
//! Positions, velocities, masses and extents are fractions of two `i64`
//! machine words.  Their mathematical meaning is a [`Q`]: a pair of unbounded
//! integers with a positive denominator.  Every arithmetic operation is exact;
//! an operation whose exact result does not fit the machine words reports
//! `None` instead of rounding.

use vstd::prelude::*;

verus! {

/// Value of a fraction: numerator and denominator as unbounded integers.
/// Fractions are not kept reduced; two values denote the same rational when
/// [`q_eq`] holds of them.
pub ghost struct Q {
    pub num: int,
    pub den: int,
}

/// A fraction is well formed when its denominator is positive.
pub open spec fn q_wf(q: Q) -> bool {
    q.den >= 1
}

/// The fraction denoting the integer `n`.
pub open spec fn q_from_int(n: int) -> Q {
    Q { num: n, den: 1 }
}

/// Exact sum of two fractions, over the product denominator.
pub open spec fn q_add(a: Q, b: Q) -> Q {
    Q { num: a.num * b.den + b.num * a.den, den: a.den * b.den }
}

/// Exact difference of two fractions.
pub open spec fn q_sub(a: Q, b: Q) -> Q {
    Q { num: a.num * b.den - b.num * a.den, den: a.den * b.den }
}

/// Exact product of two fractions.
pub open spec fn q_mul(a: Q, b: Q) -> Q {
    Q { num: a.num * b.num, den: a.den * b.den }
}

/// The fraction with the opposite sign.
pub open spec fn q_neg(a: Q) -> Q {
    Q { num: -a.num, den: a.den }
}

/// The fraction's absolute value.
pub open spec fn q_abs(a: Q) -> Q {
    Q { num: if a.num < 0 { -a.num } else { a.num }, den: a.den }
}

/// The two fractions denote the same rational (cross multiplication;
/// meaningful under [`q_wf`]).
pub open spec fn q_eq(a: Q, b: Q) -> bool {
    a.num * b.den == b.num * a.den
}

/// The first fraction's value is at most the second's (under [`q_wf`]).
pub open spec fn q_le(a: Q, b: Q) -> bool {
    a.num * b.den <= b.num * a.den
}

/// The fraction's value is strictly positive (under [`q_wf`]).
pub open spec fn q_pos(a: Q) -> bool {
    a.num >= 1
}

/// The integer fits an `i64` word.
pub open spec fn fits_i64(x: int) -> bool {
    i64::MIN <= x <= i64::MAX
}

/// The exact sum of the two fractions fits the machine representation.
pub open spec fn q_add_fits(a: Q, b: Q) -> bool {
    fits_i64(q_add(a, b).num) && fits_i64(q_add(a, b).den)
}

/// The exact difference of the two fractions fits the machine representation.
pub open spec fn q_sub_fits(a: Q, b: Q) -> bool {
    fits_i64(q_sub(a, b).num) && fits_i64(q_sub(a, b).den)
}

/// The exact product of the two fractions fits the machine representation.
pub open spec fn q_mul_fits(a: Q, b: Q) -> bool {
    fits_i64(q_mul(a, b).num) && fits_i64(q_mul(a, b).den)
}

/// The negated fraction fits the machine representation.
pub open spec fn q_neg_fits(a: Q) -> bool {
    fits_i64(-a.num)
}

/// Bounds on the product of two `i64`-sized integers.
proof fn lemma_prod_range(x: int, y: int)
    by (nonlinear_arith)
    requires
        i64::MIN <= x <= i64::MAX,
        i64::MIN <= y <= i64::MAX,
    ensures
        (i64::MIN as int) * (i64::MAX as int) <= x * y <= (i64::MIN as int) * (i64::MIN as int),
{
}

/// Bounds on the product of an `i64`-sized integer and a positive one.
proof fn lemma_prod_pos_range(x: int, y: int)
    by (nonlinear_arith)
    requires
        i64::MIN <= x <= i64::MAX,
        1 <= y <= i64::MAX,
    ensures
        (i64::MIN as int) * (i64::MAX as int) <= x * y <= (i64::MAX as int) * (i64::MAX as int),
{
}

/// The product of two positive integers is at least either factor.
proof fn lemma_pos_prod(x: int, y: int)
    by (nonlinear_arith)
    requires
        x >= 1,
        y >= 1,
    ensures
        x * y >= x,
        x * y >= y,
        x * y >= 1,
{
}

/// An exact rational scalar held in machine words.  The denominator is
/// positive for every value this module hands out.
#[derive(Clone, Copy, Debug)]
pub struct Rat {
    num: i64,
    den: i64,
}

impl View for Rat {
    type V = Q;

    closed spec fn view(&self) -> Q {
        Q { num: self.num as int, den: self.den as int }
    }
}

/// Converts an exact `i128` intermediate back to a machine word, reporting
/// `None` when it does not fit.
pub(crate) fn clamp_i64(x: i128) -> (r: Option<i64>)
    ensures
        r matches Some(v) ==> v as int == x as int,
        r is Some <==> fits_i64(x as int),
{
    if x >= i64::MIN as i128 && x <= i64::MAX as i128 {
        Some(x as i64)
    } else {
        None
    }
}

impl Rat {
    /// The denominator is positive and both parts fit the machine words that
    /// hold them.
    pub open spec fn wf(self) -> bool {
        q_wf(self@) && fits_i64(self@.num) && fits_i64(self@.den)
    }

    /// Builds the fraction `num / den`; `None` when the denominator is not
    /// positive.
    pub fn new(num: i64, den: i64) -> (r: Option<Rat>)
        ensures
            r matches Some(s) ==> s@ == (Q { num: num as int, den: den as int }) && s.wf(),
            r is Some <==> den >= 1,
    {
        if den >= 1 {
            Some(Rat { num, den })
        } else {
            None
        }
    }

    /// The fraction denoting the integer `n`.
    pub fn from_int(n: i64) -> (r: Rat)
        ensures
            r@ == q_from_int(n as int),
            r.wf(),
    {
        Rat { num: n, den: 1 }
    }

    /// Builds a fraction from parts already known to be in range.
    pub(crate) fn from_parts(num: i64, den: i64) -> (r: Rat)
        requires
            den >= 1,
        ensures
            r@ == (Q { num: num as int, den: den as int }),
            r.wf(),
    {
        Rat { num, den }
    }

    /// The numerator word.
    pub fn numerator(&self) -> (r: i64)
        ensures
            r as int == self@.num,
    {
        self.num
    }

    /// The denominator word.
    pub fn denominator(&self) -> (r: i64)
        ensures
            r as int == self@.den,
    {
        self.den
    }

    /// Exact sum; `None` exactly when the result leaves the representation.
    pub fn plus(self, other: Rat) -> (r: Option<Rat>)
        requires
            self.wf(),
            other.wf(),
        ensures
            r matches Some(s) ==> s@ == q_add(self@, other@) && s.wf(),
            r is Some <==> q_add_fits(self@, other@),
    {
        proof {
            lemma_prod_pos_range(self.num as int, other.den as int);
            lemma_prod_pos_range(other.num as int, self.den as int);
            lemma_prod_pos_range(self.den as int, other.den as int);
            lemma_pos_prod(self.den as int, other.den as int);
        }
        let n: i128 = (self.num as i128) * (other.den as i128)
            + (other.num as i128) * (self.den as i128);
        let d: i128 = (self.den as i128) * (other.den as i128);
        match (clamp_i64(n), clamp_i64(d)) {
            (Some(num), Some(den)) => Some(Rat { num, den }),
            _ => None,
        }
    }

    /// Exact difference; `None` exactly when the result leaves the
    /// representation.
    pub fn minus(self, other: Rat) -> (r: Option<Rat>)
        requires
            self.wf(),
            other.wf(),
        ensures
            r matches Some(s) ==> s@ == q_sub(self@, other@) && s.wf(),
            r is Some <==> q_sub_fits(self@, other@),
    {
        proof {
            lemma_prod_pos_range(self.num as int, other.den as int);
            lemma_prod_pos_range(other.num as int, self.den as int);
            lemma_prod_pos_range(self.den as int, other.den as int);
            lemma_pos_prod(self.den as int, other.den as int);
        }
        let n: i128 = (self.num as i128) * (other.den as i128)
            - (other.num as i128) * (self.den as i128);
        let d: i128 = (self.den as i128) * (other.den as i128);
        match (clamp_i64(n), clamp_i64(d)) {
            (Some(num), Some(den)) => Some(Rat { num, den }),
            _ => None,
        }
    }

    /// Exact product; `None` exactly when the result leaves the
    /// representation.
    pub fn times(self, other: Rat) -> (r: Option<Rat>)
        requires
            self.wf(),
            other.wf(),
        ensures
            r matches Some(s) ==> s@ == q_mul(self@, other@) && s.wf(),
            r is Some <==> q_mul_fits(self@, other@),
    {
        proof {
            lemma_prod_range(self.num as int, other.num as int);
            lemma_prod_pos_range(self.den as int, other.den as int);
            lemma_pos_prod(self.den as int, other.den as int);
        }
        let n: i128 = (self.num as i128) * (other.num as i128);
        let d: i128 = (self.den as i128) * (other.den as i128);
        match (clamp_i64(n), clamp_i64(d)) {
            (Some(num), Some(den)) => Some(Rat { num, den }),
            _ => None,
        }
    }

    /// The opposite value; `None` exactly when the numerator is the one `i64`
    /// whose negation does not fit.
    pub fn negated(self) -> (r: Option<Rat>)
        requires
            self.wf(),
        ensures
            r matches Some(s) ==> s@ == q_neg(self@) && s.wf(),
            r is Some <==> q_neg_fits(self@),
    {
        if self.num == i64::MIN {
            None
        } else {
            Some(Rat { num: -self.num, den: self.den })
        }
    }

    /// Exact order test: `self <= other`.
    pub fn le(&self, other: &Rat) -> (r: bool)
        requires
            self.wf(),
            other.wf(),
        ensures
            r == q_le(self@, other@),
    {
        proof {
            lemma_prod_range(self.num as int, other.den as int);
            lemma_prod_range(other.num as int, self.den as int);
        }
        (self.num as i128) * (other.den as i128) <= (other.num as i128) * (self.den as i128)
    }

    /// Exact value equality: the two fractions denote the same rational.
    pub fn eq_value(&self, other: &Rat) -> (r: bool)
        requires
            self.wf(),
            other.wf(),
        ensures
            r == q_eq(self@, other@),
    {
        proof {
            lemma_prod_range(self.num as int, other.den as int);
            lemma_prod_range(other.num as int, self.den as int);
        }
        (self.num as i128) * (other.den as i128) == (other.num as i128) * (self.den as i128)
    }

    /// The value is strictly positive.
    pub fn is_positive(&self) -> (r: bool)
        requires
            self.wf(),
        ensures
            r == q_pos(self@),
    {
        self.num >= 1
    }
}

} // verus!
