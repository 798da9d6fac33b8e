//! Exact rational magnitudes.
//!
//! A magnitude is stored as a numerator over a positive denominator, both
//! `i128`. Specification-level arithmetic works on pairs of unbounded
//! integers; two pairs denote the same rational number exactly when they
//! cross-multiply equally ([`rat_eq`]). Executable arithmetic computes the
//! very pair that the corresponding specification function names, so the
//! contracts of the value-level operations pin their results exactly; the
//! `*_fits` predicates state the bounds that keep that computation inside
//! `i128`.

use vstd::prelude::*;

verus! {

/// An exact rational number: `num / den`.
///
/// Well-formed values ([`Rat::wf`]) keep `den` positive and `num` above
/// `i128::MIN`, so that negation and cross-multiplication never overflow
/// the sign.
#[derive(Clone, Copy, Debug, PartialEq, Eq, Structural)]
pub struct Rat {
    pub num: i128,
    pub den: i128,
}

impl View for Rat {
    type V = (int, int);

    open spec fn view(&self) -> (int, int) {
        (self.num as int, self.den as int)
    }
}

impl Rat {
    /// The representation invariant: a positive denominator, and a
    /// numerator whose negation still fits in `i128`.
    pub open spec fn wf(self) -> bool {
        0 < self.den && -i128::MAX <= self.num
    }

    /// Builds the rational `num / den`, moving a sign on `den` onto `num`.
    pub fn new(num: i128, den: i128) -> (r: Rat)
        requires
            den != 0,
            num > i128::MIN,
            den > i128::MIN,
        ensures
            r.wf(),
            rat_eq(r@, (num as int, den as int)),
            den > 0 ==> r@ == (num as int, den as int),
            den < 0 ==> r@ == (-num as int, -den as int),
    {
        if den > 0 {
            Rat { num, den }
        } else {
            proof {
                assert((-num as int) * den == num * (-den as int)) by (nonlinear_arith);
            }
            Rat { num: -num, den: -den }
        }
    }

    /// Builds the rational `v / 1`.
    pub fn from_integer(v: i128) -> (r: Rat)
        requires
            v > i128::MIN,
        ensures
            r.wf(),
            r@ == (v as int, 1int),
    {
        Rat { num: v, den: 1 }
    }
}

/// Whether `a` and `b` denote the same rational number (for nonzero
/// denominators): cross-multiplication agrees.
pub open spec fn rat_eq(a: (int, int), b: (int, int)) -> bool {
    a.0 * b.1 == b.0 * a.1
}

/// Strict order on rationals with positive denominators.
pub open spec fn rat_lt(a: (int, int), b: (int, int)) -> bool {
    a.0 * b.1 < b.0 * a.1
}

/// Non-strict order on rationals with positive denominators.
pub open spec fn rat_le(a: (int, int), b: (int, int)) -> bool {
    a.0 * b.1 <= b.0 * a.1
}

/// The sum of two rationals, on the common denominator.
pub open spec fn rat_add(a: (int, int), b: (int, int)) -> (int, int) {
    (a.0 * b.1 + b.0 * a.1, a.1 * b.1)
}

/// The difference of two rationals, on the common denominator.
pub open spec fn rat_sub(a: (int, int), b: (int, int)) -> (int, int) {
    (a.0 * b.1 - b.0 * a.1, a.1 * b.1)
}

/// The product of two rationals.
pub open spec fn rat_mul(a: (int, int), b: (int, int)) -> (int, int) {
    (a.0 * b.0, a.1 * b.1)
}

/// The quotient of two rationals (`b.0` must be nonzero to denote one).
pub open spec fn rat_div(a: (int, int), b: (int, int)) -> (int, int) {
    (a.0 * b.1, a.1 * b.0)
}

/// `v` scaled by the factor `p / q`.
pub open spec fn rat_scale(v: (int, int), p: int, q: int) -> (int, int) {
    (v.0 * p, v.1 * q)
}

/// Whether `x` fits in `i128` with room for its negation.
pub open spec fn fits_i(x: int) -> bool {
    -i128::MAX <= x <= i128::MAX
}

/// Whether scaling `v` by `p / q` stays within `i128`.
pub open spec fn scale_fits(v: (int, int), p: int, q: int) -> bool {
    fits_i(v.0 * p) && fits_i(v.1 * q)
}

/// Whether forming `rat_add(a, b)` stays within `i128`.
pub open spec fn add_fits(a: (int, int), b: (int, int)) -> bool {
    fits_i(a.0 * b.1) && fits_i(b.0 * a.1) && fits_i(a.0 * b.1 + b.0 * a.1) && fits_i(a.1 * b.1)
}

/// Whether forming `rat_sub(a, b)` stays within `i128`.
pub open spec fn sub_fits(a: (int, int), b: (int, int)) -> bool {
    fits_i(a.0 * b.1) && fits_i(b.0 * a.1) && fits_i(a.0 * b.1 - b.0 * a.1) && fits_i(a.1 * b.1)
}

/// Whether forming `rat_mul(a, b)` stays within `i128`.
pub open spec fn mul_fits(a: (int, int), b: (int, int)) -> bool {
    fits_i(a.0 * b.0) && fits_i(a.1 * b.1)
}

/// Whether forming `rat_div(a, b)` stays within `i128`.
pub open spec fn div_fits(a: (int, int), b: (int, int)) -> bool {
    fits_i(a.0 * b.1) && fits_i(a.1 * b.0)
}

/// Whether the two cross-products compared by [`rat_eq`], [`rat_lt`] and
/// [`rat_le`] stay within `i128`.
pub open spec fn cmp_fits(a: (int, int), b: (int, int)) -> bool {
    fits_i(a.0 * b.1) && fits_i(b.0 * a.1)
}

} // verus!
