//! Unit descriptors, declared conversions, and the measurement container.
//!
//! A unit of measure is a zero-sized tag type implementing [`MeasureUnit`].
//! A conversion from unit `U` into unit `V` exists exactly when
//! `V: FromUnit<U>` has been declared; the generic arithmetic on
//! [`Measurement`] demands such an implementation for the left operand's
//! canonical (de-aliased) unit, so an operation between unrelated units is
//! rejected before any program runs. Multiplicative conversions carry the
//! [`FromUnitLinear`] marker, whose `linearity` proof obligation is what
//! licenses the synthesized conversion between two rate units
//! ([`DivUnit`]).

use vstd::prelude::*;

use crate::rational::Rat;
use crate::rational::add_fits;
use crate::rational::cmp_fits;
use crate::rational::div_fits;
use crate::rational::mul_fits;
use crate::rational::rat_add;
use crate::rational::rat_div;
use crate::rational::rat_eq;
use crate::rational::rat_le;
use crate::rational::rat_lt;
use crate::rational::rat_mul;
use crate::rational::rat_scale;
use crate::rational::rat_sub;
use crate::rational::scale_fits;
use crate::rational::sub_fits;
use vstd::string::StringExecFns;

verus! {

/// A unit of measure: a zero-sized tag type carrying a display symbol and
/// the unit it stands for.
///
/// `AliasedUnit` is the unit this one is an alias of; a unit that stands
/// for itself declares `type AliasedUnit = Self`. Every conversion into
/// this unit is resolved through its canonical (de-aliased) form.
pub trait MeasureUnit: Sized {
    /// The unit that `Self` is an alias of (`Self` itself when it is no
    /// alias).
    type AliasedUnit;

    /// The display symbol, at the specification level.
    spec fn spec_symbol() -> Seq<char>;

    /// Returns the symbol that accompanies the value of this unit when
    /// rendered, and identifies it.
    fn symbol() -> (s: String)
        ensures
            s@ == Self::spec_symbol(),
    ;
}

/// A declared conversion from measurements of unit `U` into measurements
/// of `Self`.
///
/// `spec_from` names the converted rational value exactly; `from_fits`
/// states the bounds under which the conversion can be computed in `i128`.
pub trait FromUnit<U>: Sized {
    /// The converted value, as a function on rational magnitudes.
    spec fn spec_from(v: (int, int)) -> (int, int);

    /// The bounds on `v` under which the conversion stays within `i128`.
    spec fn from_fits(v: (int, int)) -> bool;

    /// The proof obligation that the conversion denotes a rational: it
    /// keeps a positive denominator positive.
    proof fn from_wf(v: (int, int))
        requires
            v.1 > 0,
        ensures
            Self::spec_from(v).1 > 0,
    ;

    /// Converts a measurement of unit `U` into one of unit `Self`.
    fn from_value(input: Measurement<U>) -> (r: Measurement<Self>)
        requires
            input.wf(),
            Self::from_fits(input@),
        ensures
            r.wf(),
            r@ == Self::spec_from(input@),
    ;
}

/// Marker for a declared conversion that is plain multiplication by the
/// constant factor `src_scale() / dst_scale()`.
///
/// Implementing it carries the proof obligation `linearity`: the
/// conversion named by [`FromUnit::spec_from`] must really scale its
/// argument by that factor. Only conversions with this marker participate
/// in the synthesized conversion between two [`DivUnit`] rate units, which
/// is meaningful only for multiplicative scaling.
pub trait FromUnitLinear<U>: FromUnit<U> {
    /// The scale of the source unit `U` within the declared family.
    spec fn src_scale() -> int;

    /// The scale of the destination unit `Self` within the declared
    /// family.
    spec fn dst_scale() -> int;

    /// The proof obligation: both scales are positive, the conversion is
    /// exactly the scaling by `src_scale() / dst_scale()`, and it is
    /// computable whenever that scaling fits in `i128`.
    proof fn linearity(v: (int, int))
        ensures
            0 < Self::src_scale(),
            0 < Self::dst_scale(),
            Self::spec_from(v) == rat_scale(v, Self::src_scale(), Self::dst_scale()),
            Self::from_fits(v) == scale_fits(v, Self::src_scale(), Self::dst_scale()),
    ;
}

/// A composite rate unit: the unit `N` divided by the unit `D`.
///
/// If the units `Kilometer` and `Hour` are defined, the unit km/h is
/// `DivUnit<Kilometer, Hour>`. Its symbol is the two symbols joined by a
/// slash.
pub struct DivUnit<N, D> {
    _n: core::marker::PhantomData<N>,
    _d: core::marker::PhantomData<D>,
}

impl<N: MeasureUnit, D: MeasureUnit> MeasureUnit for DivUnit<N, D> {
    type AliasedUnit = DivUnit<N, D>;

    open spec fn spec_symbol() -> Seq<char> {
        N::spec_symbol() + "/"@ + D::spec_symbol()
    }

    fn symbol() -> (s: String) {
        let n = N::symbol();
        let joined = n.concat("/");
        let d = D::symbol();
        let s = joined.concat(d.as_str());
        proof {
            assert(s@ =~= Self::spec_symbol());
        }
        s
    }
}

/// The value of a physical property, measured using the unit `U`.
///
/// The magnitude is an exact rational number; the unit is part of the
/// value's identity and never exists at run time.
pub struct Measurement<U> {
    pub value: Rat,
    pub _marker: core::marker::PhantomData<U>,
}

impl<U> View for Measurement<U> {
    type V = (int, int);

    open spec fn view(&self) -> (int, int) {
        self.value@
    }
}

impl<U> Clone for Measurement<U> {
    fn clone(&self) -> (r: Self)
        ensures
            r == *self,
    {
        Measurement { value: self.value, _marker: core::marker::PhantomData }
    }
}

impl<U> Copy for Measurement<U> {

}

impl<U> Default for Measurement<U> {
    /// The zero measurement.
    fn default() -> (r: Self)
        ensures
            r.wf(),
            r@ == (0int, 1int),
    {
        Measurement { value: Rat { num: 0, den: 1 }, _marker: core::marker::PhantomData }
    }
}

/// The measurement whose magnitude is the given pair of integers. The
/// operator contracts use it to pin their results exactly; it denotes a
/// measurement only when the pair fits in `i128`.
pub open spec fn spec_measurement<U>(v: (int, int)) -> Measurement<U> {
    Measurement {
        value: Rat { num: v.0 as i128, den: v.1 as i128 },
        _marker: core::marker::PhantomData,
    }
}

impl<U> Measurement<U> {
    /// The representation invariant: the magnitude is a well-formed
    /// rational.
    pub open spec fn wf(self) -> bool {
        self.value.wf()
    }

    /// Creates a new measurement from the given magnitude.
    pub fn new(value: Rat) -> (r: Measurement<U>)
        requires
            value.wf(),
        ensures
            r.wf(),
            r@ == value@,
    {
        Measurement { value, _marker: core::marker::PhantomData }
    }

    /// Returns the current magnitude.
    pub fn value(self) -> (v: Rat)
        ensures
            v@ == self@,
            v.wf() == self.wf(),
    {
        self.value
    }

    /// Scales the magnitude by the factor `p / q`, retagging the result
    /// with the unit `V`. This is the primitive every linear conversion is
    /// declared with.
    pub fn rescale<V>(self, p: i128, q: i128) -> (r: Measurement<V>)
        requires
            self.wf(),
            0 < p,
            0 < q,
            scale_fits(self@, p as int, q as int),
        ensures
            r.wf(),
            r@ == rat_scale(self@, p as int, q as int),
    {
        proof {
            assert(self.value.den * q > 0) by (nonlinear_arith)
                requires
                    self.value.den > 0,
                    q > 0,
            ;
        }
        Measurement {
            value: Rat { num: self.value.num * p, den: self.value.den * q },
            _marker: core::marker::PhantomData,
        }
    }

    /// In-place multiplication by a dimensionless scalar.
    pub fn mul_assign(&mut self, k: Rat)
        requires
            old(self).wf(),
            k.wf(),
            mul_fits(old(self)@, k@),
        ensures
            final (self).wf(),
            final (self)@ == rat_mul(old(self)@, k@),
    {
        proof {
            let a1 = old(self)@.1;
            assert(a1 * k@.1 > 0) by (nonlinear_arith)
                requires
                    a1 > 0,
                    k@.1 > 0,
            ;
        }
        *self = *self * k;
    }

    /// In-place division by a nonzero dimensionless scalar.
    pub fn div_assign(&mut self, k: Rat)
        requires
            old(self).wf(),
            k.wf(),
            k.num != 0,
            div_fits(old(self)@, k@),
        ensures
            final (self).wf(),
            rat_eq(final (self)@, rat_div(old(self)@, k@)),
    {
        proof {
            let a = old(self)@;
            let d = rat_div(a, k@);
            assert(k@.0 > 0 ==> a.1 * k@.0 > 0) by (nonlinear_arith)
                requires
                    a.1 > 0,
            ;
            assert(k@.0 < 0 ==> a.1 * k@.0 < 0) by (nonlinear_arith)
                requires
                    a.1 > 0,
            ;
            assert((-d.0) * d.1 == d.0 * (-d.1)) by (nonlinear_arith);
        }
        *self = *self / k;
    }

    /// Converts the current measurement into the given unit `V`, resolving
    /// through `V`'s canonical (de-aliased) form. The operation exists only
    /// when a conversion from `U` into that form has been declared.
    pub fn into_unit<V: MeasureUnit>(self) -> (r: Measurement<V>) where V::AliasedUnit: FromUnit<U>
        requires
            self.wf(),
            <V::AliasedUnit as FromUnit<U>>::from_fits(self@),
        ensures
            r.wf(),
            r@ == <V::AliasedUnit as FromUnit<U>>::spec_from(self@),
    {
        let value_non_aliased = <V::AliasedUnit as FromUnit<U>>::from_value(self);
        Measurement::new(value_non_aliased.value())
    }

}

impl<Lhs: MeasureUnit> Measurement<Lhs> {
    /// In-place sum, in this measurement's unit.
    pub fn add_assign<Rhs>(&mut self, rhs: Measurement<Rhs>) where Lhs::AliasedUnit: FromUnit<Rhs>
        requires
            old(self).wf(),
            rhs.wf(),
            <Lhs::AliasedUnit as FromUnit<Rhs>>::from_fits(rhs@),
            add_fits(old(self)@, <Lhs::AliasedUnit as FromUnit<Rhs>>::spec_from(rhs@)),
        ensures
            final (self).wf(),
            final (self)@ == rat_add(old(self)@, <Lhs::AliasedUnit as FromUnit<Rhs>>::spec_from(rhs@)),
    {
        proof {
            <Lhs::AliasedUnit as FromUnit<Rhs>>::from_wf(rhs@);
            let c = <Lhs::AliasedUnit as FromUnit<Rhs>>::spec_from(rhs@);
            let a1 = old(self)@.1;
            assert(a1 * c.1 > 0) by (nonlinear_arith)
                requires
                    a1 > 0,
                    c.1 > 0,
            ;
        }
        *self = *self + rhs;
    }

    /// In-place difference, in this measurement's unit.
    pub fn sub_assign<Rhs>(&mut self, rhs: Measurement<Rhs>) where Lhs::AliasedUnit: FromUnit<Rhs>
        requires
            old(self).wf(),
            rhs.wf(),
            <Lhs::AliasedUnit as FromUnit<Rhs>>::from_fits(rhs@),
            sub_fits(old(self)@, <Lhs::AliasedUnit as FromUnit<Rhs>>::spec_from(rhs@)),
        ensures
            final (self).wf(),
            final (self)@ == rat_sub(old(self)@, <Lhs::AliasedUnit as FromUnit<Rhs>>::spec_from(rhs@)),
    {
        proof {
            <Lhs::AliasedUnit as FromUnit<Rhs>>::from_wf(rhs@);
            let c = <Lhs::AliasedUnit as FromUnit<Rhs>>::spec_from(rhs@);
            let a1 = old(self)@.1;
            assert(a1 * c.1 > 0) by (nonlinear_arith)
                requires
                    a1 > 0,
                    c.1 > 0,
            ;
        }
        *self = *self - rhs;
    }

    /// Whether the two measurements denote the same magnitude, after
    /// converting the right operand into this measurement's unit.
    pub fn equals<Rhs>(self, rhs: Measurement<Rhs>) -> (b: bool) where
        Lhs::AliasedUnit: FromUnit<Rhs>

        requires
            self.wf(),
            rhs.wf(),
            <Lhs::AliasedUnit as FromUnit<Rhs>>::from_fits(rhs@),
            cmp_fits(self@, <Lhs::AliasedUnit as FromUnit<Rhs>>::spec_from(rhs@)),
        ensures
            b == rat_eq(self@, <Lhs::AliasedUnit as FromUnit<Rhs>>::spec_from(rhs@)),
    {
        let conv = rhs.into_unit::<Lhs>();
        self.value.num * conv.value.den == conv.value.num * self.value.den
    }

    /// Whether this measurement is strictly below the right operand, after
    /// converting it into this measurement's unit.
    pub fn lt<Rhs>(self, rhs: Measurement<Rhs>) -> (b: bool) where Lhs::AliasedUnit: FromUnit<Rhs>
        requires
            self.wf(),
            rhs.wf(),
            <Lhs::AliasedUnit as FromUnit<Rhs>>::from_fits(rhs@),
            cmp_fits(self@, <Lhs::AliasedUnit as FromUnit<Rhs>>::spec_from(rhs@)),
        ensures
            b == rat_lt(self@, <Lhs::AliasedUnit as FromUnit<Rhs>>::spec_from(rhs@)),
    {
        let conv = rhs.into_unit::<Lhs>();
        self.value.num * conv.value.den < conv.value.num * self.value.den
    }

    /// Whether this measurement is at most the right operand, after
    /// converting it into this measurement's unit.
    pub fn le<Rhs>(self, rhs: Measurement<Rhs>) -> (b: bool) where Lhs::AliasedUnit: FromUnit<Rhs>
        requires
            self.wf(),
            rhs.wf(),
            <Lhs::AliasedUnit as FromUnit<Rhs>>::from_fits(rhs@),
            cmp_fits(self@, <Lhs::AliasedUnit as FromUnit<Rhs>>::spec_from(rhs@)),
        ensures
            b == rat_le(self@, <Lhs::AliasedUnit as FromUnit<Rhs>>::spec_from(rhs@)),
    {
        let conv = rhs.into_unit::<Lhs>();
        self.value.num * conv.value.den <= conv.value.num * self.value.den
    }

    /// Whether this measurement is strictly above the right operand, after
    /// converting it into this measurement's unit.
    pub fn gt<Rhs>(self, rhs: Measurement<Rhs>) -> (b: bool) where Lhs::AliasedUnit: FromUnit<Rhs>
        requires
            self.wf(),
            rhs.wf(),
            <Lhs::AliasedUnit as FromUnit<Rhs>>::from_fits(rhs@),
            cmp_fits(self@, <Lhs::AliasedUnit as FromUnit<Rhs>>::spec_from(rhs@)),
        ensures
            b == rat_lt(<Lhs::AliasedUnit as FromUnit<Rhs>>::spec_from(rhs@), self@),
    {
        let conv = rhs.into_unit::<Lhs>();
        self.value.num * conv.value.den > conv.value.num * self.value.den
    }

    /// Whether this measurement is at least the right operand, after
    /// converting it into this measurement's unit.
    pub fn ge<Rhs>(self, rhs: Measurement<Rhs>) -> (b: bool) where Lhs::AliasedUnit: FromUnit<Rhs>
        requires
            self.wf(),
            rhs.wf(),
            <Lhs::AliasedUnit as FromUnit<Rhs>>::from_fits(rhs@),
            cmp_fits(self@, <Lhs::AliasedUnit as FromUnit<Rhs>>::spec_from(rhs@)),
        ensures
            b == rat_le(<Lhs::AliasedUnit as FromUnit<Rhs>>::spec_from(rhs@), self@),
    {
        let conv = rhs.into_unit::<Lhs>();
        self.value.num * conv.value.den >= conv.value.num * self.value.den
    }
}

/// The sum: the right operand is converted into the left operand's unit
/// first, so the result's unit always matches the left operand.
impl<Lhs: MeasureUnit, Rhs> std::ops::Add<Measurement<Rhs>> for Measurement<Lhs> where
    Lhs::AliasedUnit: FromUnit<Rhs>,
 {
    type Output = Measurement<Lhs>;

    fn add(self, rhs: Measurement<Rhs>) -> (r: Measurement<Lhs>) {
        let conv = rhs.into_unit::<Lhs>();
        proof {
            assert(self.value.den * conv.value.den > 0) by (nonlinear_arith)
                requires
                    self.value.den > 0,
                    conv.value.den > 0,
            ;
        }
        Measurement {
            value: Rat {
                num: self.value.num * conv.value.den + conv.value.num * self.value.den,
                den: self.value.den * conv.value.den,
            },
            _marker: core::marker::PhantomData,
        }
    }
}

impl<Lhs: MeasureUnit, Rhs> vstd::std_specs::ops::AddSpecImpl<Measurement<Rhs>> for Measurement<Lhs> where
    Lhs::AliasedUnit: FromUnit<Rhs>,
 {
    open spec fn obeys_add_spec() -> bool {
        true
    }

    open spec fn add_req(self, rhs: Measurement<Rhs>) -> bool {
        self.wf() && rhs.wf() && <Lhs::AliasedUnit as FromUnit<Rhs>>::from_fits(rhs@) && add_fits(
            self@,
            <Lhs::AliasedUnit as FromUnit<Rhs>>::spec_from(rhs@),
        )
    }

    open spec fn add_spec(self, rhs: Measurement<Rhs>) -> Measurement<Lhs> {
        spec_measurement(rat_add(self@, <Lhs::AliasedUnit as FromUnit<Rhs>>::spec_from(rhs@)))
    }
}

/// The difference, in the left operand's unit.
impl<Lhs: MeasureUnit, Rhs> std::ops::Sub<Measurement<Rhs>> for Measurement<Lhs> where
    Lhs::AliasedUnit: FromUnit<Rhs>,
 {
    type Output = Measurement<Lhs>;

    fn sub(self, rhs: Measurement<Rhs>) -> (r: Measurement<Lhs>) {
        let conv = rhs.into_unit::<Lhs>();
        proof {
            assert(self.value.den * conv.value.den > 0) by (nonlinear_arith)
                requires
                    self.value.den > 0,
                    conv.value.den > 0,
            ;
        }
        Measurement {
            value: Rat {
                num: self.value.num * conv.value.den - conv.value.num * self.value.den,
                den: self.value.den * conv.value.den,
            },
            _marker: core::marker::PhantomData,
        }
    }
}

impl<Lhs: MeasureUnit, Rhs> vstd::std_specs::ops::SubSpecImpl<Measurement<Rhs>> for Measurement<Lhs> where
    Lhs::AliasedUnit: FromUnit<Rhs>,
 {
    open spec fn obeys_sub_spec() -> bool {
        true
    }

    open spec fn sub_req(self, rhs: Measurement<Rhs>) -> bool {
        self.wf() && rhs.wf() && <Lhs::AliasedUnit as FromUnit<Rhs>>::from_fits(rhs@) && sub_fits(
            self@,
            <Lhs::AliasedUnit as FromUnit<Rhs>>::spec_from(rhs@),
        )
    }

    open spec fn sub_spec(self, rhs: Measurement<Rhs>) -> Measurement<Lhs> {
        spec_measurement(rat_sub(self@, <Lhs::AliasedUnit as FromUnit<Rhs>>::spec_from(rhs@)))
    }
}

/// Multiplication by a dimensionless scalar; the unit tag never changes,
/// whatever the unit.
impl<U> std::ops::Mul<Rat> for Measurement<U> {
    type Output = Measurement<U>;

    fn mul(self, k: Rat) -> (r: Measurement<U>) {
        proof {
            assert(self.value.den * k.den > 0) by (nonlinear_arith)
                requires
                    self.value.den > 0,
                    k.den > 0,
            ;
        }
        Measurement {
            value: Rat { num: self.value.num * k.num, den: self.value.den * k.den },
            _marker: core::marker::PhantomData,
        }
    }
}

impl<U> vstd::std_specs::ops::MulSpecImpl<Rat> for Measurement<U> {
    open spec fn obeys_mul_spec() -> bool {
        true
    }

    open spec fn mul_req(self, k: Rat) -> bool {
        self.wf() && k.wf() && mul_fits(self@, k@)
    }

    open spec fn mul_spec(self, k: Rat) -> Measurement<U> {
        spec_measurement(rat_mul(self@, k@))
    }
}

/// Division by a nonzero dimensionless scalar; the unit tag never
/// changes. A negative divisor's sign moves onto the numerator, keeping
/// the denominator positive.
impl<U> std::ops::Div<Rat> for Measurement<U> {
    type Output = Measurement<U>;

    fn div(self, k: Rat) -> (r: Measurement<U>) {
        proof {
            assert(k.num > 0 ==> self.value.den * k.num > 0) by (nonlinear_arith)
                requires
                    self.value.den > 0,
            ;
            assert(k.num < 0 ==> self.value.den * k.num < 0) by (nonlinear_arith)
                requires
                    self.value.den > 0,
            ;
        }
        Measurement {
            value: Rat::new(self.value.num * k.den, self.value.den * k.num),
            _marker: core::marker::PhantomData,
        }
    }
}

impl<U> vstd::std_specs::ops::DivSpecImpl<Rat> for Measurement<U> {
    open spec fn obeys_div_spec() -> bool {
        true
    }

    open spec fn div_req(self, k: Rat) -> bool {
        self.wf() && k.wf() && k.num != 0 && div_fits(self@, k@)
    }

    open spec fn div_spec(self, k: Rat) -> Measurement<U> {
        if k.num > 0 {
            spec_measurement(rat_div(self@, k@))
        } else {
            spec_measurement((-rat_div(self@, k@).0, -rat_div(self@, k@).1))
        }
    }
}

/// The synthesized conversion between two rate units: `DivUnit<N1, D1>`
/// converts from `DivUnit<N, D>` exactly when `N1` has a declared linear
/// conversion from `N` and `D1` one from `D`.
///
/// The magnitude is converted as a value of the numerator unit, a
/// denominator reference of magnitude one is converted separately, and the
/// two results are divided; the [`FromUnitLinear::linearity`] obligation is
/// what makes that division the correct scaling.
impl<N: MeasureUnit, D: MeasureUnit, N1: MeasureUnit, D1: MeasureUnit> FromUnit<
    DivUnit<N, D>,
> for DivUnit<N1, D1> where N1: FromUnitLinear<N>, D1: FromUnitLinear<D> {
    open spec fn spec_from(v: (int, int)) -> (int, int) {
        rat_div(
            <N1 as FromUnit<N>>::spec_from(v),
            <D1 as FromUnit<D>>::spec_from((1int, 1int)),
        )
    }

    open spec fn from_fits(v: (int, int)) -> bool {
        <N1 as FromUnit<N>>::from_fits(v) && <D1 as FromUnit<D>>::from_fits((1int, 1int))
            && div_fits(
            <N1 as FromUnit<N>>::spec_from(v),
            <D1 as FromUnit<D>>::spec_from((1int, 1int)),
        )
    }

    proof fn from_wf(v: (int, int)) {
        <N1 as FromUnit<N>>::from_wf(v);
        D1::linearity((1int, 1int));
        let a = <N1 as FromUnit<N>>::spec_from(v);
        let b = <D1 as FromUnit<D>>::spec_from((1int, 1int));
        assert(a.1 * b.0 > 0) by (nonlinear_arith)
            requires
                a.1 > 0,
                b.0 > 0,
        ;
    }

    fn from_value(input: Measurement<DivUnit<N, D>>) -> (r: Measurement<DivUnit<N1, D1>>) {
        let n = Measurement::<N>::new(input.value());
        let n1 = N1::from_value(n);
        let unit_den = D1::from_value(Measurement::<D>::new(Rat::from_integer(1)));
        proof {
            D1::linearity((1int, 1int));
            assert(n1.value.den * unit_den.value.num > 0) by (nonlinear_arith)
                requires
                    n1.value.den > 0,
                    unit_den.value.num > 0,
            ;
        }
        Measurement {
            value: Rat {
                num: n1.value.num * unit_den.value.den,
                den: n1.value.den * unit_den.value.num,
            },
            _marker: core::marker::PhantomData,
        }
    }
}

} // verus!
