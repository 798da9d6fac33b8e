//! Laws of the conversion mechanism, stated over the declared
//! specification-level conversions and proved for every magnitude.
//!
//! The arithmetic operations of [`Measurement`](crate::measure::Measurement)
//! pin their results exactly, so each law here transfers directly to the
//! executable operations: wherever an operation's contract names
//! `spec_from`, these lemmas say what that conversion does to the value.

use vstd::prelude::*;

use crate::measure::DivUnit;
use crate::measure::FromUnit;
use crate::measure::FromUnitLinear;
use crate::measure::MeasureUnit;
use crate::rational::rat_add;
use crate::rational::rat_eq;
use crate::units::Celsius;
use crate::units::Fahrenheit;
use crate::units::Hour;
use crate::units::Kbps;
use crate::units::Kilobit;
use crate::units::Megabit;
use crate::units::Second;

verus! {

/// Self-conversion identity: a family's reflexive linear relation scales
/// by the unit's own scale on both sides, so converting a magnitude into
/// its own unit leaves it unchanged.
pub proof fn lemma_self_conversion_identity<A: FromUnitLinear<A>>(v: (int, int))
    requires
        v.1 != 0,
        A::src_scale() == A::dst_scale(),
    ensures
        rat_eq(<A as FromUnit<A>>::spec_from(v), v),
{
    A::linearity(v);
    let s = A::src_scale();
    assert((v.0 * s) * v.1 == v.0 * (v.1 * s)) by (nonlinear_arith);
}

/// Self-conversion identity for a rate unit: when numerator and
/// denominator convert into themselves through their families' reflexive
/// relations, the synthesized rate conversion is the identity as well.
pub proof fn lemma_self_conversion_ratio<
    N: MeasureUnit + FromUnitLinear<N>,
    D: MeasureUnit + FromUnitLinear<D>,
>(v: (int, int))
    requires
        v.1 != 0,
        N::src_scale() == N::dst_scale(),
        D::src_scale() == D::dst_scale(),
    ensures
        rat_eq(<DivUnit<N, D> as FromUnit<DivUnit<N, D>>>::spec_from(v), v),
{
    N::linearity(v);
    D::linearity((1int, 1int));
    let sn = N::src_scale();
    let sd = D::src_scale();
    assert(((v.0 * sn) * sd) * v.1 == v.0 * ((v.1 * sn) * sd)) by (nonlinear_arith);
}

/// Family round trip: converting a magnitude along one directed relation
/// of a linear family and back along the opposite one reproduces it
/// exactly, since the two relations scale by `sa / sb` and `sb / sa`.
pub proof fn lemma_family_round_trip<A, B>(v: (int, int)) where
    A: FromUnitLinear<B>,
    B: FromUnitLinear<A>,

    requires
        v.1 != 0,
        <A as FromUnitLinear<B>>::src_scale() == <B as FromUnitLinear<A>>::dst_scale(),
        <A as FromUnitLinear<B>>::dst_scale() == <B as FromUnitLinear<A>>::src_scale(),
    ensures
        rat_eq(<A as FromUnit<B>>::spec_from(<B as FromUnit<A>>::spec_from(v)), v),
{
    <B as FromUnitLinear<A>>::linearity(v);
    let w = <B as FromUnit<A>>::spec_from(v);
    <A as FromUnitLinear<B>>::linearity(w);
    let sa = <B as FromUnitLinear<A>>::src_scale();
    let sb = <B as FromUnitLinear<A>>::dst_scale();
    assert(((v.0 * sa) * sb) * v.1 == v.0 * ((v.1 * sb) * sa)) by (nonlinear_arith);
}

/// The unit of a sum follows the left operand: the right-hand magnitude
/// is scaled into the left operand's unit before the magnitudes are
/// summed. Stated on the hour/second pair: seconds added into hours are
/// divided by 3600, hours added into seconds are multiplied by 3600.
pub proof fn lemma_sum_unit_follows_left(a: (int, int), b: (int, int))
    ensures
        rat_add(a, <<Hour as MeasureUnit>::AliasedUnit as FromUnit<Second>>::spec_from(b)) == (
        rat_add(a, (b.0, b.1 * 3600))),
        rat_add(b, <<Second as MeasureUnit>::AliasedUnit as FromUnit<Hour>>::spec_from(a)) == (
        rat_add(b, (a.0 * 3600, a.1))),
{
}

/// The concrete sums: two hours plus 3600 seconds is three hours, while
/// 3600 seconds plus two hours is 10800 seconds.
pub proof fn lemma_sum_hours_seconds()
    ensures
        rat_eq(
            rat_add(
                (2int, 1int),
                <<Hour as MeasureUnit>::AliasedUnit as FromUnit<Second>>::spec_from((3600int, 1int)),
            ),
            (3int, 1int),
        ),
        rat_eq(
            rat_add(
                (3600int, 1int),
                <<Second as MeasureUnit>::AliasedUnit as FromUnit<Hour>>::spec_from((2int, 1int)),
            ),
            (10800int, 1int),
        ),
{
    assert(rat_add(
        (2int, 1int),
        <<Hour as MeasureUnit>::AliasedUnit as FromUnit<Second>>::spec_from((3600int, 1int)),
    ).0 == 2int * 3600int + 3600int * 1int);
    assert(rat_add(
        (3600int, 1int),
        <<Second as MeasureUnit>::AliasedUnit as FromUnit<Hour>>::spec_from((2int, 1int)),
    ).0 == 3600int * 1int + 2int * 3600int * 1int);
}

/// Rate synthesis, concretely: converting one kilobit per second into
/// megabits per hour yields 3600/1000, so one megabit per hour plus one
/// kilobit per second is 4.6 megabits per hour.
pub proof fn lemma_ratio_synthesis()
    ensures
        rat_eq(
            <DivUnit<Megabit, Hour> as FromUnit<DivUnit<Kilobit, Second>>>::spec_from((1int, 1int)),
            (18int, 5int),
        ),
        rat_eq(
            rat_add(
                (1int, 1int),
                <DivUnit<Megabit, Hour> as FromUnit<DivUnit<Kilobit, Second>>>::spec_from(
                    (1int, 1int),
                ),
            ),
            (23int, 5int),
        ),
{
    let conv = <DivUnit<Megabit, Hour> as FromUnit<DivUnit<Kilobit, Second>>>::spec_from(
        (1int, 1int),
    );
    assert(conv.0 == 1000int * 3600int);
    assert(conv.1 == 1000000int * 1int);
    assert(rat_add((1int, 1int), conv).0 == 1int * 1000000int + 3600000int * 1int);
}

/// Alias transparency: a conversion out of the alias unit is, magnitude
/// for magnitude, exactly the conversion out of the unit it stands for —
/// pure delegation, with the same computability bounds.
pub proof fn lemma_alias_transparent<T: FromUnit<DivUnit<Kilobit, Second>>>(v: (int, int))
    ensures
        <T as FromUnit<Kbps>>::spec_from(v) == <T as FromUnit<
            DivUnit<Kilobit, Second>,
        >>::spec_from(v),
        <T as FromUnit<Kbps>>::from_fits(v) == <T as FromUnit<
            DivUnit<Kilobit, Second>,
        >>::from_fits(v),
{
}

/// Round trip of the declared non-linear temperature pair: the two affine
/// conversions invert each other exactly. This is a fact of these two
/// declarations alone — nothing in the mechanism relates the two
/// directions of a non-linear pair.
pub proof fn lemma_temperature_round_trip(v: (int, int))
    requires
        v.1 != 0,
    ensures
        rat_eq(
            <Celsius as FromUnit<Fahrenheit>>::spec_from(
                <Fahrenheit as FromUnit<Celsius>>::spec_from(v),
            ),
            v,
        ),
{
    let w = <Fahrenheit as FromUnit<Celsius>>::spec_from(v);
    let back = <Celsius as FromUnit<Fahrenheit>>::spec_from(w);
    assert(back.0 == 45 * v.0 && back.1 == 45 * v.1);
    assert((45 * v.0) * v.1 == v.0 * (45 * v.1)) by (nonlinear_arith);
}

} // verus!
