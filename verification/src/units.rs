//! The concrete unit catalog: time, data size, transmission rate, and a
//! non-linear temperature pair.
//!
//! Each unit is one atomic declaration: a tag type with a symbol. A linear
//! family declares, for every ordered pair of its units, the conversion
//! `value_in_dst = value_in_src * src_scale / dst_scale` together with its
//! `FromUnitLinear` obligation; the trivial self-conversions are part of
//! the family, so that converting a unit into itself needs no extra
//! declaration. An alias unit carries its own symbol and forwards every
//! conversion to the unit it stands for. The Celsius/Fahrenheit pair shows
//! a declared non-linear (affine) conversion, which on purpose has no
//! `FromUnitLinear` marker: it must not take part in rate synthesis.

use vstd::prelude::*;

use crate::measure::DivUnit;
use crate::measure::FromUnit;
use crate::measure::FromUnitLinear;
use crate::measure::MeasureUnit;
use crate::measure::Measurement;
use crate::rational::Rat;
use crate::rational::fits_i;
use crate::rational::rat_scale;
use crate::rational::scale_fits;
use vstd::string::StringExecFns;

verus! {

// The time family: every ordered pair of units sharing the reference
// scale (seconds) gets a declared linear conversion, the trivial
// self-conversions included.

/// A second of time.
pub struct Second;

impl MeasureUnit for Second {
    type AliasedUnit = Second;

    open spec fn spec_symbol() -> Seq<char> {
        "s"@
    }

    fn symbol() -> (s: String) {
        String::from_str("s")
    }
}

/// A minute of time.
pub struct Minute;

impl MeasureUnit for Minute {
    type AliasedUnit = Minute;

    open spec fn spec_symbol() -> Seq<char> {
        "min"@
    }

    fn symbol() -> (s: String) {
        String::from_str("min")
    }
}

/// An hour of time.
pub struct Hour;

impl MeasureUnit for Hour {
    type AliasedUnit = Hour;

    open spec fn spec_symbol() -> Seq<char> {
        "h"@
    }

    fn symbol() -> (s: String) {
        String::from_str("h")
    }
}

impl FromUnit<Second> for Second {
    open spec fn spec_from(v: (int, int)) -> (int, int) {
        rat_scale(v, 1, 1)
    }

    open spec fn from_fits(v: (int, int)) -> bool {
        scale_fits(v, 1, 1)
    }

    proof fn from_wf(v: (int, int)) {
        assert(v.1 * 1 > 0) by (nonlinear_arith)
            requires
                v.1 > 0,
        ;
    }

    fn from_value(input: Measurement<Second>) -> (r: Measurement<Second>) {
        input.rescale(1, 1)
    }
}

impl FromUnitLinear<Second> for Second {
    open spec fn src_scale() -> int {
        1
    }

    open spec fn dst_scale() -> int {
        1
    }

    proof fn linearity(v: (int, int)) {
    }
}

impl FromUnit<Second> for Minute {
    open spec fn spec_from(v: (int, int)) -> (int, int) {
        rat_scale(v, 1, 60)
    }

    open spec fn from_fits(v: (int, int)) -> bool {
        scale_fits(v, 1, 60)
    }

    proof fn from_wf(v: (int, int)) {
        assert(v.1 * 60 > 0) by (nonlinear_arith)
            requires
                v.1 > 0,
        ;
    }

    fn from_value(input: Measurement<Second>) -> (r: Measurement<Minute>) {
        input.rescale(1, 60)
    }
}

impl FromUnitLinear<Second> for Minute {
    open spec fn src_scale() -> int {
        1
    }

    open spec fn dst_scale() -> int {
        60
    }

    proof fn linearity(v: (int, int)) {
    }
}

impl FromUnit<Second> for Hour {
    open spec fn spec_from(v: (int, int)) -> (int, int) {
        rat_scale(v, 1, 3600)
    }

    open spec fn from_fits(v: (int, int)) -> bool {
        scale_fits(v, 1, 3600)
    }

    proof fn from_wf(v: (int, int)) {
        assert(v.1 * 3600 > 0) by (nonlinear_arith)
            requires
                v.1 > 0,
        ;
    }

    fn from_value(input: Measurement<Second>) -> (r: Measurement<Hour>) {
        input.rescale(1, 3600)
    }
}

impl FromUnitLinear<Second> for Hour {
    open spec fn src_scale() -> int {
        1
    }

    open spec fn dst_scale() -> int {
        3600
    }

    proof fn linearity(v: (int, int)) {
    }
}

impl FromUnit<Minute> for Second {
    open spec fn spec_from(v: (int, int)) -> (int, int) {
        rat_scale(v, 60, 1)
    }

    open spec fn from_fits(v: (int, int)) -> bool {
        scale_fits(v, 60, 1)
    }

    proof fn from_wf(v: (int, int)) {
        assert(v.1 * 1 > 0) by (nonlinear_arith)
            requires
                v.1 > 0,
        ;
    }

    fn from_value(input: Measurement<Minute>) -> (r: Measurement<Second>) {
        input.rescale(60, 1)
    }
}

impl FromUnitLinear<Minute> for Second {
    open spec fn src_scale() -> int {
        60
    }

    open spec fn dst_scale() -> int {
        1
    }

    proof fn linearity(v: (int, int)) {
    }
}

impl FromUnit<Minute> for Minute {
    open spec fn spec_from(v: (int, int)) -> (int, int) {
        rat_scale(v, 60, 60)
    }

    open spec fn from_fits(v: (int, int)) -> bool {
        scale_fits(v, 60, 60)
    }

    proof fn from_wf(v: (int, int)) {
        assert(v.1 * 60 > 0) by (nonlinear_arith)
            requires
                v.1 > 0,
        ;
    }

    fn from_value(input: Measurement<Minute>) -> (r: Measurement<Minute>) {
        input.rescale(60, 60)
    }
}

impl FromUnitLinear<Minute> for Minute {
    open spec fn src_scale() -> int {
        60
    }

    open spec fn dst_scale() -> int {
        60
    }

    proof fn linearity(v: (int, int)) {
    }
}

impl FromUnit<Minute> for Hour {
    open spec fn spec_from(v: (int, int)) -> (int, int) {
        rat_scale(v, 60, 3600)
    }

    open spec fn from_fits(v: (int, int)) -> bool {
        scale_fits(v, 60, 3600)
    }

    proof fn from_wf(v: (int, int)) {
        assert(v.1 * 3600 > 0) by (nonlinear_arith)
            requires
                v.1 > 0,
        ;
    }

    fn from_value(input: Measurement<Minute>) -> (r: Measurement<Hour>) {
        input.rescale(60, 3600)
    }
}

impl FromUnitLinear<Minute> for Hour {
    open spec fn src_scale() -> int {
        60
    }

    open spec fn dst_scale() -> int {
        3600
    }

    proof fn linearity(v: (int, int)) {
    }
}

impl FromUnit<Hour> for Second {
    open spec fn spec_from(v: (int, int)) -> (int, int) {
        rat_scale(v, 3600, 1)
    }

    open spec fn from_fits(v: (int, int)) -> bool {
        scale_fits(v, 3600, 1)
    }

    proof fn from_wf(v: (int, int)) {
        assert(v.1 * 1 > 0) by (nonlinear_arith)
            requires
                v.1 > 0,
        ;
    }

    fn from_value(input: Measurement<Hour>) -> (r: Measurement<Second>) {
        input.rescale(3600, 1)
    }
}

impl FromUnitLinear<Hour> for Second {
    open spec fn src_scale() -> int {
        3600
    }

    open spec fn dst_scale() -> int {
        1
    }

    proof fn linearity(v: (int, int)) {
    }
}

impl FromUnit<Hour> for Minute {
    open spec fn spec_from(v: (int, int)) -> (int, int) {
        rat_scale(v, 3600, 60)
    }

    open spec fn from_fits(v: (int, int)) -> bool {
        scale_fits(v, 3600, 60)
    }

    proof fn from_wf(v: (int, int)) {
        assert(v.1 * 60 > 0) by (nonlinear_arith)
            requires
                v.1 > 0,
        ;
    }

    fn from_value(input: Measurement<Hour>) -> (r: Measurement<Minute>) {
        input.rescale(3600, 60)
    }
}

impl FromUnitLinear<Hour> for Minute {
    open spec fn src_scale() -> int {
        3600
    }

    open spec fn dst_scale() -> int {
        60
    }

    proof fn linearity(v: (int, int)) {
    }
}

impl FromUnit<Hour> for Hour {
    open spec fn spec_from(v: (int, int)) -> (int, int) {
        rat_scale(v, 3600, 3600)
    }

    open spec fn from_fits(v: (int, int)) -> bool {
        scale_fits(v, 3600, 3600)
    }

    proof fn from_wf(v: (int, int)) {
        assert(v.1 * 3600 > 0) by (nonlinear_arith)
            requires
                v.1 > 0,
        ;
    }

    fn from_value(input: Measurement<Hour>) -> (r: Measurement<Hour>) {
        input.rescale(3600, 3600)
    }
}

impl FromUnitLinear<Hour> for Hour {
    open spec fn src_scale() -> int {
        3600
    }

    open spec fn dst_scale() -> int {
        3600
    }

    proof fn linearity(v: (int, int)) {
    }
}

// The data-size family, with the bit as reference scale.

/// A bit of data.
pub struct Bit;

impl MeasureUnit for Bit {
    type AliasedUnit = Bit;

    open spec fn spec_symbol() -> Seq<char> {
        "b"@
    }

    fn symbol() -> (s: String) {
        String::from_str("b")
    }
}

/// A kilobit of data.
pub struct Kilobit;

impl MeasureUnit for Kilobit {
    type AliasedUnit = Kilobit;

    open spec fn spec_symbol() -> Seq<char> {
        "Kb"@
    }

    fn symbol() -> (s: String) {
        String::from_str("Kb")
    }
}

/// A megabit of data.
pub struct Megabit;

impl MeasureUnit for Megabit {
    type AliasedUnit = Megabit;

    open spec fn spec_symbol() -> Seq<char> {
        "Mb"@
    }

    fn symbol() -> (s: String) {
        String::from_str("Mb")
    }
}

/// A gigabit of data.
pub struct Gigabit;

impl MeasureUnit for Gigabit {
    type AliasedUnit = Gigabit;

    open spec fn spec_symbol() -> Seq<char> {
        "Gb"@
    }

    fn symbol() -> (s: String) {
        String::from_str("Gb")
    }
}

/// A terabit of data.
pub struct Terabit;

impl MeasureUnit for Terabit {
    type AliasedUnit = Terabit;

    open spec fn spec_symbol() -> Seq<char> {
        "Tb"@
    }

    fn symbol() -> (s: String) {
        String::from_str("Tb")
    }
}

impl FromUnit<Bit> for Bit {
    open spec fn spec_from(v: (int, int)) -> (int, int) {
        rat_scale(v, 1, 1)
    }

    open spec fn from_fits(v: (int, int)) -> bool {
        scale_fits(v, 1, 1)
    }

    proof fn from_wf(v: (int, int)) {
        assert(v.1 * 1 > 0) by (nonlinear_arith)
            requires
                v.1 > 0,
        ;
    }

    fn from_value(input: Measurement<Bit>) -> (r: Measurement<Bit>) {
        input.rescale(1, 1)
    }
}

impl FromUnitLinear<Bit> for Bit {
    open spec fn src_scale() -> int {
        1
    }

    open spec fn dst_scale() -> int {
        1
    }

    proof fn linearity(v: (int, int)) {
    }
}

impl FromUnit<Bit> for Kilobit {
    open spec fn spec_from(v: (int, int)) -> (int, int) {
        rat_scale(v, 1, 1000)
    }

    open spec fn from_fits(v: (int, int)) -> bool {
        scale_fits(v, 1, 1000)
    }

    proof fn from_wf(v: (int, int)) {
        assert(v.1 * 1000 > 0) by (nonlinear_arith)
            requires
                v.1 > 0,
        ;
    }

    fn from_value(input: Measurement<Bit>) -> (r: Measurement<Kilobit>) {
        input.rescale(1, 1000)
    }
}

impl FromUnitLinear<Bit> for Kilobit {
    open spec fn src_scale() -> int {
        1
    }

    open spec fn dst_scale() -> int {
        1000
    }

    proof fn linearity(v: (int, int)) {
    }
}

impl FromUnit<Bit> for Megabit {
    open spec fn spec_from(v: (int, int)) -> (int, int) {
        rat_scale(v, 1, 1000000)
    }

    open spec fn from_fits(v: (int, int)) -> bool {
        scale_fits(v, 1, 1000000)
    }

    proof fn from_wf(v: (int, int)) {
        assert(v.1 * 1000000 > 0) by (nonlinear_arith)
            requires
                v.1 > 0,
        ;
    }

    fn from_value(input: Measurement<Bit>) -> (r: Measurement<Megabit>) {
        input.rescale(1, 1000000)
    }
}

impl FromUnitLinear<Bit> for Megabit {
    open spec fn src_scale() -> int {
        1
    }

    open spec fn dst_scale() -> int {
        1000000
    }

    proof fn linearity(v: (int, int)) {
    }
}

impl FromUnit<Kilobit> for Bit {
    open spec fn spec_from(v: (int, int)) -> (int, int) {
        rat_scale(v, 1000, 1)
    }

    open spec fn from_fits(v: (int, int)) -> bool {
        scale_fits(v, 1000, 1)
    }

    proof fn from_wf(v: (int, int)) {
        assert(v.1 * 1 > 0) by (nonlinear_arith)
            requires
                v.1 > 0,
        ;
    }

    fn from_value(input: Measurement<Kilobit>) -> (r: Measurement<Bit>) {
        input.rescale(1000, 1)
    }
}

impl FromUnitLinear<Kilobit> for Bit {
    open spec fn src_scale() -> int {
        1000
    }

    open spec fn dst_scale() -> int {
        1
    }

    proof fn linearity(v: (int, int)) {
    }
}

impl FromUnit<Kilobit> for Kilobit {
    open spec fn spec_from(v: (int, int)) -> (int, int) {
        rat_scale(v, 1000, 1000)
    }

    open spec fn from_fits(v: (int, int)) -> bool {
        scale_fits(v, 1000, 1000)
    }

    proof fn from_wf(v: (int, int)) {
        assert(v.1 * 1000 > 0) by (nonlinear_arith)
            requires
                v.1 > 0,
        ;
    }

    fn from_value(input: Measurement<Kilobit>) -> (r: Measurement<Kilobit>) {
        input.rescale(1000, 1000)
    }
}

impl FromUnitLinear<Kilobit> for Kilobit {
    open spec fn src_scale() -> int {
        1000
    }

    open spec fn dst_scale() -> int {
        1000
    }

    proof fn linearity(v: (int, int)) {
    }
}

impl FromUnit<Kilobit> for Megabit {
    open spec fn spec_from(v: (int, int)) -> (int, int) {
        rat_scale(v, 1000, 1000000)
    }

    open spec fn from_fits(v: (int, int)) -> bool {
        scale_fits(v, 1000, 1000000)
    }

    proof fn from_wf(v: (int, int)) {
        assert(v.1 * 1000000 > 0) by (nonlinear_arith)
            requires
                v.1 > 0,
        ;
    }

    fn from_value(input: Measurement<Kilobit>) -> (r: Measurement<Megabit>) {
        input.rescale(1000, 1000000)
    }
}

impl FromUnitLinear<Kilobit> for Megabit {
    open spec fn src_scale() -> int {
        1000
    }

    open spec fn dst_scale() -> int {
        1000000
    }

    proof fn linearity(v: (int, int)) {
    }
}

impl FromUnit<Megabit> for Bit {
    open spec fn spec_from(v: (int, int)) -> (int, int) {
        rat_scale(v, 1000000, 1)
    }

    open spec fn from_fits(v: (int, int)) -> bool {
        scale_fits(v, 1000000, 1)
    }

    proof fn from_wf(v: (int, int)) {
        assert(v.1 * 1 > 0) by (nonlinear_arith)
            requires
                v.1 > 0,
        ;
    }

    fn from_value(input: Measurement<Megabit>) -> (r: Measurement<Bit>) {
        input.rescale(1000000, 1)
    }
}

impl FromUnitLinear<Megabit> for Bit {
    open spec fn src_scale() -> int {
        1000000
    }

    open spec fn dst_scale() -> int {
        1
    }

    proof fn linearity(v: (int, int)) {
    }
}

impl FromUnit<Megabit> for Kilobit {
    open spec fn spec_from(v: (int, int)) -> (int, int) {
        rat_scale(v, 1000000, 1000)
    }

    open spec fn from_fits(v: (int, int)) -> bool {
        scale_fits(v, 1000000, 1000)
    }

    proof fn from_wf(v: (int, int)) {
        assert(v.1 * 1000 > 0) by (nonlinear_arith)
            requires
                v.1 > 0,
        ;
    }

    fn from_value(input: Measurement<Megabit>) -> (r: Measurement<Kilobit>) {
        input.rescale(1000000, 1000)
    }
}

impl FromUnitLinear<Megabit> for Kilobit {
    open spec fn src_scale() -> int {
        1000000
    }

    open spec fn dst_scale() -> int {
        1000
    }

    proof fn linearity(v: (int, int)) {
    }
}

impl FromUnit<Megabit> for Megabit {
    open spec fn spec_from(v: (int, int)) -> (int, int) {
        rat_scale(v, 1000000, 1000000)
    }

    open spec fn from_fits(v: (int, int)) -> bool {
        scale_fits(v, 1000000, 1000000)
    }

    proof fn from_wf(v: (int, int)) {
        assert(v.1 * 1000000 > 0) by (nonlinear_arith)
            requires
                v.1 > 0,
        ;
    }

    fn from_value(input: Measurement<Megabit>) -> (r: Measurement<Megabit>) {
        input.rescale(1000000, 1000000)
    }
}

impl FromUnitLinear<Megabit> for Megabit {
    open spec fn src_scale() -> int {
        1000000
    }

    open spec fn dst_scale() -> int {
        1000000
    }

    proof fn linearity(v: (int, int)) {
    }
}

impl FromUnit<Bit> for Gigabit {
    open spec fn spec_from(v: (int, int)) -> (int, int) {
        rat_scale(v, 1, 1000000000)
    }

    open spec fn from_fits(v: (int, int)) -> bool {
        scale_fits(v, 1, 1000000000)
    }

    proof fn from_wf(v: (int, int)) {
        assert(v.1 * 1000000000 > 0) by (nonlinear_arith)
            requires
                v.1 > 0,
        ;
    }

    fn from_value(input: Measurement<Bit>) -> (r: Measurement<Gigabit>) {
        input.rescale(1, 1000000000)
    }
}

impl FromUnitLinear<Bit> for Gigabit {
    open spec fn src_scale() -> int {
        1
    }

    open spec fn dst_scale() -> int {
        1000000000
    }

    proof fn linearity(v: (int, int)) {
    }
}

impl FromUnit<Bit> for Terabit {
    open spec fn spec_from(v: (int, int)) -> (int, int) {
        rat_scale(v, 1, 1000000000000)
    }

    open spec fn from_fits(v: (int, int)) -> bool {
        scale_fits(v, 1, 1000000000000)
    }

    proof fn from_wf(v: (int, int)) {
        assert(v.1 * 1000000000000 > 0) by (nonlinear_arith)
            requires
                v.1 > 0,
        ;
    }

    fn from_value(input: Measurement<Bit>) -> (r: Measurement<Terabit>) {
        input.rescale(1, 1000000000000)
    }
}

impl FromUnitLinear<Bit> for Terabit {
    open spec fn src_scale() -> int {
        1
    }

    open spec fn dst_scale() -> int {
        1000000000000
    }

    proof fn linearity(v: (int, int)) {
    }
}

impl FromUnit<Kilobit> for Gigabit {
    open spec fn spec_from(v: (int, int)) -> (int, int) {
        rat_scale(v, 1000, 1000000000)
    }

    open spec fn from_fits(v: (int, int)) -> bool {
        scale_fits(v, 1000, 1000000000)
    }

    proof fn from_wf(v: (int, int)) {
        assert(v.1 * 1000000000 > 0) by (nonlinear_arith)
            requires
                v.1 > 0,
        ;
    }

    fn from_value(input: Measurement<Kilobit>) -> (r: Measurement<Gigabit>) {
        input.rescale(1000, 1000000000)
    }
}

impl FromUnitLinear<Kilobit> for Gigabit {
    open spec fn src_scale() -> int {
        1000
    }

    open spec fn dst_scale() -> int {
        1000000000
    }

    proof fn linearity(v: (int, int)) {
    }
}

impl FromUnit<Kilobit> for Terabit {
    open spec fn spec_from(v: (int, int)) -> (int, int) {
        rat_scale(v, 1000, 1000000000000)
    }

    open spec fn from_fits(v: (int, int)) -> bool {
        scale_fits(v, 1000, 1000000000000)
    }

    proof fn from_wf(v: (int, int)) {
        assert(v.1 * 1000000000000 > 0) by (nonlinear_arith)
            requires
                v.1 > 0,
        ;
    }

    fn from_value(input: Measurement<Kilobit>) -> (r: Measurement<Terabit>) {
        input.rescale(1000, 1000000000000)
    }
}

impl FromUnitLinear<Kilobit> for Terabit {
    open spec fn src_scale() -> int {
        1000
    }

    open spec fn dst_scale() -> int {
        1000000000000
    }

    proof fn linearity(v: (int, int)) {
    }
}

impl FromUnit<Megabit> for Gigabit {
    open spec fn spec_from(v: (int, int)) -> (int, int) {
        rat_scale(v, 1000000, 1000000000)
    }

    open spec fn from_fits(v: (int, int)) -> bool {
        scale_fits(v, 1000000, 1000000000)
    }

    proof fn from_wf(v: (int, int)) {
        assert(v.1 * 1000000000 > 0) by (nonlinear_arith)
            requires
                v.1 > 0,
        ;
    }

    fn from_value(input: Measurement<Megabit>) -> (r: Measurement<Gigabit>) {
        input.rescale(1000000, 1000000000)
    }
}

impl FromUnitLinear<Megabit> for Gigabit {
    open spec fn src_scale() -> int {
        1000000
    }

    open spec fn dst_scale() -> int {
        1000000000
    }

    proof fn linearity(v: (int, int)) {
    }
}

impl FromUnit<Megabit> for Terabit {
    open spec fn spec_from(v: (int, int)) -> (int, int) {
        rat_scale(v, 1000000, 1000000000000)
    }

    open spec fn from_fits(v: (int, int)) -> bool {
        scale_fits(v, 1000000, 1000000000000)
    }

    proof fn from_wf(v: (int, int)) {
        assert(v.1 * 1000000000000 > 0) by (nonlinear_arith)
            requires
                v.1 > 0,
        ;
    }

    fn from_value(input: Measurement<Megabit>) -> (r: Measurement<Terabit>) {
        input.rescale(1000000, 1000000000000)
    }
}

impl FromUnitLinear<Megabit> for Terabit {
    open spec fn src_scale() -> int {
        1000000
    }

    open spec fn dst_scale() -> int {
        1000000000000
    }

    proof fn linearity(v: (int, int)) {
    }
}

impl FromUnit<Gigabit> for Bit {
    open spec fn spec_from(v: (int, int)) -> (int, int) {
        rat_scale(v, 1000000000, 1)
    }

    open spec fn from_fits(v: (int, int)) -> bool {
        scale_fits(v, 1000000000, 1)
    }

    proof fn from_wf(v: (int, int)) {
        assert(v.1 * 1 > 0) by (nonlinear_arith)
            requires
                v.1 > 0,
        ;
    }

    fn from_value(input: Measurement<Gigabit>) -> (r: Measurement<Bit>) {
        input.rescale(1000000000, 1)
    }
}

impl FromUnitLinear<Gigabit> for Bit {
    open spec fn src_scale() -> int {
        1000000000
    }

    open spec fn dst_scale() -> int {
        1
    }

    proof fn linearity(v: (int, int)) {
    }
}

impl FromUnit<Gigabit> for Kilobit {
    open spec fn spec_from(v: (int, int)) -> (int, int) {
        rat_scale(v, 1000000000, 1000)
    }

    open spec fn from_fits(v: (int, int)) -> bool {
        scale_fits(v, 1000000000, 1000)
    }

    proof fn from_wf(v: (int, int)) {
        assert(v.1 * 1000 > 0) by (nonlinear_arith)
            requires
                v.1 > 0,
        ;
    }

    fn from_value(input: Measurement<Gigabit>) -> (r: Measurement<Kilobit>) {
        input.rescale(1000000000, 1000)
    }
}

impl FromUnitLinear<Gigabit> for Kilobit {
    open spec fn src_scale() -> int {
        1000000000
    }

    open spec fn dst_scale() -> int {
        1000
    }

    proof fn linearity(v: (int, int)) {
    }
}

impl FromUnit<Gigabit> for Megabit {
    open spec fn spec_from(v: (int, int)) -> (int, int) {
        rat_scale(v, 1000000000, 1000000)
    }

    open spec fn from_fits(v: (int, int)) -> bool {
        scale_fits(v, 1000000000, 1000000)
    }

    proof fn from_wf(v: (int, int)) {
        assert(v.1 * 1000000 > 0) by (nonlinear_arith)
            requires
                v.1 > 0,
        ;
    }

    fn from_value(input: Measurement<Gigabit>) -> (r: Measurement<Megabit>) {
        input.rescale(1000000000, 1000000)
    }
}

impl FromUnitLinear<Gigabit> for Megabit {
    open spec fn src_scale() -> int {
        1000000000
    }

    open spec fn dst_scale() -> int {
        1000000
    }

    proof fn linearity(v: (int, int)) {
    }
}

impl FromUnit<Gigabit> for Gigabit {
    open spec fn spec_from(v: (int, int)) -> (int, int) {
        rat_scale(v, 1000000000, 1000000000)
    }

    open spec fn from_fits(v: (int, int)) -> bool {
        scale_fits(v, 1000000000, 1000000000)
    }

    proof fn from_wf(v: (int, int)) {
        assert(v.1 * 1000000000 > 0) by (nonlinear_arith)
            requires
                v.1 > 0,
        ;
    }

    fn from_value(input: Measurement<Gigabit>) -> (r: Measurement<Gigabit>) {
        input.rescale(1000000000, 1000000000)
    }
}

impl FromUnitLinear<Gigabit> for Gigabit {
    open spec fn src_scale() -> int {
        1000000000
    }

    open spec fn dst_scale() -> int {
        1000000000
    }

    proof fn linearity(v: (int, int)) {
    }
}

impl FromUnit<Gigabit> for Terabit {
    open spec fn spec_from(v: (int, int)) -> (int, int) {
        rat_scale(v, 1000000000, 1000000000000)
    }

    open spec fn from_fits(v: (int, int)) -> bool {
        scale_fits(v, 1000000000, 1000000000000)
    }

    proof fn from_wf(v: (int, int)) {
        assert(v.1 * 1000000000000 > 0) by (nonlinear_arith)
            requires
                v.1 > 0,
        ;
    }

    fn from_value(input: Measurement<Gigabit>) -> (r: Measurement<Terabit>) {
        input.rescale(1000000000, 1000000000000)
    }
}

impl FromUnitLinear<Gigabit> for Terabit {
    open spec fn src_scale() -> int {
        1000000000
    }

    open spec fn dst_scale() -> int {
        1000000000000
    }

    proof fn linearity(v: (int, int)) {
    }
}

impl FromUnit<Terabit> for Bit {
    open spec fn spec_from(v: (int, int)) -> (int, int) {
        rat_scale(v, 1000000000000, 1)
    }

    open spec fn from_fits(v: (int, int)) -> bool {
        scale_fits(v, 1000000000000, 1)
    }

    proof fn from_wf(v: (int, int)) {
        assert(v.1 * 1 > 0) by (nonlinear_arith)
            requires
                v.1 > 0,
        ;
    }

    fn from_value(input: Measurement<Terabit>) -> (r: Measurement<Bit>) {
        input.rescale(1000000000000, 1)
    }
}

impl FromUnitLinear<Terabit> for Bit {
    open spec fn src_scale() -> int {
        1000000000000
    }

    open spec fn dst_scale() -> int {
        1
    }

    proof fn linearity(v: (int, int)) {
    }
}

impl FromUnit<Terabit> for Kilobit {
    open spec fn spec_from(v: (int, int)) -> (int, int) {
        rat_scale(v, 1000000000000, 1000)
    }

    open spec fn from_fits(v: (int, int)) -> bool {
        scale_fits(v, 1000000000000, 1000)
    }

    proof fn from_wf(v: (int, int)) {
        assert(v.1 * 1000 > 0) by (nonlinear_arith)
            requires
                v.1 > 0,
        ;
    }

    fn from_value(input: Measurement<Terabit>) -> (r: Measurement<Kilobit>) {
        input.rescale(1000000000000, 1000)
    }
}

impl FromUnitLinear<Terabit> for Kilobit {
    open spec fn src_scale() -> int {
        1000000000000
    }

    open spec fn dst_scale() -> int {
        1000
    }

    proof fn linearity(v: (int, int)) {
    }
}

impl FromUnit<Terabit> for Megabit {
    open spec fn spec_from(v: (int, int)) -> (int, int) {
        rat_scale(v, 1000000000000, 1000000)
    }

    open spec fn from_fits(v: (int, int)) -> bool {
        scale_fits(v, 1000000000000, 1000000)
    }

    proof fn from_wf(v: (int, int)) {
        assert(v.1 * 1000000 > 0) by (nonlinear_arith)
            requires
                v.1 > 0,
        ;
    }

    fn from_value(input: Measurement<Terabit>) -> (r: Measurement<Megabit>) {
        input.rescale(1000000000000, 1000000)
    }
}

impl FromUnitLinear<Terabit> for Megabit {
    open spec fn src_scale() -> int {
        1000000000000
    }

    open spec fn dst_scale() -> int {
        1000000
    }

    proof fn linearity(v: (int, int)) {
    }
}

impl FromUnit<Terabit> for Gigabit {
    open spec fn spec_from(v: (int, int)) -> (int, int) {
        rat_scale(v, 1000000000000, 1000000000)
    }

    open spec fn from_fits(v: (int, int)) -> bool {
        scale_fits(v, 1000000000000, 1000000000)
    }

    proof fn from_wf(v: (int, int)) {
        assert(v.1 * 1000000000 > 0) by (nonlinear_arith)
            requires
                v.1 > 0,
        ;
    }

    fn from_value(input: Measurement<Terabit>) -> (r: Measurement<Gigabit>) {
        input.rescale(1000000000000, 1000000000)
    }
}

impl FromUnitLinear<Terabit> for Gigabit {
    open spec fn src_scale() -> int {
        1000000000000
    }

    open spec fn dst_scale() -> int {
        1000000000
    }

    proof fn linearity(v: (int, int)) {
    }
}

impl FromUnit<Terabit> for Terabit {
    open spec fn spec_from(v: (int, int)) -> (int, int) {
        rat_scale(v, 1000000000000, 1000000000000)
    }

    open spec fn from_fits(v: (int, int)) -> bool {
        scale_fits(v, 1000000000000, 1000000000000)
    }

    proof fn from_wf(v: (int, int)) {
        assert(v.1 * 1000000000000 > 0) by (nonlinear_arith)
            requires
                v.1 > 0,
        ;
    }

    fn from_value(input: Measurement<Terabit>) -> (r: Measurement<Terabit>) {
        input.rescale(1000000000000, 1000000000000)
    }
}

impl FromUnitLinear<Terabit> for Terabit {
    open spec fn src_scale() -> int {
        1000000000000
    }

    open spec fn dst_scale() -> int {
        1000000000000
    }

    proof fn linearity(v: (int, int)) {
    }
}

// Transmission-rate aliases: each stands for a rate unit and carries its
// own symbol; conversions are pure delegation to the underlying unit.

/// Bits per second, an alias of `DivUnit<Bit, Second>`.
pub struct Bps;

impl MeasureUnit for Bps {
    type AliasedUnit = DivUnit<Bit, Second>;

    open spec fn spec_symbol() -> Seq<char> {
        "bps"@
    }

    fn symbol() -> (s: String) {
        String::from_str("bps")
    }
}

impl<T: FromUnit<DivUnit<Bit, Second>>> FromUnit<Bps> for T {
    open spec fn spec_from(v: (int, int)) -> (int, int) {
        <T as FromUnit<DivUnit<Bit, Second>>>::spec_from(v)
    }

    open spec fn from_fits(v: (int, int)) -> bool {
        <T as FromUnit<DivUnit<Bit, Second>>>::from_fits(v)
    }

    proof fn from_wf(v: (int, int)) {
        <T as FromUnit<DivUnit<Bit, Second>>>::from_wf(v);
    }

    fn from_value(input: Measurement<Bps>) -> (r: Measurement<T>) {
        <T as FromUnit<DivUnit<Bit, Second>>>::from_value(
            Measurement::<DivUnit<Bit, Second>>::new(input.value()),
        )
    }
}

/// Kilobits per second, an alias of `DivUnit<Kilobit, Second>`.
pub struct Kbps;

impl MeasureUnit for Kbps {
    type AliasedUnit = DivUnit<Kilobit, Second>;

    open spec fn spec_symbol() -> Seq<char> {
        "Kbps"@
    }

    fn symbol() -> (s: String) {
        String::from_str("Kbps")
    }
}

impl<T: FromUnit<DivUnit<Kilobit, Second>>> FromUnit<Kbps> for T {
    open spec fn spec_from(v: (int, int)) -> (int, int) {
        <T as FromUnit<DivUnit<Kilobit, Second>>>::spec_from(v)
    }

    open spec fn from_fits(v: (int, int)) -> bool {
        <T as FromUnit<DivUnit<Kilobit, Second>>>::from_fits(v)
    }

    proof fn from_wf(v: (int, int)) {
        <T as FromUnit<DivUnit<Kilobit, Second>>>::from_wf(v);
    }

    fn from_value(input: Measurement<Kbps>) -> (r: Measurement<T>) {
        <T as FromUnit<DivUnit<Kilobit, Second>>>::from_value(
            Measurement::<DivUnit<Kilobit, Second>>::new(input.value()),
        )
    }
}

/// Megabits per second, an alias of `DivUnit<Megabit, Second>`.
pub struct Mbps;

impl MeasureUnit for Mbps {
    type AliasedUnit = DivUnit<Megabit, Second>;

    open spec fn spec_symbol() -> Seq<char> {
        "Mbps"@
    }

    fn symbol() -> (s: String) {
        String::from_str("Mbps")
    }
}

impl<T: FromUnit<DivUnit<Megabit, Second>>> FromUnit<Mbps> for T {
    open spec fn spec_from(v: (int, int)) -> (int, int) {
        <T as FromUnit<DivUnit<Megabit, Second>>>::spec_from(v)
    }

    open spec fn from_fits(v: (int, int)) -> bool {
        <T as FromUnit<DivUnit<Megabit, Second>>>::from_fits(v)
    }

    proof fn from_wf(v: (int, int)) {
        <T as FromUnit<DivUnit<Megabit, Second>>>::from_wf(v);
    }

    fn from_value(input: Measurement<Mbps>) -> (r: Measurement<T>) {
        <T as FromUnit<DivUnit<Megabit, Second>>>::from_value(
            Measurement::<DivUnit<Megabit, Second>>::new(input.value()),
        )
    }
}

/// Gigabits per second, an alias of `DivUnit<Gigabit, Second>`.
pub struct Gbps;

impl MeasureUnit for Gbps {
    type AliasedUnit = DivUnit<Gigabit, Second>;

    open spec fn spec_symbol() -> Seq<char> {
        "Gbps"@
    }

    fn symbol() -> (s: String) {
        String::from_str("Gbps")
    }
}

impl<T: FromUnit<DivUnit<Gigabit, Second>>> FromUnit<Gbps> for T {
    open spec fn spec_from(v: (int, int)) -> (int, int) {
        <T as FromUnit<DivUnit<Gigabit, Second>>>::spec_from(v)
    }

    open spec fn from_fits(v: (int, int)) -> bool {
        <T as FromUnit<DivUnit<Gigabit, Second>>>::from_fits(v)
    }

    proof fn from_wf(v: (int, int)) {
        <T as FromUnit<DivUnit<Gigabit, Second>>>::from_wf(v);
    }

    fn from_value(input: Measurement<Gbps>) -> (r: Measurement<T>) {
        <T as FromUnit<DivUnit<Gigabit, Second>>>::from_value(
            Measurement::<DivUnit<Gigabit, Second>>::new(input.value()),
        )
    }
}

/// Terabits per second, an alias of `DivUnit<Terabit, Second>`.
pub struct Tbps;

impl MeasureUnit for Tbps {
    type AliasedUnit = DivUnit<Terabit, Second>;

    open spec fn spec_symbol() -> Seq<char> {
        "Tbps"@
    }

    fn symbol() -> (s: String) {
        String::from_str("Tbps")
    }
}

impl<T: FromUnit<DivUnit<Terabit, Second>>> FromUnit<Tbps> for T {
    open spec fn spec_from(v: (int, int)) -> (int, int) {
        <T as FromUnit<DivUnit<Terabit, Second>>>::spec_from(v)
    }

    open spec fn from_fits(v: (int, int)) -> bool {
        <T as FromUnit<DivUnit<Terabit, Second>>>::from_fits(v)
    }

    proof fn from_wf(v: (int, int)) {
        <T as FromUnit<DivUnit<Terabit, Second>>>::from_wf(v);
    }

    fn from_value(input: Measurement<Tbps>) -> (r: Measurement<T>) {
        <T as FromUnit<DivUnit<Terabit, Second>>>::from_value(
            Measurement::<DivUnit<Terabit, Second>>::new(input.value()),
        )
    }
}

// A declared non-linear pair: the two directions are independent affine
// conversions, and nothing relates them beyond their own declarations.

/// A degree Celsius of temperature.
pub struct Celsius;

impl MeasureUnit for Celsius {
    type AliasedUnit = Celsius;

    open spec fn spec_symbol() -> Seq<char> {
        "C"@
    }

    fn symbol() -> (s: String) {
        String::from_str("C")
    }
}

/// A degree Fahrenheit of temperature.
pub struct Fahrenheit;

impl MeasureUnit for Fahrenheit {
    type AliasedUnit = Fahrenheit;

    open spec fn spec_symbol() -> Seq<char> {
        "F"@
    }

    fn symbol() -> (s: String) {
        String::from_str("F")
    }
}

impl FromUnit<Celsius> for Fahrenheit {
    open spec fn spec_from(v: (int, int)) -> (int, int) {
        (9 * v.0 + 160 * v.1, 5 * v.1)
    }

    open spec fn from_fits(v: (int, int)) -> bool {
        fits_i(9 * v.0) && fits_i(160 * v.1) && fits_i(9 * v.0 + 160 * v.1) && fits_i(5 * v.1)
    }

    proof fn from_wf(v: (int, int)) {
    }

    fn from_value(input: Measurement<Celsius>) -> (r: Measurement<Fahrenheit>) {
        let v = input.value();
        proof {
            assert(5 * v.den > 0) by (nonlinear_arith)
                requires
                    v.den > 0,
            ;
        }
        Measurement::new(Rat { num: 9 * v.num + 160 * v.den, den: 5 * v.den })
    }
}

impl FromUnit<Fahrenheit> for Celsius {
    open spec fn spec_from(v: (int, int)) -> (int, int) {
        (5 * v.0 - 160 * v.1, 9 * v.1)
    }

    open spec fn from_fits(v: (int, int)) -> bool {
        fits_i(5 * v.0) && fits_i(160 * v.1) && fits_i(5 * v.0 - 160 * v.1) && fits_i(9 * v.1)
    }

    proof fn from_wf(v: (int, int)) {
    }

    fn from_value(input: Measurement<Fahrenheit>) -> (r: Measurement<Celsius>) {
        let v = input.value();
        proof {
            assert(9 * v.den > 0) by (nonlinear_arith)
                requires
                    v.den > 0,
            ;
        }
        Measurement::new(Rat { num: 5 * v.num - 160 * v.den, den: 9 * v.den })
    }
}

} // verus!
