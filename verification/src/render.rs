//! Rendering a measurement as text: `"<magnitude> <symbol>"`.
//!
//! The magnitude is first fully reduced. When the reduced denominator has
//! no prime factors besides two and five — and the scaled digits fit the
//! machine word — the magnitude is written as an exact terminating decimal
//! (`42.42`, `4.6`, `-0.5`, plain `42` for integers); otherwise it is
//! written as a fraction with a slash. The whole pipeline, down to the
//! digit characters, is specified by the `spec_*` functions here, and each
//! executable step is proved to produce exactly the text those functions
//! name.

use vstd::prelude::*;

use crate::measure::MeasureUnit;
use crate::measure::Measurement;
use crate::rational::Rat;
use vstd::arithmetic::div_mod::lemma_div_is_strictly_smaller;
use vstd::arithmetic::div_mod::lemma_div_non_zero;
use vstd::arithmetic::div_mod::lemma_fundamental_div_mod;
use vstd::string::StringExecFns;

verus! {

/// The greatest common divisor, by Euclid's recursion.
pub open spec fn spec_gcd(a: nat, b: nat) -> nat
    decreases b,
{
    if b == 0 {
        a
    } else {
        spec_gcd(b, a % b)
    }
}

/// The divisor is positive as soon as one argument is.
proof fn lemma_gcd_pos(a: nat, b: nat)
    requires
        a > 0 || b > 0,
    ensures
        spec_gcd(a, b) > 0,
    decreases b,
{
    if b > 0 {
        lemma_gcd_pos(b, a % b);
    }
}

/// The divisor of a pair with positive second component is at most that
/// component.
proof fn lemma_gcd_le(a: nat, b: nat)
    requires
        b > 0,
    ensures
        spec_gcd(a, b) <= b,
    decreases b,
{
    if a % b > 0 {
        lemma_gcd_le(b, a % b);
    } else {
        assert(spec_gcd(a, b) == spec_gcd(b, 0));
    }
}

/// The digit character for `d` in `0 .. 10`.
pub open spec fn spec_digit(d: int) -> char {
    if d == 0 {
        '0'
    } else if d == 1 {
        '1'
    } else if d == 2 {
        '2'
    } else if d == 3 {
        '3'
    } else if d == 4 {
        '4'
    } else if d == 5 {
        '5'
    } else if d == 6 {
        '6'
    } else if d == 7 {
        '7'
    } else if d == 8 {
        '8'
    } else {
        '9'
    }
}

/// The decimal digits of `n`, most significant first.
pub open spec fn spec_digits(n: nat) -> Seq<char>
    decreases n,
{
    if n < 10 {
        seq![spec_digit(n as int)]
    } else {
        spec_digits(n / 10) + seq![spec_digit((n % 10) as int)]
    }
}

/// The last `k` decimal digits of `r`, padded with leading zeros to width
/// `k`.
pub open spec fn spec_padded(r: nat, k: nat) -> Seq<char>
    decreases k,
{
    if k == 0 {
        Seq::empty()
    } else {
        spec_padded(r / 10, (k - 1) as nat) + seq![spec_digit((r % 10) as int)]
    }
}

/// How many times the factor `p` divides `n`.
pub open spec fn spec_multiplicity(p: nat, n: nat) -> nat
    decreases n,
    via spec_multiplicity_decreases
{
    if 2 <= p && 0 < n && n % p == 0 {
        1 + spec_multiplicity(p, n / p)
    } else {
        0
    }
}

#[via_fn]
proof fn spec_multiplicity_decreases(p: nat, n: nat) {
    if 2 <= p && 0 < n && n % p == 0 {
        lemma_div_is_strictly_smaller(n as int, p as int);
    }
}

/// What remains of `n` once every factor `p` is divided out.
pub open spec fn spec_strip(p: nat, n: nat) -> nat
    decreases n,
    via spec_strip_decreases
{
    if 2 <= p && 0 < n && n % p == 0 {
        spec_strip(p, n / p)
    } else {
        n
    }
}

#[via_fn]
proof fn spec_strip_decreases(p: nat, n: nat) {
    if 2 <= p && 0 < n && n % p == 0 {
        lemma_div_is_strictly_smaller(n as int, p as int);
    }
}

/// The power of ten with exponent `k`.
pub open spec fn spec_pow10(k: nat) -> nat
    decreases k,
{
    if k == 0 {
        1
    } else {
        10 * spec_pow10((k - 1) as nat)
    }
}

/// The text of the nonnegative, fully reduced rational `n / d`: a
/// terminating decimal expansion when `d` divides a power of ten no higher
/// than the machine word allows, else the fraction written with a slash.
pub open spec fn spec_pos_text(n: nat, d: nat) -> Seq<char> {
    let a = spec_multiplicity(2, d);
    let d2 = spec_strip(2, d);
    let b = spec_multiplicity(5, d2);
    let rest = spec_strip(5, d2);
    let k = if a >= b {
        a
    } else {
        b
    };
    let e = spec_pow10(k) / d;
    if rest == 1 && k <= 38 && 0 < e && n <= u128::MAX as nat / e {
        let m = n * e;
        if k == 0 {
            spec_digits(m)
        } else {
            spec_digits(m / spec_pow10(k)) + "."@ + spec_padded(m % spec_pow10(k), k)
        }
    } else {
        spec_digits(n) + "/"@ + spec_digits(d)
    }
}

/// The text of the rational `v`: a sign when negative, then the reduced
/// magnitude.
pub open spec fn spec_rat_text(v: (int, int)) -> Seq<char> {
    let n = (if v.0 < 0 {
        -v.0
    } else {
        v.0
    }) as nat;
    let d = v.1 as nat;
    let g = spec_gcd(n, d);
    let text = spec_pos_text(n / g, d / g);
    if v.0 < 0 {
        "-"@ + text
    } else {
        text
    }
}

/// The text a rendered measurement carries: the magnitude, a space, the
/// unit's symbol.
pub open spec fn spec_display(v: (int, int), symbol: Seq<char>) -> Seq<char> {
    spec_rat_text(v) + " "@ + symbol
}

fn gcd(a: u128, b: u128) -> (g: u128)
    ensures
        g == spec_gcd(a as nat, b as nat),
{
    let mut x = a;
    let mut y = b;
    while y != 0
        invariant
            spec_gcd(x as nat, y as nat) == spec_gcd(a as nat, b as nat),
        decreases y,
    {
        let r = x % y;
        x = y;
        y = r;
    }
    x
}

fn digit_str(d: u128) -> (s: &'static str)
    requires
        d < 10,
    ensures
        s@ == seq![spec_digit(d as int)],
{
    proof {
        reveal_strlit("0");
        reveal_strlit("1");
        reveal_strlit("2");
        reveal_strlit("3");
        reveal_strlit("4");
        reveal_strlit("5");
        reveal_strlit("6");
        reveal_strlit("7");
        reveal_strlit("8");
        reveal_strlit("9");
    }
    let s = match d {
        0 => "0",
        1 => "1",
        2 => "2",
        3 => "3",
        4 => "4",
        5 => "5",
        6 => "6",
        7 => "7",
        8 => "8",
        _ => "9",
    };
    proof {
        assert(s@ =~= seq![spec_digit(d as int)]);
    }
    s
}

fn digits(n: u128) -> (s: String)
    ensures
        s@ == spec_digits(n as nat),
    decreases n,
{
    if n < 10 {
        String::from_str(digit_str(n))
    } else {
        proof {
            lemma_div_is_strictly_smaller(n as int, 10);
        }
        let s = digits(n / 10);
        s.concat(digit_str(n % 10))
    }
}

fn padded(r: u128, k: u128) -> (s: String)
    ensures
        s@ == spec_padded(r as nat, k as nat),
    decreases k,
{
    if k == 0 {
        String::new()
    } else {
        let s = padded(r / 10, k - 1);
        s.concat(digit_str(r % 10))
    }
}

fn pow10(k: u128) -> (p: u128)
    requires
        k <= 38,
    ensures
        p == spec_pow10(k as nat),
        p >= 1,
{
    proof {
        lemma_pow10_bound(k as nat);
    }
    let mut i: u128 = 0;
    let mut p: u128 = 1;
    while i < k
        invariant
            i <= k <= 38,
            p == spec_pow10(i as nat),
        decreases k - i,
    {
        proof {
            lemma_pow10_bound(i as nat);
            lemma_pow10_mono((i + 1) as nat, k as nat);
            lemma_pow10_bound(k as nat);
        }
        p = p * 10;
        i = i + 1;
    }
    proof {
        lemma_pow10_pos(i as nat);
    }
    p
}

/// Powers of ten are positive.
proof fn lemma_pow10_pos(k: nat)
    ensures
        spec_pow10(k) >= 1,
    decreases k,
{
    if k > 0 {
        lemma_pow10_pos((k - 1) as nat);
    }
}

/// Powers of ten grow with the exponent.
proof fn lemma_pow10_mono(i: nat, j: nat)
    requires
        i <= j,
    ensures
        spec_pow10(i) <= spec_pow10(j),
    decreases j,
{
    lemma_pow10_pos(i);
    if i < j {
        lemma_pow10_mono(i, (j - 1) as nat);
    }
}

/// Up to exponent 38, a power of ten fits the machine word.
proof fn lemma_pow10_bound(k: nat)
    requires
        k <= 38,
    ensures
        spec_pow10(k) <= u128::MAX as nat / 3,
{
    assert(spec_pow10(38) == 100_000_000_000_000_000_000_000_000_000_000_000_000) by {
        reveal_with_fuel(spec_pow10, 40);
    }
    lemma_pow10_mono(k, 38);
}

fn pos_text(n: u128, d: u128) -> (s: String)
    requires
        d > 0,
    ensures
        s@ == spec_pos_text(n as nat, d as nat),
{
    let (a, d2) = strip_factor(2, d);
    let (b, rest) = strip_factor(5, d2);
    let k = if a >= b {
        a
    } else {
        b
    };
    if rest == 1 && k <= 38 {
        let e10 = pow10(k);
        let e = e10 / d;
        if e > 0 && n <= u128::MAX / e {
            proof {
                lemma_fundamental_div_mod(u128::MAX as int, e as int);
                assert(n as int * e as int <= (u128::MAX as int / e as int) * e as int) by (
                nonlinear_arith)
                    requires
                        n as int <= u128::MAX as int / e as int,
                        e > 0,
                ;
                assert((u128::MAX as int / e as int) * e as int <= u128::MAX as int);
            }
            let m = n * e;
            if k == 0 {
                digits(m)
            } else {
                let ip = digits(m / e10);
                let joined = ip.concat(".");
                let fp = padded(m % e10, k);
                let s = joined.concat(fp.as_str());
                proof {
                    assert(s@ =~= spec_pos_text(n as nat, d as nat));
                }
                s
            }
        } else {
            fraction_text(n, d)
        }
    } else {
        fraction_text(n, d)
    }
}

fn fraction_text(n: u128, d: u128) -> (s: String)
    ensures
        s@ == spec_digits(n as nat) + "/"@ + spec_digits(d as nat),
{
    let nd = digits(n);
    let joined = nd.concat("/");
    let dd = digits(d);
    let s = joined.concat(dd.as_str());
    proof {
        assert(s@ =~= spec_digits(n as nat) + "/"@ + spec_digits(d as nat));
    }
    s
}

fn strip_factor(p: u128, x: u128) -> (r: (u128, u128))
    requires
        p >= 2,
        x > 0,
    ensures
        r.0 as nat == spec_multiplicity(p as nat, x as nat),
        r.1 as nat == spec_strip(p as nat, x as nat),
        r.1 > 0,
    decreases x,
{
    let mut c: u128 = 0;
    let mut y = x;
    while y % p == 0
        invariant
            p >= 2,
            y > 0,
            c + y <= x,
            spec_multiplicity(p as nat, x as nat) == c + spec_multiplicity(p as nat, y as nat),
            spec_strip(p as nat, x as nat) == spec_strip(p as nat, y as nat),
        decreases y,
    {
        proof {
            if y < p {
                vstd::arithmetic::div_mod::lemma_small_mod(y as nat, p as nat);
            }
            lemma_div_is_strictly_smaller(y as int, p as int);
            lemma_div_non_zero(y as int, p as int);
        }
        y = y / p;
        c = c + 1;
    }
    (c, y)
}

/// Renders the rational `v` as text: its sign, then its fully reduced
/// magnitude as an exact decimal or a fraction.
pub fn rat_text(v: Rat) -> (s: String)
    requires
        v.wf(),
    ensures
        s@ == spec_rat_text(v@),
{
    let neg = v.num < 0;
    let n: u128 = if neg {
        (-v.num) as u128
    } else {
        v.num as u128
    };
    let d: u128 = v.den as u128;
    proof {
        lemma_gcd_pos(n as nat, d as nat);
        lemma_gcd_le(n as nat, d as nat);
    }
    let g = gcd(n, d);
    proof {
        lemma_div_non_zero(d as int, g as int);
    }
    let text = pos_text(n / g, d / g);
    if neg {
        let sign = String::from_str("-");
        sign.concat(text.as_str())
    } else {
        text
    }
}

impl<U: MeasureUnit> Measurement<U> {
    /// Renders this measurement as `"<magnitude> <symbol>"`, using the
    /// symbol of this measurement's own unit — for an alias unit, the
    /// alias's symbol, not the underlying unit's.
    pub fn display(&self) -> (s: String)
        requires
            self.wf(),
        ensures
            s@ == spec_display(self@, U::spec_symbol()),
    {
        let t = rat_text(self.value());
        let joined = t.concat(" ");
        let sym = U::symbol();
        let s = joined.concat(sym.as_str());
        proof {
            assert(s@ =~= spec_display(self@, U::spec_symbol()));
        }
        s
    }
}

} // verus!
