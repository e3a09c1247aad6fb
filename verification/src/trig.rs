//! Sine and cosine on 16.16 fixed-point radians.
//!
//! The library needs trigonometry in two places: the radial ripple of the
//! height field and the camera's rotation matrices. Both are computed here
//! with a closed-form rational approximation (Bhaskara I's) evaluated in
//! exact integer arithmetic, so the result of every call is pinned by its
//! contract: on `[0, pi]`,
//!
//! ```text
//! sin(x) ~= 16 x (pi - x) / (5 pi^2 - 4 x (pi - x))
//! ```
//!
//! extended to the whole line by periodicity and odd symmetry. The
//! approximation is exact at 0, pi/2 and pi, and within about 0.2% of the
//! real sine in between — ample for shading a rippling surface.

use vstd::prelude::*;

verus! {

use crate::fixed::FX_ONE;
use crate::fixed::div_tz;

use vstd::arithmetic::div_mod::lemma_div_is_ordered;
use vstd::arithmetic::div_mod::lemma_div_multiples_vanish;
use vstd::arithmetic::div_mod::lemma_div_pos_is_pos;
use vstd::arithmetic::div_mod::lemma_fundamental_div_mod;
use vstd::arithmetic::div_mod::lemma_mod_division_less_than_divisor;
use vstd::arithmetic::div_mod::lemma_small_mod;

/// Half a turn, pi, in 16.16 units (chosen even so that a quarter turn is
/// also representable exactly).
pub const PI_UNITS: i64 = 205888;

/// A full turn, 2 pi, in 16.16 units.
pub const TWO_PI_UNITS: i64 = 411776;

/// A quarter turn, pi / 2, in 16.16 units.
pub const HALF_PI_UNITS: i64 = 102944;

/// Largest angle magnitude (in units) the executable trigonometry accepts:
/// 2^40 units is over sixteen million radians, far beyond any rotation a
/// caller animates, and keeps the argument reduction loop's arithmetic
/// trivially in range.
pub const ANGLE_LIMIT: i64 = 0x100_0000_0000;

/// Bhaskara I's rational sine on the half period `0 <= x <= PI_UNITS`,
/// in units of `FX_ONE`.
pub open spec fn sin_half_spec(x: int) -> int {
    let p = x * (PI_UNITS - x);
    div_tz(16 * p * FX_ONE, 5 * PI_UNITS * PI_UNITS - 4 * p)
}

/// Sine of any angle, by Euclidean reduction into `[0, 2 pi)` and odd
/// symmetry on the second half period.
pub open spec fn sin_spec(x: int) -> int {
    let m = x % (TWO_PI_UNITS as int);
    if m <= PI_UNITS {
        sin_half_spec(m)
    } else {
        -sin_half_spec(m - PI_UNITS)
    }
}

/// Cosine as the quarter-turn phase shift of the sine.
pub open spec fn cos_spec(x: int) -> int {
    sin_spec(x + HALF_PI_UNITS)
}

/// The half-period sine is bounded by one unit and nonnegative.
proof fn lemma_sin_half_bounds(x: int)
    requires
        0 <= x <= PI_UNITS,
    ensures
        0 <= sin_half_spec(x) <= FX_ONE,
{
    let p = x * (PI_UNITS - x);
    let num = 16 * p * FX_ONE;
    let den = 5 * PI_UNITS * PI_UNITS - 4 * p;
    assert(0 <= p && 4 * p <= PI_UNITS * PI_UNITS) by (nonlinear_arith)
        requires
            0 <= x <= PI_UNITS,
            p == x * (PI_UNITS - x),
    ;
    assert(den >= 4 * PI_UNITS * PI_UNITS);
    assert(num >= 0);
    assert(num <= FX_ONE * den) by (nonlinear_arith)
        requires
            0 <= p,
            4 * p <= PI_UNITS * PI_UNITS,
            num == 16 * p * FX_ONE,
            den == 5 * PI_UNITS * PI_UNITS - 4 * p,
    ;
    lemma_div_pos_is_pos(num, den);
    lemma_div_multiples_vanish(FX_ONE as int, den);
    assert(den * FX_ONE == FX_ONE * den) by (nonlinear_arith);
    lemma_div_is_ordered(num, den * FX_ONE, den);
    assert(num / den <= FX_ONE);
    assert(sin_half_spec(x) == num / den);
}

/// Executable half-period sine: exactly `sin_half_spec`.
fn sin_half_units(x: i64) -> (r: i64)
    requires
        0 <= x <= PI_UNITS,
    ensures
        r == sin_half_spec(x as int),
        0 <= r <= FX_ONE,
{
    proof {
        assert(0 <= x * (PI_UNITS - x) && 4 * (x * (PI_UNITS - x)) <= PI_UNITS * PI_UNITS)
            by (nonlinear_arith)
            requires
                0 <= x <= PI_UNITS,
        ;
    }
    let p: i64 = x * (PI_UNITS - x);
    let num: i64 = 16 * p * FX_ONE;
    let den: i64 = 5 * PI_UNITS * PI_UNITS - 4 * p;
    let q: u64 = (num as u64) / (den as u64);
    proof {
        lemma_sin_half_bounds(x as int);
        assert(q == div_tz(num as int, den as int));
    }
    q as i64
}

/// Executable sine of a 16.16 fixed-point angle in radians.
///
/// The result equals `sin_spec` exactly and never exceeds one unit in
/// magnitude.
pub fn fx_sin(x: i64) -> (r: i64)
    requires
        -(ANGLE_LIMIT + PI_UNITS) <= x <= ANGLE_LIMIT + PI_UNITS,
    ensures
        r == sin_spec(x as int),
        -FX_ONE <= r <= FX_ONE,
{
    let ghost target = (x as int) % (TWO_PI_UNITS as int);
    let mut m: i64 = x;
    if m < 0 {
        // lift above zero by a whole number of turns, which leaves the
        // reduced angle unchanged
        let turns: i64 = (((-m) as u64) / (TWO_PI_UNITS as u64)) as i64 + 1;
        proof {
            lemma_fundamental_div_mod(-m as int, TWO_PI_UNITS as int);
            lemma_mod_division_less_than_divisor(-m as int, TWO_PI_UNITS as int);
            vstd::arithmetic::div_mod::lemma_div_nonincreasing(
                -m as int,
                TWO_PI_UNITS as int,
            );
            vstd::arithmetic::div_mod::lemma_mod_multiples_vanish(
                turns as int,
                m as int,
                TWO_PI_UNITS as int,
            );
            assert((turns as int) * (TWO_PI_UNITS as int) == (TWO_PI_UNITS as int) * (
            turns as int)) by (nonlinear_arith);
        }
        m = m + turns * TWO_PI_UNITS;
    }
    if m >= TWO_PI_UNITS {
        // drop the whole turns
        let q: i64 = ((m as u64) / (TWO_PI_UNITS as u64)) as i64;
        proof {
            lemma_fundamental_div_mod(m as int, TWO_PI_UNITS as int);
            lemma_mod_division_less_than_divisor(m as int, TWO_PI_UNITS as int);
            vstd::arithmetic::div_mod::lemma_div_nonincreasing(m as int, TWO_PI_UNITS as int);
            assert((q as int) * (TWO_PI_UNITS as int) == (TWO_PI_UNITS as int) * (q as int))
                by (nonlinear_arith);
        }
        m = m - q * TWO_PI_UNITS;
    }
    proof {
        lemma_small_mod(m as nat, TWO_PI_UNITS as nat);
        assert(m == target);
    }
    if m <= PI_UNITS {
        sin_half_units(m)
    } else {
        -sin_half_units(m - PI_UNITS)
    }
}

/// Executable cosine of a 16.16 fixed-point angle in radians.
pub fn fx_cos(x: i64) -> (r: i64)
    requires
        -ANGLE_LIMIT <= x <= ANGLE_LIMIT,
    ensures
        r == cos_spec(x as int),
        -FX_ONE <= r <= FX_ONE,
{
    fx_sin(x + HALF_PI_UNITS)
}

} // verus!
