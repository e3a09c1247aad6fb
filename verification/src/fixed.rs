//! Signed 16.16 fixed-point scalars.
//!
//! A scalar value `v` stands for the real number `v / FX_ONE`. All division
//! used by this library rounds toward zero (like hardware float-to-int
//! conversion), and results that leave the representable working range are
//! saturated at `FX_MAX`, so every operation is total and exactly specified.

use vstd::prelude::*;

verus! {

use vstd::arithmetic::div_mod::lemma_div_multiples_vanish;
use vstd::arithmetic::div_mod::lemma_div_is_ordered;
use vstd::arithmetic::div_mod::lemma_div_pos_is_pos;

/// One whole unit: the fixed-point scale factor 2^16.
pub const FX_ONE: i64 = 65536;

/// Largest magnitude a matrix entry or scalar operand may take: 2^30 units,
/// i.e. 16384.0 in real terms. Keeping operands inside this range lets a
/// four-term dot product of two entries be computed in `i64` with no
/// overflow.
pub const FX_MAX: i64 = 0x4000_0000;

/// The mathematical values of a buffer of fixed-point scalars.
pub open spec fn to_int_seq(s: Seq<i64>) -> Seq<int> {
    s.map_values(|x: i64| x as int)
}

/// Magnitude of `x`.
pub open spec fn abs_val(x: int) -> int {
    if x < 0 {
        -x
    } else {
        x
    }
}

/// Quotient of `a` by `b`, rounded toward zero; 0 when `b` is 0.
///
/// Rounding toward zero matches what the hardware does when a real-valued
/// intermediate is brought back to a representable scalar, and making the
/// zero-divisor case total keeps degenerate configurations (like equal near
/// and far planes) well-defined rather than faults.
pub open spec fn div_tz(a: int, b: int) -> int {
    if b == 0 {
        0
    } else {
        let q = abs_val(a) / abs_val(b);
        if (a < 0) != (b < 0) {
            -q
        } else {
            q
        }
    }
}

/// Clamp `v` into the representable working range `[-FX_MAX, FX_MAX]`.
pub open spec fn sat_fx(v: int) -> int {
    if v > FX_MAX {
        FX_MAX as int
    } else if v < -FX_MAX {
        -FX_MAX as int
    } else {
        v
    }
}

/// `r` is the integer square root of `v`.
pub open spec fn is_sqrt_floor(v: int, r: int) -> bool {
    &&& 0 <= r
    &&& r * r <= v
    &&& v < (r + 1) * (r + 1)
}

/// The integer square root of `v` (meaningful for `v >= 0`).
pub open spec fn sqrt_floor(v: int) -> int {
    choose|r: int| is_sqrt_floor(v, r)
}

/// Any two integer square roots of the same value coincide, so `sqrt_floor`
/// names the root exactly once a witness is known.
pub proof fn lemma_sqrt_floor_unique(v: int, r: int)
    requires
        is_sqrt_floor(v, r),
    ensures
        sqrt_floor(v) == r,
{
    let rc = sqrt_floor(v);
    assert(is_sqrt_floor(v, rc)) by {
        assert(exists|x: int| is_sqrt_floor(v, x)) by {
            assert(is_sqrt_floor(v, r));
        }
    }
    if rc < r {
        assert((rc + 1) * (rc + 1) <= r * r) by (nonlinear_arith)
            requires
                0 <= rc,
                rc + 1 <= r,
        ;
    }
    if r < rc {
        assert((r + 1) * (r + 1) <= rc * rc) by (nonlinear_arith)
            requires
                0 <= r,
                r + 1 <= rc,
        ;
    }
}

/// Magnitudes multiply: a bound on each factor bounds the product.
pub proof fn lemma_abs_mul_bound(a: int, b: int, ba: int, bb: int)
    ensures
        abs_val(a * b) == abs_val(a) * abs_val(b),
        abs_val(a) <= ba && abs_val(b) <= bb ==> abs_val(a * b) <= ba * bb,
{
    assert(abs_val(a * b) == abs_val(a) * abs_val(b)) by (nonlinear_arith);
    if abs_val(a) <= ba && abs_val(b) <= bb {
        assert(abs_val(a) * abs_val(b) <= ba * bb) by (nonlinear_arith)
            requires
                0 <= abs_val(a) <= ba,
                0 <= abs_val(b) <= bb,
        ;
    }
}

/// Rounding toward zero never enlarges the quotient's magnitude bound:
/// if `abs_val(a) <= c * abs_val(b)` then `abs_val(div_tz(a, b)) <= c`.
pub proof fn lemma_div_tz_bound(a: int, b: int, c: int)
    requires
        0 <= c,
        abs_val(a) <= c * abs_val(b),
    ensures
        abs_val(div_tz(a, b)) <= c,
{
    if b != 0 {
        assert(c * abs_val(b) == abs_val(b) * c) by (nonlinear_arith);
        lemma_div_multiples_vanish(c, abs_val(b));
        assert((abs_val(b) * c) / abs_val(b) == c);
        lemma_div_is_ordered(abs_val(a), abs_val(b) * c, abs_val(b));
        lemma_div_pos_is_pos(abs_val(a), abs_val(b));
        assert(abs_val(a) / abs_val(b) <= c);
    }
}

/// Multiplying by a unit and dividing it back out is the identity.
pub proof fn lemma_div_tz_exact(k: int, d: int)
    requires
        d > 0,
    ensures
        div_tz(d * k, d) == k,
{
    if k < 0 {
        assert(abs_val(d * k) == d * (-k)) by (nonlinear_arith)
            requires
                d > 0,
                k < 0,
        ;
        lemma_div_multiples_vanish(-k, d);
        assert(d * k < 0) by (nonlinear_arith)
            requires
                d > 0,
                k < 0,
        ;
    } else {
        assert(abs_val(d * k) == d * k) by (nonlinear_arith)
            requires
                d > 0,
                k >= 0,
        ;
        lemma_div_multiples_vanish(k, d);
        assert(d * k >= 0) by (nonlinear_arith)
            requires
                d > 0,
                k >= 0,
        ;
    }
}

/// Exact `i64` product, with the overflow argument made once here.
pub fn mul_i64(a: i64, b: i64) -> (r: i64)
    requires
        abs_val(a as int) * abs_val(b as int) <= i64::MAX,
    ensures
        r == a * b,
{
    proof {
        lemma_abs_mul_bound(a as int, b as int, abs_val(a as int), abs_val(b as int));
    }
    a * b
}

/// Quotient rounded toward zero, computed by unsigned division on the
/// magnitudes so the executable result matches `div_tz` exactly.
pub fn div_round_to_zero(a: i64, b: i64) -> (r: i64)
    requires
        a > i64::MIN,
        b > i64::MIN,
    ensures
        r == div_tz(a as int, b as int),
{
    if b == 0 {
        return 0;
    }
    let au: u64 = if a < 0 {
        (-a) as u64
    } else {
        a as u64
    };
    let bu: u64 = if b < 0 {
        (-b) as u64
    } else {
        b as u64
    };
    let q: u64 = au / bu;
    proof {
        assert(au == abs_val(a as int));
        assert(bu == abs_val(b as int));
        assert(q <= au) by {
            vstd::arithmetic::div_mod::lemma_div_nonincreasing(au as int, bu as int);
        }
    }
    if (a < 0) != (b < 0) {
        -(q as i64)
    } else {
        q as i64
    }
}

/// Integer square root by bisection.
pub fn isqrt64(v: u64) -> (r: u64)
    requires
        v < 0x4_0000_0000_0000,
    ensures
        is_sqrt_floor(v as int, r as int),
        r == sqrt_floor(v as int),
{
    let mut lo: u64 = 0;
    let mut hi: u64 = 0x200_0000;
    proof {
        assert((hi as int) * (hi as int) == 0x4_0000_0000_0000);
    }
    while lo + 1 < hi
        invariant
            lo < hi,
            hi <= 0x200_0000,
            (lo as int) * (lo as int) <= v as int,
            (v as int) < (hi as int) * (hi as int),
        decreases hi - lo,
    {
        let mid: u64 = lo + (hi - lo) / 2;
        proof {
            assert(lo < mid < hi);
            assert((mid as int) * (mid as int) <= 0x4_0000_0000_0000) by (nonlinear_arith)
                requires
                    0 <= mid <= 0x200_0000,
            ;
        }
        if mid * mid <= v {
            lo = mid;
        } else {
            hi = mid;
        }
    }
    proof {
        assert(hi == lo + 1);
        lemma_sqrt_floor_unique(v as int, lo as int);
    }
    lo
}

} // verus!
