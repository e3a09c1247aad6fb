//! 4x4 homogeneous transform matrices in 16.16 fixed point.
//!
//! A `Transform` is an immutable row-major list of sixteen scalars, produced
//! only by the primitive constructors and by composition. Composition follows
//! the convention `result = A * B` with `result[row, col]` the dot product of
//! `A`'s row and `B`'s column; the transform to be applied first is the
//! leftmost operand of the composition that follows it.

use vstd::prelude::*;

verus! {

use crate::fixed::FX_MAX;
use crate::fixed::FX_ONE;
use crate::fixed::abs_val;
use crate::fixed::div_tz;
use crate::fixed::div_round_to_zero;
use crate::fixed::lemma_abs_mul_bound;
use crate::fixed::lemma_div_tz_exact;
use crate::fixed::mul_i64;
use crate::fixed::sat_fx;


/// An opaque 4x4 matrix: sixteen 16.16 fixed-point values in row-major
/// order. Never mutated in place.
#[derive(Debug)]
pub struct Transform {
    m: Vec<i64>,
}

impl View for Transform {
    type V = Seq<int>;

    closed spec fn view(&self) -> Seq<int> {
        self.m@.map_values(|x: i64| x as int)
    }
}

/// A well-formed transform: sixteen entries, each within the representable
/// working range. Every constructor establishes this and composition
/// preserves it.
pub open spec fn entries_bounded(s: Seq<int>) -> bool {
    &&& s.len() == 16
    &&& forall|i: int| 0 <= i < 16 ==> abs_val(#[trigger] s[i]) <= FX_MAX
}

/// The identity with its translation column set.
pub open spec fn translation_spec(tx: int, ty: int, tz: int) -> Seq<int> {
    seq![
        FX_ONE as int, 0, 0, 0,
        0, FX_ONE as int, 0, 0,
        0, 0, FX_ONE as int, 0,
        tx, ty, tz, FX_ONE as int,
    ]
}

/// A diagonal scale with the w component fixed at one unit.
pub open spec fn scaling_spec(sx: int, sy: int, sz: int) -> Seq<int> {
    seq![
        sx, 0, 0, 0,
        0, sy, 0, 0,
        0, 0, sz, 0,
        0, 0, 0, FX_ONE as int,
    ]
}

/// The identity transform: zero translation, unit scale.
pub open spec fn identity_spec() -> Seq<int> {
    translation_spec(0, 0, 0)
}

/// Row `r` of `a` dotted with column `c` of `b`, brought back to units and
/// saturated into the working range.
pub open spec fn compose_entry_spec(a: Seq<int>, b: Seq<int>, r: int, c: int) -> int {
    sat_fx(
        div_tz(
            a[4 * r] * b[c] + a[4 * r + 1] * b[4 + c] + a[4 * r + 2] * b[8 + c] + a[4 * r + 3]
                * b[12 + c],
            FX_ONE as int,
        ),
    )
}

/// The row-major product `a * b`.
pub open spec fn compose_spec(a: Seq<int>, b: Seq<int>) -> Seq<int> {
    Seq::new(16, |i: int| compose_entry_spec(a, b, i / 4, i % 4))
}

/// Four-term fixed-point dot product with saturation.
fn dot4(a0: i64, a1: i64, a2: i64, a3: i64, b0: i64, b1: i64, b2: i64, b3: i64) -> (r: i64)
    requires
        abs_val(a0 as int) <= FX_MAX,
        abs_val(a1 as int) <= FX_MAX,
        abs_val(a2 as int) <= FX_MAX,
        abs_val(a3 as int) <= FX_MAX,
        abs_val(b0 as int) <= FX_MAX,
        abs_val(b1 as int) <= FX_MAX,
        abs_val(b2 as int) <= FX_MAX,
        abs_val(b3 as int) <= FX_MAX,
    ensures
        r as int == sat_fx(
            div_tz(
                a0 * b0 + a1 * b1 + a2 * b2 + a3 * b3,
                FX_ONE as int,
            ),
        ),
        abs_val(r as int) <= FX_MAX,
{
    proof {
        lemma_abs_mul_bound(a0 as int, b0 as int, FX_MAX as int, FX_MAX as int);
        lemma_abs_mul_bound(a1 as int, b1 as int, FX_MAX as int, FX_MAX as int);
        lemma_abs_mul_bound(a2 as int, b2 as int, FX_MAX as int, FX_MAX as int);
        lemma_abs_mul_bound(a3 as int, b3 as int, FX_MAX as int, FX_MAX as int);
    }
    let p0: i64 = mul_i64(a0, b0);
    let p1: i64 = mul_i64(a1, b1);
    let p2: i64 = mul_i64(a2, b2);
    let p3: i64 = mul_i64(a3, b3);
    let s: i64 = p0 + p1 + p2 + p3;
    let q: i64 = div_round_to_zero(s, FX_ONE);
    if q > FX_MAX {
        FX_MAX
    } else if q < -FX_MAX {
        -FX_MAX
    } else {
        q
    }
}

/// Wrap sixteen prepared entries as a transform (crate-internal: every
/// public path to a `Transform` goes through a constructor with an exact
/// contract).
pub(crate) fn transform_from_entries(m: Vec<i64>) -> (t: Transform)
    requires
        m@.len() == 16,
    ensures
        t@ == crate::fixed::to_int_seq(m@),
{
    Transform { m }
}

impl Transform {
    /// Read one entry of the matrix (row-major).
    pub fn entry(&self, i: usize) -> (r: i64)
        requires
            i < self@.len(),
        ensures
            r as int == self@[i as int],
    {
        self.m[i]
    }
}

/// The identity matrix with its translation column set to `(tx, ty, tz)`.
pub fn translation_matrix(tx: i64, ty: i64, tz: i64) -> (t: Transform)
    requires
        abs_val(tx as int) <= FX_MAX,
        abs_val(ty as int) <= FX_MAX,
        abs_val(tz as int) <= FX_MAX,
    ensures
        t@ == translation_spec(tx as int, ty as int, tz as int),
        entries_bounded(t@),
{
    let mut m: Vec<i64> = Vec::new();
    m.push(FX_ONE);
    m.push(0);
    m.push(0);
    m.push(0);
    m.push(0);
    m.push(FX_ONE);
    m.push(0);
    m.push(0);
    m.push(0);
    m.push(0);
    m.push(FX_ONE);
    m.push(0);
    m.push(tx);
    m.push(ty);
    m.push(tz);
    m.push(FX_ONE);
    let t = Transform { m };
    proof {
        assert(t@ =~= translation_spec(tx as int, ty as int, tz as int));
    }
    t
}

/// A diagonal scale matrix, w component fixed at one unit.
pub fn scaling_matrix(sx: i64, sy: i64, sz: i64) -> (t: Transform)
    requires
        abs_val(sx as int) <= FX_MAX,
        abs_val(sy as int) <= FX_MAX,
        abs_val(sz as int) <= FX_MAX,
    ensures
        t@ == scaling_spec(sx as int, sy as int, sz as int),
        entries_bounded(t@),
{
    let mut m: Vec<i64> = Vec::new();
    m.push(sx);
    m.push(0);
    m.push(0);
    m.push(0);
    m.push(0);
    m.push(sy);
    m.push(0);
    m.push(0);
    m.push(0);
    m.push(0);
    m.push(sz);
    m.push(0);
    m.push(0);
    m.push(0);
    m.push(0);
    m.push(FX_ONE);
    let t = Transform { m };
    proof {
        assert(t@ =~= scaling_spec(sx as int, sy as int, sz as int));
    }
    t
}

/// The standard 4x4 row-major matrix product `a * b`.
pub fn cross_multiply_matrix(a: &Transform, b: &Transform) -> (c: Transform)
    requires
        entries_bounded(a@),
        entries_bounded(b@),
    ensures
        c@ == compose_spec(a@, b@),
        entries_bounded(c@),
{
    proof {
        assert(a.m@.len() == 16 && b.m@.len() == 16);
        assert forall|k: int| 0 <= k < 16 implies abs_val(#[trigger] a.m@[k] as int)
            <= FX_MAX by {
            assert(a@[k] == a.m@[k] as int);
            assert(abs_val(a@[k]) <= FX_MAX);
        }
        assert forall|k: int| 0 <= k < 16 implies abs_val(#[trigger] b.m@[k] as int)
            <= FX_MAX by {
            assert(b@[k] == b.m@[k] as int);
            assert(abs_val(b@[k]) <= FX_MAX);
        }
    }
    let mut m: Vec<i64> = Vec::new();
    m.push(dot4(a.m[0], a.m[1], a.m[2], a.m[3], b.m[0], b.m[4], b.m[8], b.m[12]));
    m.push(dot4(a.m[0], a.m[1], a.m[2], a.m[3], b.m[1], b.m[5], b.m[9], b.m[13]));
    m.push(dot4(a.m[0], a.m[1], a.m[2], a.m[3], b.m[2], b.m[6], b.m[10], b.m[14]));
    m.push(dot4(a.m[0], a.m[1], a.m[2], a.m[3], b.m[3], b.m[7], b.m[11], b.m[15]));
    m.push(dot4(a.m[4], a.m[5], a.m[6], a.m[7], b.m[0], b.m[4], b.m[8], b.m[12]));
    m.push(dot4(a.m[4], a.m[5], a.m[6], a.m[7], b.m[1], b.m[5], b.m[9], b.m[13]));
    m.push(dot4(a.m[4], a.m[5], a.m[6], a.m[7], b.m[2], b.m[6], b.m[10], b.m[14]));
    m.push(dot4(a.m[4], a.m[5], a.m[6], a.m[7], b.m[3], b.m[7], b.m[11], b.m[15]));
    m.push(dot4(a.m[8], a.m[9], a.m[10], a.m[11], b.m[0], b.m[4], b.m[8], b.m[12]));
    m.push(dot4(a.m[8], a.m[9], a.m[10], a.m[11], b.m[1], b.m[5], b.m[9], b.m[13]));
    m.push(dot4(a.m[8], a.m[9], a.m[10], a.m[11], b.m[2], b.m[6], b.m[10], b.m[14]));
    m.push(dot4(a.m[8], a.m[9], a.m[10], a.m[11], b.m[3], b.m[7], b.m[11], b.m[15]));
    m.push(dot4(a.m[12], a.m[13], a.m[14], a.m[15], b.m[0], b.m[4], b.m[8], b.m[12]));
    m.push(dot4(a.m[12], a.m[13], a.m[14], a.m[15], b.m[1], b.m[5], b.m[9], b.m[13]));
    m.push(dot4(a.m[12], a.m[13], a.m[14], a.m[15], b.m[2], b.m[6], b.m[10], b.m[14]));
    m.push(dot4(a.m[12], a.m[13], a.m[14], a.m[15], b.m[3], b.m[7], b.m[11], b.m[15]));
    let c = Transform { m };
    proof {
        assert(c@ =~= compose_spec(a@, b@));
    }
    c
}

/// Law: the identity transform is neutral for composition on either side —
/// `compose(Identity, M) == M == compose(M, Identity)` for every
/// well-formed transform `M`, where `Identity` is the translation matrix
/// with zero translation (equally, the scale matrix with unit scale).
pub proof fn lemma_compose_identity(m: Seq<int>)
    requires
        entries_bounded(m),
    ensures
        compose_spec(identity_spec(), m) == m,
        compose_spec(m, identity_spec()) == m,
{
    assert forall|i: int|
        0 <= i < 16 implies #[trigger] compose_spec(identity_spec(), m)[i] == m[i]
            && compose_spec(m, identity_spec())[i] == m[i] by {
        if i == 0 {
            lemma_identity_entry_0(m);
        } else if i == 1 {
            lemma_identity_entry_1(m);
        } else if i == 2 {
            lemma_identity_entry_2(m);
        } else if i == 3 {
            lemma_identity_entry_3(m);
        } else if i == 4 {
            lemma_identity_entry_4(m);
        } else if i == 5 {
            lemma_identity_entry_5(m);
        } else if i == 6 {
            lemma_identity_entry_6(m);
        } else if i == 7 {
            lemma_identity_entry_7(m);
        } else if i == 8 {
            lemma_identity_entry_8(m);
        } else if i == 9 {
            lemma_identity_entry_9(m);
        } else if i == 10 {
            lemma_identity_entry_10(m);
        } else if i == 11 {
            lemma_identity_entry_11(m);
        } else if i == 12 {
            lemma_identity_entry_12(m);
        } else if i == 13 {
            lemma_identity_entry_13(m);
        } else if i == 14 {
            lemma_identity_entry_14(m);
        } else {
            lemma_identity_entry_15(m);
        }
    }
    assert forall|i: int|
        0 <= i < 16 implies #[trigger] compose_spec(m, identity_spec())[i] == m[i] by {
        if i == 0 {
            lemma_identity_entry_0(m);
        } else if i == 1 {
            lemma_identity_entry_1(m);
        } else if i == 2 {
            lemma_identity_entry_2(m);
        } else if i == 3 {
            lemma_identity_entry_3(m);
        } else if i == 4 {
            lemma_identity_entry_4(m);
        } else if i == 5 {
            lemma_identity_entry_5(m);
        } else if i == 6 {
            lemma_identity_entry_6(m);
        } else if i == 7 {
            lemma_identity_entry_7(m);
        } else if i == 8 {
            lemma_identity_entry_8(m);
        } else if i == 9 {
            lemma_identity_entry_9(m);
        } else if i == 10 {
            lemma_identity_entry_10(m);
        } else if i == 11 {
            lemma_identity_entry_11(m);
        } else if i == 12 {
            lemma_identity_entry_12(m);
        } else if i == 13 {
            lemma_identity_entry_13(m);
        } else if i == 14 {
            lemma_identity_entry_14(m);
        } else {
            lemma_identity_entry_15(m);
        }
    }
    assert(compose_spec(identity_spec(), m) =~= m);
    assert(compose_spec(m, identity_spec()) =~= m);
}

/// Entry 0 of the identity law.
proof fn lemma_identity_entry_0(m: Seq<int>)
    requires
        entries_bounded(m),
    ensures
        compose_spec(identity_spec(), m)[0] == m[0],
        compose_spec(m, identity_spec())[0] == m[0],
{
    lemma_div_tz_exact(m[0], FX_ONE as int);
    assert(identity_spec()[0] == FX_ONE as int);
    assert(identity_spec()[1] == 0);
    assert(identity_spec()[2] == 0);
    assert(identity_spec()[3] == 0);
    assert(identity_spec()[4] == 0);
    assert(identity_spec()[8] == 0);
    assert(identity_spec()[12] == 0);
    assert(compose_spec(identity_spec(), m)[0] == compose_entry_spec(identity_spec(), m, 0, 0));
    assert(compose_spec(m, identity_spec())[0] == compose_entry_spec(m, identity_spec(), 0, 0));
    assert(compose_entry_spec(identity_spec(), m, 0, 0) == sat_fx(
        div_tz(
            identity_spec()[0] * m[0] + identity_spec()[1] * m[4] + identity_spec()[2] * m[8] + identity_spec()[3] * m[12],
            FX_ONE as int,
        ),
    ));
    assert(identity_spec()[0] * m[0] + identity_spec()[1] * m[4] + identity_spec()[2] * m[8] + identity_spec()[3] * m[12] == FX_ONE * m[0]) by (nonlinear_arith)
        requires
                identity_spec()[0] == FX_ONE as int,
                identity_spec()[1] == 0,
                identity_spec()[2] == 0,
                identity_spec()[3] == 0,
    ;
    assert(compose_entry_spec(m, identity_spec(), 0, 0) == sat_fx(
        div_tz(
            m[0] * identity_spec()[0] + m[1] * identity_spec()[4] + m[2] * identity_spec()[8] + m[3] * identity_spec()[12],
            FX_ONE as int,
        ),
    ));
    assert(m[0] * identity_spec()[0] + m[1] * identity_spec()[4] + m[2] * identity_spec()[8] + m[3] * identity_spec()[12] == FX_ONE * m[0]) by (nonlinear_arith)
        requires
                identity_spec()[0] == FX_ONE as int,
                identity_spec()[4] == 0,
                identity_spec()[8] == 0,
                identity_spec()[12] == 0,
    ;
    assert(div_tz(FX_ONE * m[0], FX_ONE as int) == m[0]);
    assert(sat_fx(m[0]) == m[0]);
}

/// Entry 1 of the identity law.
proof fn lemma_identity_entry_1(m: Seq<int>)
    requires
        entries_bounded(m),
    ensures
        compose_spec(identity_spec(), m)[1] == m[1],
        compose_spec(m, identity_spec())[1] == m[1],
{
    lemma_div_tz_exact(m[1], FX_ONE as int);
    assert(identity_spec()[0] == FX_ONE as int);
    assert(identity_spec()[1] == 0);
    assert(identity_spec()[2] == 0);
    assert(identity_spec()[3] == 0);
    assert(identity_spec()[5] == FX_ONE as int);
    assert(identity_spec()[9] == 0);
    assert(identity_spec()[13] == 0);
    assert(compose_spec(identity_spec(), m)[1] == compose_entry_spec(identity_spec(), m, 0, 1));
    assert(compose_spec(m, identity_spec())[1] == compose_entry_spec(m, identity_spec(), 0, 1));
    assert(compose_entry_spec(identity_spec(), m, 0, 1) == sat_fx(
        div_tz(
            identity_spec()[0] * m[1] + identity_spec()[1] * m[5] + identity_spec()[2] * m[9] + identity_spec()[3] * m[13],
            FX_ONE as int,
        ),
    ));
    assert(identity_spec()[0] * m[1] + identity_spec()[1] * m[5] + identity_spec()[2] * m[9] + identity_spec()[3] * m[13] == FX_ONE * m[1]) by (nonlinear_arith)
        requires
                identity_spec()[0] == FX_ONE as int,
                identity_spec()[1] == 0,
                identity_spec()[2] == 0,
                identity_spec()[3] == 0,
    ;
    assert(compose_entry_spec(m, identity_spec(), 0, 1) == sat_fx(
        div_tz(
            m[0] * identity_spec()[1] + m[1] * identity_spec()[5] + m[2] * identity_spec()[9] + m[3] * identity_spec()[13],
            FX_ONE as int,
        ),
    ));
    assert(m[0] * identity_spec()[1] + m[1] * identity_spec()[5] + m[2] * identity_spec()[9] + m[3] * identity_spec()[13] == FX_ONE * m[1]) by (nonlinear_arith)
        requires
                identity_spec()[1] == 0,
                identity_spec()[5] == FX_ONE as int,
                identity_spec()[9] == 0,
                identity_spec()[13] == 0,
    ;
    assert(div_tz(FX_ONE * m[1], FX_ONE as int) == m[1]);
    assert(sat_fx(m[1]) == m[1]);
}

/// Entry 2 of the identity law.
proof fn lemma_identity_entry_2(m: Seq<int>)
    requires
        entries_bounded(m),
    ensures
        compose_spec(identity_spec(), m)[2] == m[2],
        compose_spec(m, identity_spec())[2] == m[2],
{
    lemma_div_tz_exact(m[2], FX_ONE as int);
    assert(identity_spec()[0] == FX_ONE as int);
    assert(identity_spec()[1] == 0);
    assert(identity_spec()[2] == 0);
    assert(identity_spec()[3] == 0);
    assert(identity_spec()[6] == 0);
    assert(identity_spec()[10] == FX_ONE as int);
    assert(identity_spec()[14] == 0);
    assert(compose_spec(identity_spec(), m)[2] == compose_entry_spec(identity_spec(), m, 0, 2));
    assert(compose_spec(m, identity_spec())[2] == compose_entry_spec(m, identity_spec(), 0, 2));
    assert(compose_entry_spec(identity_spec(), m, 0, 2) == sat_fx(
        div_tz(
            identity_spec()[0] * m[2] + identity_spec()[1] * m[6] + identity_spec()[2] * m[10] + identity_spec()[3] * m[14],
            FX_ONE as int,
        ),
    ));
    assert(identity_spec()[0] * m[2] + identity_spec()[1] * m[6] + identity_spec()[2] * m[10] + identity_spec()[3] * m[14] == FX_ONE * m[2]) by (nonlinear_arith)
        requires
                identity_spec()[0] == FX_ONE as int,
                identity_spec()[1] == 0,
                identity_spec()[2] == 0,
                identity_spec()[3] == 0,
    ;
    assert(compose_entry_spec(m, identity_spec(), 0, 2) == sat_fx(
        div_tz(
            m[0] * identity_spec()[2] + m[1] * identity_spec()[6] + m[2] * identity_spec()[10] + m[3] * identity_spec()[14],
            FX_ONE as int,
        ),
    ));
    assert(m[0] * identity_spec()[2] + m[1] * identity_spec()[6] + m[2] * identity_spec()[10] + m[3] * identity_spec()[14] == FX_ONE * m[2]) by (nonlinear_arith)
        requires
                identity_spec()[2] == 0,
                identity_spec()[6] == 0,
                identity_spec()[10] == FX_ONE as int,
                identity_spec()[14] == 0,
    ;
    assert(div_tz(FX_ONE * m[2], FX_ONE as int) == m[2]);
    assert(sat_fx(m[2]) == m[2]);
}

/// Entry 3 of the identity law.
proof fn lemma_identity_entry_3(m: Seq<int>)
    requires
        entries_bounded(m),
    ensures
        compose_spec(identity_spec(), m)[3] == m[3],
        compose_spec(m, identity_spec())[3] == m[3],
{
    lemma_div_tz_exact(m[3], FX_ONE as int);
    assert(identity_spec()[0] == FX_ONE as int);
    assert(identity_spec()[1] == 0);
    assert(identity_spec()[2] == 0);
    assert(identity_spec()[3] == 0);
    assert(identity_spec()[7] == 0);
    assert(identity_spec()[11] == 0);
    assert(identity_spec()[15] == FX_ONE as int);
    assert(compose_spec(identity_spec(), m)[3] == compose_entry_spec(identity_spec(), m, 0, 3));
    assert(compose_spec(m, identity_spec())[3] == compose_entry_spec(m, identity_spec(), 0, 3));
    assert(compose_entry_spec(identity_spec(), m, 0, 3) == sat_fx(
        div_tz(
            identity_spec()[0] * m[3] + identity_spec()[1] * m[7] + identity_spec()[2] * m[11] + identity_spec()[3] * m[15],
            FX_ONE as int,
        ),
    ));
    assert(identity_spec()[0] * m[3] + identity_spec()[1] * m[7] + identity_spec()[2] * m[11] + identity_spec()[3] * m[15] == FX_ONE * m[3]) by (nonlinear_arith)
        requires
                identity_spec()[0] == FX_ONE as int,
                identity_spec()[1] == 0,
                identity_spec()[2] == 0,
                identity_spec()[3] == 0,
    ;
    assert(compose_entry_spec(m, identity_spec(), 0, 3) == sat_fx(
        div_tz(
            m[0] * identity_spec()[3] + m[1] * identity_spec()[7] + m[2] * identity_spec()[11] + m[3] * identity_spec()[15],
            FX_ONE as int,
        ),
    ));
    assert(m[0] * identity_spec()[3] + m[1] * identity_spec()[7] + m[2] * identity_spec()[11] + m[3] * identity_spec()[15] == FX_ONE * m[3]) by (nonlinear_arith)
        requires
                identity_spec()[3] == 0,
                identity_spec()[7] == 0,
                identity_spec()[11] == 0,
                identity_spec()[15] == FX_ONE as int,
    ;
    assert(div_tz(FX_ONE * m[3], FX_ONE as int) == m[3]);
    assert(sat_fx(m[3]) == m[3]);
}

/// Entry 4 of the identity law.
proof fn lemma_identity_entry_4(m: Seq<int>)
    requires
        entries_bounded(m),
    ensures
        compose_spec(identity_spec(), m)[4] == m[4],
        compose_spec(m, identity_spec())[4] == m[4],
{
    lemma_div_tz_exact(m[4], FX_ONE as int);
    assert(identity_spec()[0] == FX_ONE as int);
    assert(identity_spec()[4] == 0);
    assert(identity_spec()[5] == FX_ONE as int);
    assert(identity_spec()[6] == 0);
    assert(identity_spec()[7] == 0);
    assert(identity_spec()[8] == 0);
    assert(identity_spec()[12] == 0);
    assert(compose_spec(identity_spec(), m)[4] == compose_entry_spec(identity_spec(), m, 1, 0));
    assert(compose_spec(m, identity_spec())[4] == compose_entry_spec(m, identity_spec(), 1, 0));
    assert(compose_entry_spec(identity_spec(), m, 1, 0) == sat_fx(
        div_tz(
            identity_spec()[4] * m[0] + identity_spec()[5] * m[4] + identity_spec()[6] * m[8] + identity_spec()[7] * m[12],
            FX_ONE as int,
        ),
    ));
    assert(identity_spec()[4] * m[0] + identity_spec()[5] * m[4] + identity_spec()[6] * m[8] + identity_spec()[7] * m[12] == FX_ONE * m[4]) by (nonlinear_arith)
        requires
                identity_spec()[4] == 0,
                identity_spec()[5] == FX_ONE as int,
                identity_spec()[6] == 0,
                identity_spec()[7] == 0,
    ;
    assert(compose_entry_spec(m, identity_spec(), 1, 0) == sat_fx(
        div_tz(
            m[4] * identity_spec()[0] + m[5] * identity_spec()[4] + m[6] * identity_spec()[8] + m[7] * identity_spec()[12],
            FX_ONE as int,
        ),
    ));
    assert(m[4] * identity_spec()[0] + m[5] * identity_spec()[4] + m[6] * identity_spec()[8] + m[7] * identity_spec()[12] == FX_ONE * m[4]) by (nonlinear_arith)
        requires
                identity_spec()[0] == FX_ONE as int,
                identity_spec()[4] == 0,
                identity_spec()[8] == 0,
                identity_spec()[12] == 0,
    ;
    assert(div_tz(FX_ONE * m[4], FX_ONE as int) == m[4]);
    assert(sat_fx(m[4]) == m[4]);
}

/// Entry 5 of the identity law.
proof fn lemma_identity_entry_5(m: Seq<int>)
    requires
        entries_bounded(m),
    ensures
        compose_spec(identity_spec(), m)[5] == m[5],
        compose_spec(m, identity_spec())[5] == m[5],
{
    lemma_div_tz_exact(m[5], FX_ONE as int);
    assert(identity_spec()[1] == 0);
    assert(identity_spec()[4] == 0);
    assert(identity_spec()[5] == FX_ONE as int);
    assert(identity_spec()[6] == 0);
    assert(identity_spec()[7] == 0);
    assert(identity_spec()[9] == 0);
    assert(identity_spec()[13] == 0);
    assert(compose_spec(identity_spec(), m)[5] == compose_entry_spec(identity_spec(), m, 1, 1));
    assert(compose_spec(m, identity_spec())[5] == compose_entry_spec(m, identity_spec(), 1, 1));
    assert(compose_entry_spec(identity_spec(), m, 1, 1) == sat_fx(
        div_tz(
            identity_spec()[4] * m[1] + identity_spec()[5] * m[5] + identity_spec()[6] * m[9] + identity_spec()[7] * m[13],
            FX_ONE as int,
        ),
    ));
    assert(identity_spec()[4] * m[1] + identity_spec()[5] * m[5] + identity_spec()[6] * m[9] + identity_spec()[7] * m[13] == FX_ONE * m[5]) by (nonlinear_arith)
        requires
                identity_spec()[4] == 0,
                identity_spec()[5] == FX_ONE as int,
                identity_spec()[6] == 0,
                identity_spec()[7] == 0,
    ;
    assert(compose_entry_spec(m, identity_spec(), 1, 1) == sat_fx(
        div_tz(
            m[4] * identity_spec()[1] + m[5] * identity_spec()[5] + m[6] * identity_spec()[9] + m[7] * identity_spec()[13],
            FX_ONE as int,
        ),
    ));
    assert(m[4] * identity_spec()[1] + m[5] * identity_spec()[5] + m[6] * identity_spec()[9] + m[7] * identity_spec()[13] == FX_ONE * m[5]) by (nonlinear_arith)
        requires
                identity_spec()[1] == 0,
                identity_spec()[5] == FX_ONE as int,
                identity_spec()[9] == 0,
                identity_spec()[13] == 0,
    ;
    assert(div_tz(FX_ONE * m[5], FX_ONE as int) == m[5]);
    assert(sat_fx(m[5]) == m[5]);
}

/// Entry 6 of the identity law.
proof fn lemma_identity_entry_6(m: Seq<int>)
    requires
        entries_bounded(m),
    ensures
        compose_spec(identity_spec(), m)[6] == m[6],
        compose_spec(m, identity_spec())[6] == m[6],
{
    lemma_div_tz_exact(m[6], FX_ONE as int);
    assert(identity_spec()[2] == 0);
    assert(identity_spec()[4] == 0);
    assert(identity_spec()[5] == FX_ONE as int);
    assert(identity_spec()[6] == 0);
    assert(identity_spec()[7] == 0);
    assert(identity_spec()[10] == FX_ONE as int);
    assert(identity_spec()[14] == 0);
    assert(compose_spec(identity_spec(), m)[6] == compose_entry_spec(identity_spec(), m, 1, 2));
    assert(compose_spec(m, identity_spec())[6] == compose_entry_spec(m, identity_spec(), 1, 2));
    assert(compose_entry_spec(identity_spec(), m, 1, 2) == sat_fx(
        div_tz(
            identity_spec()[4] * m[2] + identity_spec()[5] * m[6] + identity_spec()[6] * m[10] + identity_spec()[7] * m[14],
            FX_ONE as int,
        ),
    ));
    assert(identity_spec()[4] * m[2] + identity_spec()[5] * m[6] + identity_spec()[6] * m[10] + identity_spec()[7] * m[14] == FX_ONE * m[6]) by (nonlinear_arith)
        requires
                identity_spec()[4] == 0,
                identity_spec()[5] == FX_ONE as int,
                identity_spec()[6] == 0,
                identity_spec()[7] == 0,
    ;
    assert(compose_entry_spec(m, identity_spec(), 1, 2) == sat_fx(
        div_tz(
            m[4] * identity_spec()[2] + m[5] * identity_spec()[6] + m[6] * identity_spec()[10] + m[7] * identity_spec()[14],
            FX_ONE as int,
        ),
    ));
    assert(m[4] * identity_spec()[2] + m[5] * identity_spec()[6] + m[6] * identity_spec()[10] + m[7] * identity_spec()[14] == FX_ONE * m[6]) by (nonlinear_arith)
        requires
                identity_spec()[2] == 0,
                identity_spec()[6] == 0,
                identity_spec()[10] == FX_ONE as int,
                identity_spec()[14] == 0,
    ;
    assert(div_tz(FX_ONE * m[6], FX_ONE as int) == m[6]);
    assert(sat_fx(m[6]) == m[6]);
}

/// Entry 7 of the identity law.
proof fn lemma_identity_entry_7(m: Seq<int>)
    requires
        entries_bounded(m),
    ensures
        compose_spec(identity_spec(), m)[7] == m[7],
        compose_spec(m, identity_spec())[7] == m[7],
{
    lemma_div_tz_exact(m[7], FX_ONE as int);
    assert(identity_spec()[3] == 0);
    assert(identity_spec()[4] == 0);
    assert(identity_spec()[5] == FX_ONE as int);
    assert(identity_spec()[6] == 0);
    assert(identity_spec()[7] == 0);
    assert(identity_spec()[11] == 0);
    assert(identity_spec()[15] == FX_ONE as int);
    assert(compose_spec(identity_spec(), m)[7] == compose_entry_spec(identity_spec(), m, 1, 3));
    assert(compose_spec(m, identity_spec())[7] == compose_entry_spec(m, identity_spec(), 1, 3));
    assert(compose_entry_spec(identity_spec(), m, 1, 3) == sat_fx(
        div_tz(
            identity_spec()[4] * m[3] + identity_spec()[5] * m[7] + identity_spec()[6] * m[11] + identity_spec()[7] * m[15],
            FX_ONE as int,
        ),
    ));
    assert(identity_spec()[4] * m[3] + identity_spec()[5] * m[7] + identity_spec()[6] * m[11] + identity_spec()[7] * m[15] == FX_ONE * m[7]) by (nonlinear_arith)
        requires
                identity_spec()[4] == 0,
                identity_spec()[5] == FX_ONE as int,
                identity_spec()[6] == 0,
                identity_spec()[7] == 0,
    ;
    assert(compose_entry_spec(m, identity_spec(), 1, 3) == sat_fx(
        div_tz(
            m[4] * identity_spec()[3] + m[5] * identity_spec()[7] + m[6] * identity_spec()[11] + m[7] * identity_spec()[15],
            FX_ONE as int,
        ),
    ));
    assert(m[4] * identity_spec()[3] + m[5] * identity_spec()[7] + m[6] * identity_spec()[11] + m[7] * identity_spec()[15] == FX_ONE * m[7]) by (nonlinear_arith)
        requires
                identity_spec()[3] == 0,
                identity_spec()[7] == 0,
                identity_spec()[11] == 0,
                identity_spec()[15] == FX_ONE as int,
    ;
    assert(div_tz(FX_ONE * m[7], FX_ONE as int) == m[7]);
    assert(sat_fx(m[7]) == m[7]);
}

/// Entry 8 of the identity law.
proof fn lemma_identity_entry_8(m: Seq<int>)
    requires
        entries_bounded(m),
    ensures
        compose_spec(identity_spec(), m)[8] == m[8],
        compose_spec(m, identity_spec())[8] == m[8],
{
    lemma_div_tz_exact(m[8], FX_ONE as int);
    assert(identity_spec()[0] == FX_ONE as int);
    assert(identity_spec()[4] == 0);
    assert(identity_spec()[8] == 0);
    assert(identity_spec()[9] == 0);
    assert(identity_spec()[10] == FX_ONE as int);
    assert(identity_spec()[11] == 0);
    assert(identity_spec()[12] == 0);
    assert(compose_spec(identity_spec(), m)[8] == compose_entry_spec(identity_spec(), m, 2, 0));
    assert(compose_spec(m, identity_spec())[8] == compose_entry_spec(m, identity_spec(), 2, 0));
    assert(compose_entry_spec(identity_spec(), m, 2, 0) == sat_fx(
        div_tz(
            identity_spec()[8] * m[0] + identity_spec()[9] * m[4] + identity_spec()[10] * m[8] + identity_spec()[11] * m[12],
            FX_ONE as int,
        ),
    ));
    assert(identity_spec()[8] * m[0] + identity_spec()[9] * m[4] + identity_spec()[10] * m[8] + identity_spec()[11] * m[12] == FX_ONE * m[8]) by (nonlinear_arith)
        requires
                identity_spec()[8] == 0,
                identity_spec()[9] == 0,
                identity_spec()[10] == FX_ONE as int,
                identity_spec()[11] == 0,
    ;
    assert(compose_entry_spec(m, identity_spec(), 2, 0) == sat_fx(
        div_tz(
            m[8] * identity_spec()[0] + m[9] * identity_spec()[4] + m[10] * identity_spec()[8] + m[11] * identity_spec()[12],
            FX_ONE as int,
        ),
    ));
    assert(m[8] * identity_spec()[0] + m[9] * identity_spec()[4] + m[10] * identity_spec()[8] + m[11] * identity_spec()[12] == FX_ONE * m[8]) by (nonlinear_arith)
        requires
                identity_spec()[0] == FX_ONE as int,
                identity_spec()[4] == 0,
                identity_spec()[8] == 0,
                identity_spec()[12] == 0,
    ;
    assert(div_tz(FX_ONE * m[8], FX_ONE as int) == m[8]);
    assert(sat_fx(m[8]) == m[8]);
}

/// Entry 9 of the identity law.
proof fn lemma_identity_entry_9(m: Seq<int>)
    requires
        entries_bounded(m),
    ensures
        compose_spec(identity_spec(), m)[9] == m[9],
        compose_spec(m, identity_spec())[9] == m[9],
{
    lemma_div_tz_exact(m[9], FX_ONE as int);
    assert(identity_spec()[1] == 0);
    assert(identity_spec()[5] == FX_ONE as int);
    assert(identity_spec()[8] == 0);
    assert(identity_spec()[9] == 0);
    assert(identity_spec()[10] == FX_ONE as int);
    assert(identity_spec()[11] == 0);
    assert(identity_spec()[13] == 0);
    assert(compose_spec(identity_spec(), m)[9] == compose_entry_spec(identity_spec(), m, 2, 1));
    assert(compose_spec(m, identity_spec())[9] == compose_entry_spec(m, identity_spec(), 2, 1));
    assert(compose_entry_spec(identity_spec(), m, 2, 1) == sat_fx(
        div_tz(
            identity_spec()[8] * m[1] + identity_spec()[9] * m[5] + identity_spec()[10] * m[9] + identity_spec()[11] * m[13],
            FX_ONE as int,
        ),
    ));
    assert(identity_spec()[8] * m[1] + identity_spec()[9] * m[5] + identity_spec()[10] * m[9] + identity_spec()[11] * m[13] == FX_ONE * m[9]) by (nonlinear_arith)
        requires
                identity_spec()[8] == 0,
                identity_spec()[9] == 0,
                identity_spec()[10] == FX_ONE as int,
                identity_spec()[11] == 0,
    ;
    assert(compose_entry_spec(m, identity_spec(), 2, 1) == sat_fx(
        div_tz(
            m[8] * identity_spec()[1] + m[9] * identity_spec()[5] + m[10] * identity_spec()[9] + m[11] * identity_spec()[13],
            FX_ONE as int,
        ),
    ));
    assert(m[8] * identity_spec()[1] + m[9] * identity_spec()[5] + m[10] * identity_spec()[9] + m[11] * identity_spec()[13] == FX_ONE * m[9]) by (nonlinear_arith)
        requires
                identity_spec()[1] == 0,
                identity_spec()[5] == FX_ONE as int,
                identity_spec()[9] == 0,
                identity_spec()[13] == 0,
    ;
    assert(div_tz(FX_ONE * m[9], FX_ONE as int) == m[9]);
    assert(sat_fx(m[9]) == m[9]);
}

/// Entry 10 of the identity law.
proof fn lemma_identity_entry_10(m: Seq<int>)
    requires
        entries_bounded(m),
    ensures
        compose_spec(identity_spec(), m)[10] == m[10],
        compose_spec(m, identity_spec())[10] == m[10],
{
    lemma_div_tz_exact(m[10], FX_ONE as int);
    assert(identity_spec()[2] == 0);
    assert(identity_spec()[6] == 0);
    assert(identity_spec()[8] == 0);
    assert(identity_spec()[9] == 0);
    assert(identity_spec()[10] == FX_ONE as int);
    assert(identity_spec()[11] == 0);
    assert(identity_spec()[14] == 0);
    assert(compose_spec(identity_spec(), m)[10] == compose_entry_spec(identity_spec(), m, 2, 2));
    assert(compose_spec(m, identity_spec())[10] == compose_entry_spec(m, identity_spec(), 2, 2));
    assert(compose_entry_spec(identity_spec(), m, 2, 2) == sat_fx(
        div_tz(
            identity_spec()[8] * m[2] + identity_spec()[9] * m[6] + identity_spec()[10] * m[10] + identity_spec()[11] * m[14],
            FX_ONE as int,
        ),
    ));
    assert(identity_spec()[8] * m[2] + identity_spec()[9] * m[6] + identity_spec()[10] * m[10] + identity_spec()[11] * m[14] == FX_ONE * m[10]) by (nonlinear_arith)
        requires
                identity_spec()[8] == 0,
                identity_spec()[9] == 0,
                identity_spec()[10] == FX_ONE as int,
                identity_spec()[11] == 0,
    ;
    assert(compose_entry_spec(m, identity_spec(), 2, 2) == sat_fx(
        div_tz(
            m[8] * identity_spec()[2] + m[9] * identity_spec()[6] + m[10] * identity_spec()[10] + m[11] * identity_spec()[14],
            FX_ONE as int,
        ),
    ));
    assert(m[8] * identity_spec()[2] + m[9] * identity_spec()[6] + m[10] * identity_spec()[10] + m[11] * identity_spec()[14] == FX_ONE * m[10]) by (nonlinear_arith)
        requires
                identity_spec()[2] == 0,
                identity_spec()[6] == 0,
                identity_spec()[10] == FX_ONE as int,
                identity_spec()[14] == 0,
    ;
    assert(div_tz(FX_ONE * m[10], FX_ONE as int) == m[10]);
    assert(sat_fx(m[10]) == m[10]);
}

/// Entry 11 of the identity law.
proof fn lemma_identity_entry_11(m: Seq<int>)
    requires
        entries_bounded(m),
    ensures
        compose_spec(identity_spec(), m)[11] == m[11],
        compose_spec(m, identity_spec())[11] == m[11],
{
    lemma_div_tz_exact(m[11], FX_ONE as int);
    assert(identity_spec()[3] == 0);
    assert(identity_spec()[7] == 0);
    assert(identity_spec()[8] == 0);
    assert(identity_spec()[9] == 0);
    assert(identity_spec()[10] == FX_ONE as int);
    assert(identity_spec()[11] == 0);
    assert(identity_spec()[15] == FX_ONE as int);
    assert(compose_spec(identity_spec(), m)[11] == compose_entry_spec(identity_spec(), m, 2, 3));
    assert(compose_spec(m, identity_spec())[11] == compose_entry_spec(m, identity_spec(), 2, 3));
    assert(compose_entry_spec(identity_spec(), m, 2, 3) == sat_fx(
        div_tz(
            identity_spec()[8] * m[3] + identity_spec()[9] * m[7] + identity_spec()[10] * m[11] + identity_spec()[11] * m[15],
            FX_ONE as int,
        ),
    ));
    assert(identity_spec()[8] * m[3] + identity_spec()[9] * m[7] + identity_spec()[10] * m[11] + identity_spec()[11] * m[15] == FX_ONE * m[11]) by (nonlinear_arith)
        requires
                identity_spec()[8] == 0,
                identity_spec()[9] == 0,
                identity_spec()[10] == FX_ONE as int,
                identity_spec()[11] == 0,
    ;
    assert(compose_entry_spec(m, identity_spec(), 2, 3) == sat_fx(
        div_tz(
            m[8] * identity_spec()[3] + m[9] * identity_spec()[7] + m[10] * identity_spec()[11] + m[11] * identity_spec()[15],
            FX_ONE as int,
        ),
    ));
    assert(m[8] * identity_spec()[3] + m[9] * identity_spec()[7] + m[10] * identity_spec()[11] + m[11] * identity_spec()[15] == FX_ONE * m[11]) by (nonlinear_arith)
        requires
                identity_spec()[3] == 0,
                identity_spec()[7] == 0,
                identity_spec()[11] == 0,
                identity_spec()[15] == FX_ONE as int,
    ;
    assert(div_tz(FX_ONE * m[11], FX_ONE as int) == m[11]);
    assert(sat_fx(m[11]) == m[11]);
}

/// Entry 12 of the identity law.
proof fn lemma_identity_entry_12(m: Seq<int>)
    requires
        entries_bounded(m),
    ensures
        compose_spec(identity_spec(), m)[12] == m[12],
        compose_spec(m, identity_spec())[12] == m[12],
{
    lemma_div_tz_exact(m[12], FX_ONE as int);
    assert(identity_spec()[0] == FX_ONE as int);
    assert(identity_spec()[4] == 0);
    assert(identity_spec()[8] == 0);
    assert(identity_spec()[12] == 0);
    assert(identity_spec()[13] == 0);
    assert(identity_spec()[14] == 0);
    assert(identity_spec()[15] == FX_ONE as int);
    assert(compose_spec(identity_spec(), m)[12] == compose_entry_spec(identity_spec(), m, 3, 0));
    assert(compose_spec(m, identity_spec())[12] == compose_entry_spec(m, identity_spec(), 3, 0));
    assert(compose_entry_spec(identity_spec(), m, 3, 0) == sat_fx(
        div_tz(
            identity_spec()[12] * m[0] + identity_spec()[13] * m[4] + identity_spec()[14] * m[8] + identity_spec()[15] * m[12],
            FX_ONE as int,
        ),
    ));
    assert(identity_spec()[12] * m[0] + identity_spec()[13] * m[4] + identity_spec()[14] * m[8] + identity_spec()[15] * m[12] == FX_ONE * m[12]) by (nonlinear_arith)
        requires
                identity_spec()[12] == 0,
                identity_spec()[13] == 0,
                identity_spec()[14] == 0,
                identity_spec()[15] == FX_ONE as int,
    ;
    assert(compose_entry_spec(m, identity_spec(), 3, 0) == sat_fx(
        div_tz(
            m[12] * identity_spec()[0] + m[13] * identity_spec()[4] + m[14] * identity_spec()[8] + m[15] * identity_spec()[12],
            FX_ONE as int,
        ),
    ));
    assert(m[12] * identity_spec()[0] + m[13] * identity_spec()[4] + m[14] * identity_spec()[8] + m[15] * identity_spec()[12] == FX_ONE * m[12]) by (nonlinear_arith)
        requires
                identity_spec()[0] == FX_ONE as int,
                identity_spec()[4] == 0,
                identity_spec()[8] == 0,
                identity_spec()[12] == 0,
    ;
    assert(div_tz(FX_ONE * m[12], FX_ONE as int) == m[12]);
    assert(sat_fx(m[12]) == m[12]);
}

/// Entry 13 of the identity law.
proof fn lemma_identity_entry_13(m: Seq<int>)
    requires
        entries_bounded(m),
    ensures
        compose_spec(identity_spec(), m)[13] == m[13],
        compose_spec(m, identity_spec())[13] == m[13],
{
    lemma_div_tz_exact(m[13], FX_ONE as int);
    assert(identity_spec()[1] == 0);
    assert(identity_spec()[5] == FX_ONE as int);
    assert(identity_spec()[9] == 0);
    assert(identity_spec()[12] == 0);
    assert(identity_spec()[13] == 0);
    assert(identity_spec()[14] == 0);
    assert(identity_spec()[15] == FX_ONE as int);
    assert(compose_spec(identity_spec(), m)[13] == compose_entry_spec(identity_spec(), m, 3, 1));
    assert(compose_spec(m, identity_spec())[13] == compose_entry_spec(m, identity_spec(), 3, 1));
    assert(compose_entry_spec(identity_spec(), m, 3, 1) == sat_fx(
        div_tz(
            identity_spec()[12] * m[1] + identity_spec()[13] * m[5] + identity_spec()[14] * m[9] + identity_spec()[15] * m[13],
            FX_ONE as int,
        ),
    ));
    assert(identity_spec()[12] * m[1] + identity_spec()[13] * m[5] + identity_spec()[14] * m[9] + identity_spec()[15] * m[13] == FX_ONE * m[13]) by (nonlinear_arith)
        requires
                identity_spec()[12] == 0,
                identity_spec()[13] == 0,
                identity_spec()[14] == 0,
                identity_spec()[15] == FX_ONE as int,
    ;
    assert(compose_entry_spec(m, identity_spec(), 3, 1) == sat_fx(
        div_tz(
            m[12] * identity_spec()[1] + m[13] * identity_spec()[5] + m[14] * identity_spec()[9] + m[15] * identity_spec()[13],
            FX_ONE as int,
        ),
    ));
    assert(m[12] * identity_spec()[1] + m[13] * identity_spec()[5] + m[14] * identity_spec()[9] + m[15] * identity_spec()[13] == FX_ONE * m[13]) by (nonlinear_arith)
        requires
                identity_spec()[1] == 0,
                identity_spec()[5] == FX_ONE as int,
                identity_spec()[9] == 0,
                identity_spec()[13] == 0,
    ;
    assert(div_tz(FX_ONE * m[13], FX_ONE as int) == m[13]);
    assert(sat_fx(m[13]) == m[13]);
}

/// Entry 14 of the identity law.
proof fn lemma_identity_entry_14(m: Seq<int>)
    requires
        entries_bounded(m),
    ensures
        compose_spec(identity_spec(), m)[14] == m[14],
        compose_spec(m, identity_spec())[14] == m[14],
{
    lemma_div_tz_exact(m[14], FX_ONE as int);
    assert(identity_spec()[2] == 0);
    assert(identity_spec()[6] == 0);
    assert(identity_spec()[10] == FX_ONE as int);
    assert(identity_spec()[12] == 0);
    assert(identity_spec()[13] == 0);
    assert(identity_spec()[14] == 0);
    assert(identity_spec()[15] == FX_ONE as int);
    assert(compose_spec(identity_spec(), m)[14] == compose_entry_spec(identity_spec(), m, 3, 2));
    assert(compose_spec(m, identity_spec())[14] == compose_entry_spec(m, identity_spec(), 3, 2));
    assert(compose_entry_spec(identity_spec(), m, 3, 2) == sat_fx(
        div_tz(
            identity_spec()[12] * m[2] + identity_spec()[13] * m[6] + identity_spec()[14] * m[10] + identity_spec()[15] * m[14],
            FX_ONE as int,
        ),
    ));
    assert(identity_spec()[12] * m[2] + identity_spec()[13] * m[6] + identity_spec()[14] * m[10] + identity_spec()[15] * m[14] == FX_ONE * m[14]) by (nonlinear_arith)
        requires
                identity_spec()[12] == 0,
                identity_spec()[13] == 0,
                identity_spec()[14] == 0,
                identity_spec()[15] == FX_ONE as int,
    ;
    assert(compose_entry_spec(m, identity_spec(), 3, 2) == sat_fx(
        div_tz(
            m[12] * identity_spec()[2] + m[13] * identity_spec()[6] + m[14] * identity_spec()[10] + m[15] * identity_spec()[14],
            FX_ONE as int,
        ),
    ));
    assert(m[12] * identity_spec()[2] + m[13] * identity_spec()[6] + m[14] * identity_spec()[10] + m[15] * identity_spec()[14] == FX_ONE * m[14]) by (nonlinear_arith)
        requires
                identity_spec()[2] == 0,
                identity_spec()[6] == 0,
                identity_spec()[10] == FX_ONE as int,
                identity_spec()[14] == 0,
    ;
    assert(div_tz(FX_ONE * m[14], FX_ONE as int) == m[14]);
    assert(sat_fx(m[14]) == m[14]);
}

/// Entry 15 of the identity law.
proof fn lemma_identity_entry_15(m: Seq<int>)
    requires
        entries_bounded(m),
    ensures
        compose_spec(identity_spec(), m)[15] == m[15],
        compose_spec(m, identity_spec())[15] == m[15],
{
    lemma_div_tz_exact(m[15], FX_ONE as int);
    assert(identity_spec()[3] == 0);
    assert(identity_spec()[7] == 0);
    assert(identity_spec()[11] == 0);
    assert(identity_spec()[12] == 0);
    assert(identity_spec()[13] == 0);
    assert(identity_spec()[14] == 0);
    assert(identity_spec()[15] == FX_ONE as int);
    assert(compose_spec(identity_spec(), m)[15] == compose_entry_spec(identity_spec(), m, 3, 3));
    assert(compose_spec(m, identity_spec())[15] == compose_entry_spec(m, identity_spec(), 3, 3));
    assert(compose_entry_spec(identity_spec(), m, 3, 3) == sat_fx(
        div_tz(
            identity_spec()[12] * m[3] + identity_spec()[13] * m[7] + identity_spec()[14] * m[11] + identity_spec()[15] * m[15],
            FX_ONE as int,
        ),
    ));
    assert(identity_spec()[12] * m[3] + identity_spec()[13] * m[7] + identity_spec()[14] * m[11] + identity_spec()[15] * m[15] == FX_ONE * m[15]) by (nonlinear_arith)
        requires
                identity_spec()[12] == 0,
                identity_spec()[13] == 0,
                identity_spec()[14] == 0,
                identity_spec()[15] == FX_ONE as int,
    ;
    assert(compose_entry_spec(m, identity_spec(), 3, 3) == sat_fx(
        div_tz(
            m[12] * identity_spec()[3] + m[13] * identity_spec()[7] + m[14] * identity_spec()[11] + m[15] * identity_spec()[15],
            FX_ONE as int,
        ),
    ));
    assert(m[12] * identity_spec()[3] + m[13] * identity_spec()[7] + m[14] * identity_spec()[11] + m[15] * identity_spec()[15] == FX_ONE * m[15]) by (nonlinear_arith)
        requires
                identity_spec()[3] == 0,
                identity_spec()[7] == 0,
                identity_spec()[11] == 0,
                identity_spec()[15] == FX_ONE as int,
    ;
    assert(div_tz(FX_ONE * m[15], FX_ONE as int) == m[15]);
    assert(sat_fx(m[15]) == m[15]);
}

} // verus!
