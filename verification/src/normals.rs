//! Per-frame surface normals estimated from the height field.
//!
//! For each lattice vertex the two tangent directions are estimated by
//! finite differences of the height field along the lattice axes (central
//! difference where both neighbors exist, one-sided at the grid edge,
//! with `delta x = delta z =` the grid spacing), and their cross product
//! is taken so that a flat field yields normals facing `+y`:
//!
//! ```text
//! tangent_x = (dx, dh_col, 0)      tangent_z = (0, dh_row, dz)
//! normal = tangent_z x tangent_x = (-dz * dh_col, dz * dx, -dx * dh_row)
//! ```
//!
//! The output is the raw (non-unit) cross product per vertex; the shader
//! may renormalize.

use vstd::prelude::*;

verus! {

use crate::GraphError;
use crate::fixed::FX_MAX;
use crate::fixed::FX_ONE;
use crate::fixed::div_round_to_zero;
use crate::fixed::div_tz;
use crate::fixed::lemma_abs_mul_bound;
use crate::fixed::mul_i64;
use crate::grid::MAX_GRID_SIZE;

use vstd::arithmetic::div_mod::lemma_div_is_ordered;
use vstd::arithmetic::div_mod::lemma_div_is_ordered_by_denominator;
use vstd::arithmetic::div_mod::lemma_div_multiples_vanish_fancy;
use vstd::arithmetic::div_mod::lemma_fundamental_div_mod;
use vstd::arithmetic::div_mod::lemma_mod_division_less_than_divisor;
use vstd::arithmetic::div_mod::lemma_mod_multiples_vanish;
use vstd::arithmetic::div_mod::lemma_small_mod;

/// Grid spacing in 16.16 units: the lattice spans two whole units, so one
/// cell is `2 / n`.
pub open spec fn spacing_spec(n: int) -> int {
    div_tz(2 * FX_ONE, n)
}

/// Height difference along the column (x) axis at `(row, col)`, clamping
/// the neighbors to the grid edge.
pub open spec fn height_delta_col_spec(n: int, ys: Seq<i64>, row: int, col: int) -> int {
    let cl = if col > 0 {
        col - 1
    } else {
        0
    };
    let cr = if col < n {
        col + 1
    } else {
        n
    };
    ys[row * (n + 1) + cr] - ys[row * (n + 1) + cl]
}

/// Height difference along the row (z) axis at `(row, col)`, clamping the
/// neighbors to the grid edge.
pub open spec fn height_delta_row_spec(n: int, ys: Seq<i64>, row: int, col: int) -> int {
    let ru = if row > 0 {
        row - 1
    } else {
        0
    };
    let rd = if row < n {
        row + 1
    } else {
        n
    };
    ys[rd * (n + 1) + col] - ys[ru * (n + 1) + col]
}

/// The x component of the normal at `(row, col)`.
pub open spec fn normal_x_spec(n: int, ys: Seq<i64>, row: int, col: int) -> int {
    div_tz(-(spacing_spec(n) * height_delta_col_spec(n, ys, row, col)), FX_ONE as int)
}

/// The y component of the normal: the same at every vertex, the square of
/// the grid spacing, and always positive.
pub open spec fn normal_y_spec(n: int) -> int {
    div_tz(spacing_spec(n) * spacing_spec(n), FX_ONE as int)
}

/// The z component of the normal at `(row, col)`.
pub open spec fn normal_z_spec(n: int, ys: Seq<i64>, row: int, col: int) -> int {
    div_tz(-(spacing_spec(n) * height_delta_row_spec(n, ys, row, col)), FX_ONE as int)
}

/// Value of the flattened normal buffer at offset `i`: the triple for
/// vertex `v = i / 3` is the cross-product normal at `(v / (n+1), v %
/// (n+1))`.
pub open spec fn normal_value_spec(n: int, ys: Seq<i64>, i: int) -> int {
    let v = i / 3;
    let k = i % 3;
    let row = v / (n + 1);
    let col = v % (n + 1);
    if k == 0 {
        normal_x_spec(n, ys, row, col)
    } else if k == 1 {
        normal_y_spec(n)
    } else {
        normal_z_spec(n, ys, row, col)
    }
}

/// Estimate one normal per grid vertex from the height field `y_values`.
///
/// Heights must be within the fixed-point working range (a machine limit:
/// the cross products are formed in 64-bit arithmetic). The call is
/// rejected unless the resolution is in `1 ..= 255` and `y_values` holds
/// exactly one height per lattice vertex.
pub fn get_grid_normals(n: usize, y_values: &Vec<i64>) -> (result: Result<Vec<i64>, GraphError>)
    requires
        forall|i: int| 0 <= i < y_values@.len() ==> -FX_MAX <= #[trigger] y_values@[i] <= FX_MAX,
    ensures
        result is Ok <==> (1 <= n <= MAX_GRID_SIZE && y_values@.len() == (n + 1) * (n + 1)),
        result matches Ok(ns) ==> {
            &&& ns@.len() == 3 * (n + 1) * (n + 1)
            &&& forall|i: int|
                0 <= i < ns@.len() ==> (#[trigger] ns@[i]) as int == normal_value_spec(
                    n as int,
                    y_values@,
                    i,
                )
        },
        result is Err ==> result->Err_0 == GraphError::InvalidDimension,
{
    if n < 1 || n > MAX_GRID_SIZE {
        return Err(GraphError::InvalidDimension);
    }
    let np1: usize = n + 1;
    proof {
        assert((np1 as int) * (np1 as int) <= 256 * 256) by (nonlinear_arith)
            requires
                np1 as int <= 256,
        ;
    }
    let vertex_count: usize = np1 * np1;
    if y_values.len() != vertex_count {
        return Err(GraphError::InvalidDimension);
    }
    let sp: i64 = (131072 / (n as u64)) as i64;
    proof {
        vstd::arithmetic::div_mod::lemma_div_nonincreasing(131072, n as int);
        assert(sp as int == spacing_spec(n as int));
        assert(0 <= sp <= 131072);
    }
    let mut normals: Vec<i64> = Vec::new();
    let mut v: usize = 0;
    while v < vertex_count
        invariant
            1 <= n <= MAX_GRID_SIZE,
            np1 == n + 1,
            vertex_count == np1 * np1,
            y_values@.len() == vertex_count,
            forall|i: int|
                0 <= i < y_values@.len() ==> -FX_MAX <= #[trigger] y_values@[i] <= FX_MAX,
            0 <= sp <= 131072,
            sp as int == spacing_spec(n as int),
            v <= vertex_count,
            normals@.len() == 3 * v,
            forall|i: int|
                0 <= i < normals@.len() ==> (#[trigger] normals@[i]) as int == normal_value_spec(
                    n as int,
                    y_values@,
                    i,
                ),
        decreases vertex_count - v,
    {
        let row: usize = v / np1;
        let col: usize = v % np1;
        proof {
            lemma_mod_division_less_than_divisor(v as int, np1 as int);
            lemma_fundamental_div_mod(v as int, np1 as int);
            assert((v as int) / (np1 as int) <= np1 - 1) by (nonlinear_arith)
                requires
                    1 <= np1 as int,
                    0 <= v as int,
                    (v as int) < (np1 as int) * (np1 as int),
                    (np1 as int) * ((v as int) / (np1 as int)) + (v as int) % (np1 as int) == (
                    v as int),
                    0 <= (v as int) % (np1 as int) < np1 as int,
            ;
        }
        let cl: usize = if col > 0 {
            col - 1
        } else {
            0
        };
        let cr: usize = if col < n {
            col + 1
        } else {
            n
        };
        let ru: usize = if row > 0 {
            row - 1
        } else {
            0
        };
        let rd: usize = if row < n {
            row + 1
        } else {
            n
        };
        proof {
            assert(0 <= (row as int) * (np1 as int) + (cr as int) < (np1 as int) * (np1 as int)
                && 0 <= (row as int) * (np1 as int) + (cl as int) < (np1 as int) * (np1 as int)
                && 0 <= (rd as int) * (np1 as int) + (col as int) < (np1 as int) * (np1 as int)
                && 0 <= (ru as int) * (np1 as int) + (col as int) < (np1 as int) * (np1 as int))
                by (nonlinear_arith)
                requires
                    0 <= row as int <= (np1 as int) - 1,
                    0 <= col as int <= (np1 as int) - 1,
                    0 <= cl as int <= (np1 as int) - 1,
                    0 <= cr as int <= (np1 as int) - 1,
                    0 <= ru as int <= (np1 as int) - 1,
                    0 <= rd as int <= (np1 as int) - 1,
                    1 <= np1 as int,
            ;
        }
        let dh_col: i64 = y_values[row * np1 + cr] - y_values[row * np1 + cl];
        let dh_row: i64 = y_values[rd * np1 + col] - y_values[ru * np1 + col];
        proof {
            lemma_abs_mul_bound(sp as int, dh_col as int, 131072, 2 * FX_MAX);
            lemma_abs_mul_bound(sp as int, dh_row as int, 131072, 2 * FX_MAX);
            lemma_abs_mul_bound(sp as int, sp as int, 131072, 131072);
            lemma_div_multiples_vanish_fancy(v as int, 0, 3);
            lemma_div_multiples_vanish_fancy(v as int, 1, 3);
            lemma_div_multiples_vanish_fancy(v as int, 2, 3);
            lemma_mod_multiples_vanish(v as int, 0, 3);
            lemma_mod_multiples_vanish(v as int, 1, 3);
            lemma_mod_multiples_vanish(v as int, 2, 3);
            lemma_small_mod(0, 3);
            lemma_small_mod(1, 3);
            lemma_small_mod(2, 3);
        }
        let nx: i64 = div_round_to_zero(-mul_i64(sp, dh_col), FX_ONE);
        let ny: i64 = div_round_to_zero(mul_i64(sp, sp), FX_ONE);
        let nz: i64 = div_round_to_zero(-mul_i64(sp, dh_row), FX_ONE);
        normals.push(nx);
        normals.push(ny);
        normals.push(nz);
        v = v + 1;
    }
    proof {
        assert(3 * ((n as int) + 1) * ((n as int) + 1) == 3 * (vertex_count as int))
            by (nonlinear_arith)
            requires
                vertex_count as int == (np1 as int) * (np1 as int),
                np1 as int == (n as int) + 1,
        ;
    }
    Ok(normals)
}

/// Law: for a flat (all-zero) height field, every normal is `(0, k, 0)`
/// for one positive `k` — the pure `+y` direction.
pub proof fn lemma_flat_field_normals(n: int, ys: Seq<i64>, row: int, col: int)
    requires
        1 <= n <= MAX_GRID_SIZE,
        ys.len() == (n + 1) * (n + 1),
        forall|i: int| 0 <= i < ys.len() ==> #[trigger] ys[i] == 0,
        0 <= row <= n,
        0 <= col <= n,
    ensures
        normal_x_spec(n, ys, row, col) == 0,
        normal_y_spec(n) >= 1,
        normal_z_spec(n, ys, row, col) == 0,
{
    let cl = if col > 0 {
        col - 1
    } else {
        0
    };
    let cr = if col < n {
        col + 1
    } else {
        n
    };
    let ru = if row > 0 {
        row - 1
    } else {
        0
    };
    let rd = if row < n {
        row + 1
    } else {
        n
    };
    assert(0 <= row * (n + 1) + cr < (n + 1) * (n + 1) && 0 <= row * (n + 1) + cl < (n + 1) * (n
        + 1) && 0 <= rd * (n + 1) + col < (n + 1) * (n + 1) && 0 <= ru * (n + 1) + col < (n + 1)
        * (n + 1)) by (nonlinear_arith)
        requires
            0 <= row <= n,
            0 <= col <= n,
            0 <= cl <= n,
            0 <= cr <= n,
            0 <= ru <= n,
            0 <= rd <= n,
            1 <= n,
    ;
    assert(ys[row * (n + 1) + cr] == 0 && ys[row * (n + 1) + cl] == 0 && ys[rd * (n + 1) + col]
        == 0 && ys[ru * (n + 1) + col] == 0);
    assert(height_delta_col_spec(n, ys, row, col) == 0);
    assert(height_delta_row_spec(n, ys, row, col) == 0);
    assert(spacing_spec(n) * 0 == 0);
    assert(normal_x_spec(n, ys, row, col) == div_tz(0, FX_ONE as int));
    assert(div_tz(0, FX_ONE as int) == 0);
    let sp = spacing_spec(n);
    lemma_div_is_ordered_by_denominator(2 * FX_ONE, n, 255);
    assert(sp >= (2 * FX_ONE) / 255);
    assert((2 * FX_ONE) / 255 == 514);
    lemma_div_is_ordered_by_denominator(2 * FX_ONE, 1, n);
    assert(sp <= 131072);
    assert(sp * sp >= 514 * 514) by (nonlinear_arith)
        requires
            sp >= 514,
    ;
    lemma_div_is_ordered(264196int, sp * sp, FX_ONE as int);
    assert(normal_y_spec(n) == (sp * sp) / (FX_ONE as int));
    assert(264196int / (FX_ONE as int) >= 1);
}

} // verus!
