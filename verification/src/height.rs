//! Per-frame height field: one elevation per grid vertex.
//!
//! Each lattice vertex `(row, col)` of an `n x n` grid gets the elevation
//! of a radially symmetric ripple centered on the grid,
//!
//! ```text
//! elevation = 0.15 * sin(10 pi * sqrt(sx^2 + sz^2))
//! ```
//!
//! where `sx` and `sz` are the vertex's offsets from the grid center as a
//! fraction of the half-grid. The field is a function of the resolution
//! alone: the frame time is accepted as the conceptual phase driver but
//! does not enter the formula, so re-evaluation is bit-for-bit
//! reproducible (and the ripple is static frame to frame).

use vstd::prelude::*;

verus! {

use crate::GraphError;
use crate::constants::GRID_SIZE;
use crate::fixed::FX_ONE;
use crate::fixed::div_round_to_zero;
use crate::fixed::div_tz;
use crate::fixed::isqrt64;
use crate::fixed::sqrt_floor;
use crate::fixed::to_int_seq;
use crate::grid::MAX_GRID_SIZE;
use crate::trig::PI_UNITS;
use crate::trig::fx_sin;
use crate::trig::sin_spec;

use vstd::arithmetic::div_mod::lemma_div_is_ordered;
use vstd::arithmetic::div_mod::lemma_div_is_ordered_by_denominator;
use vstd::arithmetic::div_mod::lemma_mod_division_less_than_divisor;

/// Ripple phase at lattice vertex `(row, col)`: the vertex's radial
/// distance from the grid center, as a fraction of the half-grid, scaled
/// by the angular frequency `10 pi` — all in 16.16 units.
///
/// With doubled center offsets `dx = 2 col - (n+1)` and `dz = 2 row -
/// (n+1)`, the radius fraction is `sqrt(dx^2 + dz^2) / (n+1)`, so the
/// phase is `10 pi * sqrt(dx^2 + dz^2) / (n+1)`.
pub open spec fn ripple_phase_spec(n: int, row: int, col: int) -> int {
    let dx = 2 * col - (n + 1);
    let dz = 2 * row - (n + 1);
    let root = sqrt_floor((dx * dx + dz * dz) * (FX_ONE * FX_ONE));
    div_tz(10 * PI_UNITS * root, (n + 1) * FX_ONE)
}

/// Elevation at lattice vertex `(row, col)`: amplitude `0.15` times the
/// sine of the ripple phase, in 16.16 units.
pub open spec fn elevation_spec(n: int, row: int, col: int) -> int {
    div_tz(15 * sin_spec(ripple_phase_spec(n, row, col)), 100)
}

/// The whole height field for resolution `n`: `(n+1)^2` elevations,
/// index-aligned with the grid's position buffer.
pub open spec fn height_field_spec(n: int) -> Seq<int> {
    Seq::new(((n + 1) * (n + 1)) as nat, |v: int| elevation_spec(n, v / (n + 1), v % (n + 1)))
}

/// Evaluate the height field for an `n x n` grid at frame time `time`.
///
/// The result has one elevation per lattice vertex, each pinned to
/// `elevation_spec` and no larger than the ripple amplitude. The field
/// does not depend on `time` (see the module note), so the evaluation is
/// deterministic. Resolutions outside `1 ..= 255` are rejected.
pub fn evaluate_height_field(n: usize, time: i64) -> (result: Result<Vec<i64>, GraphError>)
    ensures
        result is Ok <==> 1 <= n <= MAX_GRID_SIZE,
        result matches Ok(h) ==> {
            &&& h@.len() == (n + 1) * (n + 1)
            &&& to_int_seq(h@) == height_field_spec(n as int)
            &&& forall|v: int|
                0 <= v < h@.len() ==> -FX_ONE <= #[trigger] h@[v] <= FX_ONE
        },
        result is Err ==> result->Err_0 == GraphError::InvalidDimension,
{
    if n < 1 || n > MAX_GRID_SIZE {
        return Err(GraphError::InvalidDimension);
    }
    let np1: usize = n + 1;
    proof {
        assert((np1 as int) * (np1 as int) <= 256 * 256) by (nonlinear_arith)
            requires
                np1 as int <= 256,
        ;
    }
    let vertex_count: usize = np1 * np1;
    let mut heights: Vec<i64> = Vec::new();
    let mut v: usize = 0;
    while v < vertex_count
        invariant
            1 <= n <= MAX_GRID_SIZE,
            np1 == n + 1,
            vertex_count == np1 * np1,
            v <= vertex_count,
            heights@.len() == v,
            forall|i: int|
                0 <= i < heights@.len() ==> (#[trigger] heights@[i]) as int == elevation_spec(
                    n as int,
                    i / (np1 as int),
                    i % (np1 as int),
                ),
            forall|i: int|
                0 <= i < heights@.len() ==> -FX_ONE <= #[trigger] heights@[i] <= FX_ONE,
        decreases vertex_count - v,
    {
        let row: usize = v / np1;
        let col: usize = v % np1;
        proof {
            lemma_mod_division_less_than_divisor(v as int, np1 as int);
            vstd::arithmetic::div_mod::lemma_fundamental_div_mod(v as int, np1 as int);
            assert((v as int) / (np1 as int) <= np1 - 1) by (nonlinear_arith)
                requires
                    1 <= np1 as int,
                    0 <= v as int,
                    (v as int) < (np1 as int) * (np1 as int),
                    (np1 as int) * ((v as int) / (np1 as int)) + (v as int) % (np1 as int) == (
                    v as int),
                    0 <= (v as int) % (np1 as int) < np1 as int,
            ;
        }
        let elev: i64 = vertex_elevation(n, row, col);
        heights.push(elev);
        v = v + 1;
    }
    proof {
        assert(to_int_seq(heights@) =~= height_field_spec(n as int));
        assert(((n as int) + 1) * ((n as int) + 1) == (vertex_count as int)) by (nonlinear_arith)
            requires
                vertex_count as int == (np1 as int) * (np1 as int),
                np1 as int == (n as int) + 1,
        ;
    }
    Ok(heights)
}

/// Elevation of one lattice vertex, exactly `elevation_spec`.
fn vertex_elevation(n: usize, row: usize, col: usize) -> (elev: i64)
    requires
        1 <= n <= MAX_GRID_SIZE,
        row <= n,
        col <= n,
    ensures
        elev as int == elevation_spec(n as int, row as int, col as int),
        -FX_ONE <= elev <= FX_ONE,
{
    let np1: i64 = (n as i64) + 1;
    let dx: i64 = 2 * (col as i64) - np1;
    let dz: i64 = 2 * (row as i64) - np1;
    proof {
        assert(dx * dx + dz * dz <= 131072) by (nonlinear_arith)
            requires
                -256 <= dx as int <= 256,
                -256 <= dz as int <= 256,
        ;
        assert(dx * dx >= 0 && dz * dz >= 0) by (nonlinear_arith);
    }
    let rad: i64 = dx * dx + dz * dz;
    let scaled: u64 = (rad as u64) * 4294967296;
    let root: u64 = isqrt64(scaled);
    proof {
        assert((root as int) < 33554432) by (nonlinear_arith)
            requires
                0 <= root as int,
                (root as int) * (root as int) <= scaled as int,
                (scaled as int) < 0x4_0000_0000_0000,
        ;
    }
    let num: u64 = 2058880 * root;
    let den: u64 = (np1 as u64) * 65536;
    let phase: u64 = num / den;
    proof {
        lemma_div_is_ordered_by_denominator(num as int, 131072, den as int);
        lemma_div_is_ordered(num as int, 69084548956160, 131072);
        assert(phase as int <= 527073280);
        assert(num as int == 10 * PI_UNITS * (root as int));
        assert(den as int == ((n as int) + 1) * FX_ONE);
        assert(phase as int == div_tz(
            10 * PI_UNITS * (root as int),
            ((n as int) + 1) * FX_ONE,
        ));
        assert(scaled as int == ((dx as int) * (dx as int) + (dz as int) * (dz as int)) * (
        FX_ONE * FX_ONE));
        assert(root as int == sqrt_floor(
            ((dx as int) * (dx as int) + (dz as int) * (dz as int)) * (FX_ONE * FX_ONE),
        ));
        assert(phase as int == ripple_phase_spec(n as int, row as int, col as int));
    }
    let s: i64 = fx_sin(phase as i64);
    let elev: i64 = div_round_to_zero(15 * s, 100);
    proof {
        crate::fixed::lemma_div_tz_bound(15 * (s as int), 100, FX_ONE as int);
    }
    elev
}

/// Evaluate the height field for the scene's fixed grid resolution.
pub fn get_updated_3d_y_values(cur_time: i64) -> (y_values: Vec<i64>)
    ensures
        y_values@.len() == (GRID_SIZE + 1) * (GRID_SIZE + 1),
        to_int_seq(y_values@) == height_field_spec(GRID_SIZE as int),
        forall|v: int|
            0 <= v < y_values@.len() ==> -FX_ONE <= #[trigger] y_values@[v] <= FX_ONE,
{
    match evaluate_height_field(GRID_SIZE, cur_time) {
        Ok(y_values) => y_values,
        Err(_) => {
            proof {
                assert(false);
            }
            Vec::new()
        },
    }
}

/// Law: evaluating the height field is deterministic — any two fields for
/// the same resolution are equal element for element, whatever frame times
/// the two evaluations were given.
pub proof fn lemma_height_field_deterministic(n: int, ha: Seq<int>, hb: Seq<int>)
    requires
        ha == height_field_spec(n),
        hb == height_field_spec(n),
    ensures
        ha == hb,
{
}

} // verus!
