//! Static triangulated grid mesh on the x-z plane.
//!
//! For a resolution `n`, the mesh is an `(n+1) x (n+1)` vertex lattice
//! spanning the logical square `[-1, +1]` on both axes (in 16.16 units),
//! with `y` zero everywhere, plus a `u16` index list that covers each of
//! the `n x n` cells with two counter-clockwise triangles (viewed from the
//! `+y` side). Built once per resolution and reused across frames.

use vstd::prelude::*;

verus! {

use crate::GraphError;
use crate::fixed::FX_ONE;
use crate::fixed::div_tz;

use vstd::arithmetic::div_mod::lemma_div_multiples_vanish_fancy;
use vstd::arithmetic::div_mod::lemma_mod_division_less_than_divisor;
use vstd::arithmetic::div_mod::lemma_mod_multiples_vanish;
use vstd::arithmetic::div_mod::lemma_small_mod;

/// Largest accepted grid resolution: with `n <= 255` every vertex index of
/// the `(n+1)^2`-vertex lattice still fits the device's 16-bit index type.
pub const MAX_GRID_SIZE: usize = 255;

/// A grid mesh: flattened `(x, y, z)` vertex positions in 16.16 units, one
/// triple per lattice vertex in row-major order, and the flattened triangle
/// index list, six indices per lattice cell.
#[derive(Debug)]
pub struct GridMesh {
    /// `3 * (n+1)^2` coordinates; vertex `v` occupies entries `3v .. 3v+3`.
    pub positions: Vec<i64>,
    /// `6 * n^2` vertex indices; cell `q` occupies entries `6q .. 6q+6`.
    pub indices: Vec<u16>,
}

/// Lattice coordinate `c` of `n+1` evenly spaced stations mapped into
/// `[-1, +1]`: `-1 + c * (2 / n)` in 16.16 units.
pub open spec fn grid_coord_spec(n: int, c: int) -> int {
    div_tz(2 * FX_ONE * c, n) - FX_ONE
}

/// Value of the flattened position buffer at offset `i`: the triple for
/// vertex `v = i / 3` is `(x(col), 0, z(row))` with `row = v / (n+1)` and
/// `col = v % (n+1)`.
pub open spec fn position_value_spec(n: int, i: int) -> int {
    let v = i / 3;
    let k = i % 3;
    if k == 0 {
        grid_coord_spec(n, v % (n + 1))
    } else if k == 1 {
        0
    } else {
        grid_coord_spec(n, v / (n + 1))
    }
}

/// Value of the flattened index buffer at offset `k`: cell `q = k / 6` at
/// lattice row `q / n`, column `q % n` is covered by the two
/// counter-clockwise triangles `(top_left, bottom_left, bottom_right)` and
/// `(top_left, bottom_right, top_right)`.
pub open spec fn index_value_spec(n: int, k: int) -> int {
    let q = k / 6;
    let o = k % 6;
    let top_left = (q / n) * (n + 1) + (q % n);
    if o == 0 {
        top_left
    } else if o == 1 {
        top_left + n + 1
    } else if o == 2 {
        top_left + n + 2
    } else if o == 3 {
        top_left
    } else if o == 4 {
        top_left + n + 2
    } else {
        top_left + 1
    }
}

/// Everything the mesh contract promises about a built grid of resolution
/// `n`: exact buffer lengths, every coordinate pinned by
/// `position_value_spec`, every index pinned by `index_value_spec`, and
/// every index referencing one of the mesh's own `(n+1)^2` vertices.
pub open spec fn grid_mesh_spec(g: GridMesh, n: int) -> bool {
    &&& g.positions@.len() == 3 * (n + 1) * (n + 1)
    &&& g.indices@.len() == 6 * n * n
    &&& forall|i: int|
        0 <= i < g.positions@.len() ==> (#[trigger] g.positions@[i]) as int == position_value_spec(
            n,
            i,
        )
    &&& forall|k: int|
        0 <= k < g.indices@.len() ==> (#[trigger] g.indices@[k]) as int == index_value_spec(n, k)
    &&& forall|k: int|
        0 <= k < g.indices@.len() ==> ((#[trigger] g.indices@[k]) as int) < (n + 1) * (n + 1)
}

/// Fill the position buffer: one `(x, 0, z)` triple per lattice vertex.
fn build_positions(n: usize) -> (positions: Vec<i64>)
    requires
        1 <= n <= MAX_GRID_SIZE,
    ensures
        positions@.len() == 3 * (n + 1) * (n + 1),
        forall|i: int|
            0 <= i < positions@.len() ==> (#[trigger] positions@[i]) as int == position_value_spec(
                n as int,
                i,
            ),
{
    let np1: usize = n + 1;
    proof {
        assert((np1 as int) * (np1 as int) <= 256 * 256) by (nonlinear_arith)
            requires
                np1 as int <= 256,
        ;
    }
    let vertex_count: usize = np1 * np1;
    let mut positions: Vec<i64> = Vec::new();
    let mut v: usize = 0;
    while v < vertex_count
        invariant
            1 <= n <= MAX_GRID_SIZE,
            np1 == n + 1,
            vertex_count == np1 * np1,
            v <= vertex_count,
            positions@.len() == 3 * v,
            forall|i: int|
                0 <= i < positions@.len() ==> (#[trigger] positions@[i]) as int
                    == position_value_spec(n as int, i),
        decreases vertex_count - v,
    {
        let row: usize = v / np1;
        let col: usize = v % np1;
        proof {
            lemma_mod_division_less_than_divisor(v as int, np1 as int);
            vstd::arithmetic::div_mod::lemma_fundamental_div_mod(v as int, np1 as int);
            assert((v as int) / (np1 as int) <= np1 - 1) by (nonlinear_arith)
                requires
                    1 <= np1 as int,
                    0 <= v as int,
                    (v as int) < (np1 as int) * (np1 as int),
                    (np1 as int) * ((v as int) / (np1 as int)) + (v as int) % (np1 as int) == (
                    v as int),
                    0 <= (v as int) % (np1 as int) < np1 as int,
            ;
        }
        let x: i64 = lattice_coord(n, col);
        let z: i64 = lattice_coord(n, row);
        proof {
            lemma_div_multiples_vanish_fancy(v as int, 0, 3);
            lemma_div_multiples_vanish_fancy(v as int, 1, 3);
            lemma_div_multiples_vanish_fancy(v as int, 2, 3);
            lemma_mod_multiples_vanish(v as int, 0, 3);
            lemma_mod_multiples_vanish(v as int, 1, 3);
            lemma_mod_multiples_vanish(v as int, 2, 3);
            lemma_small_mod(0, 3);
            lemma_small_mod(1, 3);
            lemma_small_mod(2, 3);
        }
        positions.push(x);
        positions.push(0);
        positions.push(z);
        v = v + 1;
    }
    proof {
        assert(3 * ((n as int) + 1) * ((n as int) + 1) == 3 * (vertex_count as int))
            by (nonlinear_arith)
            requires
                vertex_count as int == (np1 as int) * (np1 as int),
                np1 as int == (n as int) + 1,
        ;
    }
    positions
}

/// One lattice coordinate in 16.16 units: `-1 + c * (2 / n)`.
fn lattice_coord(n: usize, c: usize) -> (x: i64)
    requires
        1 <= n <= MAX_GRID_SIZE,
        c <= n,
    ensures
        x as int == grid_coord_spec(n as int, c as int),
{
    let num: u64 = 131072 * (c as u64);
    let q: u64 = num / (n as u64);
    proof {
        assert(num as int == 2 * FX_ONE * (c as int));
        vstd::arithmetic::div_mod::lemma_div_nonincreasing(num as int, n as int);
        assert(q <= num);
        assert(div_tz(2 * FX_ONE * (c as int), n as int) == (num as int) / (n as int));
    }
    (q as i64) - FX_ONE
}

/// Fill the triangle index buffer: six indices per lattice cell.
fn build_indices(n: usize) -> (indices: Vec<u16>)
    requires
        1 <= n <= MAX_GRID_SIZE,
    ensures
        indices@.len() == 6 * n * n,
        forall|k: int|
            0 <= k < indices@.len() ==> (#[trigger] indices@[k]) as int == index_value_spec(
                n as int,
                k,
            ),
        forall|k: int|
            0 <= k < indices@.len() ==> ((#[trigger] indices@[k]) as int) < (n + 1) * (n + 1),
{
    proof {
        assert((n as int) * (n as int) <= 255 * 255) by (nonlinear_arith)
            requires
                n as int <= 255,
        ;
    }
    let cell_count: usize = n * n;
    let mut indices: Vec<u16> = Vec::new();
    let mut q: usize = 0;
    while q < cell_count
        invariant
            1 <= n <= MAX_GRID_SIZE,
            cell_count == n * n,
            cell_count <= 255 * 255,
            q <= cell_count,
            indices@.len() == 6 * q,
            forall|k: int|
                0 <= k < indices@.len() ==> (#[trigger] indices@[k]) as int == index_value_spec(
                    n as int,
                    k,
                ),
            forall|k: int|
                0 <= k < indices@.len() ==> ((#[trigger] indices@[k]) as int) < (n + 1) * (n + 1),
        decreases cell_count - q,
    {
        let row: usize = q / n;
        let col: usize = q % n;
        proof {
            lemma_mod_division_less_than_divisor(q as int, n as int);
            vstd::arithmetic::div_mod::lemma_fundamental_div_mod(q as int, n as int);
            assert((q as int) / (n as int) <= n - 1) by (nonlinear_arith)
                requires
                    1 <= n as int,
                    0 <= q as int,
                    (q as int) < (n as int) * (n as int),
                    (n as int) * ((q as int) / (n as int)) + (q as int) % (n as int) == q as int,
                    0 <= (q as int) % (n as int) < n as int,
            ;
            assert((row as int) * ((n + 1) as int) + (col as int) <= 255 * 256 + 255)
                by (nonlinear_arith)
                requires
                    row as int <= n - 1,
                    col as int <= n - 1,
                    n <= 255,
            ;
        }
        let top_left: usize = row * (n + 1) + col;
        let bottom_left: usize = top_left + n + 1;
        proof {
            assert((top_left as int) + n + 2 < ((n + 1) as int) * ((n + 1) as int))
                by (nonlinear_arith)
                requires
                    top_left as int == (row as int) * ((n + 1) as int) + (col as int),
                    row as int <= n - 1,
                    col as int <= n - 1,
                    1 <= n as int,
            ;
            assert(((n + 1) as int) * ((n + 1) as int) <= 65536) by (nonlinear_arith)
                requires
                    n as int <= 255,
            ;
            lemma_div_multiples_vanish_fancy(q as int, 0, 6);
            lemma_div_multiples_vanish_fancy(q as int, 1, 6);
            lemma_div_multiples_vanish_fancy(q as int, 2, 6);
            lemma_div_multiples_vanish_fancy(q as int, 3, 6);
            lemma_div_multiples_vanish_fancy(q as int, 4, 6);
            lemma_div_multiples_vanish_fancy(q as int, 5, 6);
            lemma_mod_multiples_vanish(q as int, 0, 6);
            lemma_mod_multiples_vanish(q as int, 1, 6);
            lemma_mod_multiples_vanish(q as int, 2, 6);
            lemma_mod_multiples_vanish(q as int, 3, 6);
            lemma_mod_multiples_vanish(q as int, 4, 6);
            lemma_mod_multiples_vanish(q as int, 5, 6);
            lemma_small_mod(0, 6);
            lemma_small_mod(1, 6);
            lemma_small_mod(2, 6);
            lemma_small_mod(3, 6);
            lemma_small_mod(4, 6);
            lemma_small_mod(5, 6);
        }
        indices.push(top_left as u16);
        indices.push(bottom_left as u16);
        indices.push((bottom_left + 1) as u16);
        indices.push(top_left as u16);
        indices.push((bottom_left + 1) as u16);
        indices.push((top_left + 1) as u16);
        q = q + 1;
    }
    proof {
        assert(6 * (n as int) * (n as int) == 6 * (cell_count as int)) by (nonlinear_arith)
            requires
                cell_count as int == (n as int) * (n as int),
        ;
    }
    indices
}

/// Build the `(n+1) x (n+1)` lattice and its triangle index list for an
/// `n x n` grid of quads.
///
/// Deterministic in `n`; the output is stable and may be cached across
/// frames. Resolutions outside `1 ..= 255` are rejected (0 would be a
/// degenerate mesh; above 255 a vertex index would no longer fit `u16`).
pub fn get_position_grid_n_by_n(n: usize) -> (result: Result<GridMesh, GraphError>)
    ensures
        result is Ok <==> 1 <= n <= MAX_GRID_SIZE,
        result matches Ok(g) ==> grid_mesh_spec(g, n as int),
        result is Err ==> result->Err_0 == GraphError::InvalidDimension,
{
    if n < 1 || n > MAX_GRID_SIZE {
        return Err(GraphError::InvalidDimension);
    }
    let positions = build_positions(n);
    let indices = build_indices(n);
    Ok(GridMesh { positions, indices })
}

} // verus!
