//! Scene configuration shared by the grid and camera builders.
//!
//! Angles, distances and the fixed scene depth are 16.16 fixed-point
//! values (`FX_ONE` units per 1.0).

use vstd::prelude::*;

verus! {

/// Grid resolution used by the per-frame height-field entry point:
/// quad cells per side of the square mesh.
pub const GRID_SIZE: usize = 100;

/// Full vertical field of view: 45 degrees, i.e. pi/4 radians in units.
pub const FIELD_OF_VIEW: i64 = 51472;

/// Near clip plane distance: 0.1 in units.
pub const Z_NEAR: i64 = 6554;

/// Far clip plane distance: 100.0 in units.
pub const Z_FAR: i64 = 6553600;

/// Scene depth matching the 45-degree field of view:
/// -1 / tan(pi / 8) = -2.414213 in units.
pub const Z_PLANE: i64 = -158218;

} // verus!
