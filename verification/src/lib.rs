//! Procedural geometry and transform math for a rippling 3D height-field
//! surface rendered through an immediate-mode graphics pipeline.
//!
//! All quantities are carried in signed 16.16 fixed-point units (`FX_ONE`
//! units per 1.0), so every computation here is exact integer arithmetic
//! with a precise contract; the thin host shell converts to and from the
//! device's floating-point buffers at the boundary.

use vstd::prelude::*;

pub mod camera;
pub mod constants;
pub mod fixed;
pub mod grid;
pub mod height;
pub mod matrix;
pub mod normals;
pub mod overlay;
pub mod trig;

verus! {

/// The ways a caller-supplied configuration can be rejected.
///
/// Zero or negative canvas dimensions and out-of-range grid resolutions are
/// caller-side precondition violations and are rejected up front; numeric
/// degeneracy (such as equal near and far planes) is not an error and simply
/// yields a degenerate matrix.
#[derive(Clone, Copy, Debug, PartialEq, Eq, Structural)]
pub enum GraphError {
    /// A dimension (canvas size or grid resolution) was zero, negative,
    /// or outside the representable range.
    InvalidDimension,
}

} // verus!
