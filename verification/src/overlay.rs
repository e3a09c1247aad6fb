//! Flat 2D overlay transform.
//!
//! The overlay program draws a unit quad; all it needs per frame is one
//! matrix that scales the quad to the viewport rectangle and translates
//! it into clip space. The quad's geometry is static — this is the only
//! computation the overlay owns.

use vstd::prelude::*;

verus! {

use crate::GraphError;
use crate::camera::sat_div;
use crate::camera::sat_div_units;
use crate::camera::sat_units;
use crate::fixed::FX_MAX;
use crate::fixed::FX_ONE;
use crate::fixed::abs_val;
use crate::fixed::lemma_abs_mul_bound;
use crate::fixed::mul_i64;
use crate::fixed::sat_fx;
use crate::matrix::Transform;
use crate::matrix::compose_spec;
use crate::matrix::cross_multiply_matrix;
use crate::matrix::entries_bounded;
use crate::matrix::scaling_matrix;
use crate::matrix::scaling_spec;
use crate::matrix::translation_matrix;
use crate::matrix::translation_spec;

/// Scale factor mapping the unit quad's side to the viewport rectangle:
/// `2 * (hi - lo) / d` in units.
pub open spec fn rect_scale_spec(lo: int, hi: int, d: int) -> int {
    sat_div(2 * (hi - lo) * FX_ONE, d)
}

/// Translation placing the quad's corner at the viewport corner in clip
/// space: `2 * lo / d - 1` in units.
pub open spec fn rect_offset_spec(lo: int, d: int) -> int {
    sat_fx(sat_div(2 * lo * FX_ONE, d) - FX_ONE)
}

/// The overlay transform: scale first, then translate.
pub open spec fn rect_transform_spec(
    bottom: int,
    top: int,
    left: int,
    right: int,
    canvas_height: int,
    canvas_width: int,
) -> Seq<int> {
    compose_spec(
        scaling_spec(
            rect_scale_spec(left, right, canvas_width),
            rect_scale_spec(bottom, top, canvas_height),
            0,
        ),
        translation_spec(
            rect_offset_spec(left, canvas_width),
            rect_offset_spec(bottom, canvas_height),
            0,
        ),
    )
}

/// Build the overlay's scale-and-translate transform for one frame.
///
/// A zero or negative canvas dimension is rejected.
pub fn build_rect_transform(
    bottom: i64,
    top: i64,
    left: i64,
    right: i64,
    canvas_height: i64,
    canvas_width: i64,
) -> (result: Result<Transform, GraphError>)
    requires
        abs_val(bottom as int) <= FX_MAX,
        abs_val(top as int) <= FX_MAX,
        abs_val(left as int) <= FX_MAX,
        abs_val(right as int) <= FX_MAX,
        abs_val(canvas_height as int) <= FX_MAX,
        abs_val(canvas_width as int) <= FX_MAX,
    ensures
        result is Ok <==> (canvas_width > 0 && canvas_height > 0),
        result matches Ok(t) ==> {
            &&& t@ == rect_transform_spec(
                bottom as int,
                top as int,
                left as int,
                right as int,
                canvas_height as int,
                canvas_width as int,
            )
            &&& entries_bounded(t@)
        },
        result is Err ==> result->Err_0 == GraphError::InvalidDimension,
{
    if canvas_width <= 0 || canvas_height <= 0 {
        return Err(GraphError::InvalidDimension);
    }
    proof {
        lemma_abs_mul_bound(2 * ((right as int) - (left as int)), FX_ONE as int, 4 * FX_MAX,
            FX_ONE as int);
        lemma_abs_mul_bound(2 * ((top as int) - (bottom as int)), FX_ONE as int, 4 * FX_MAX,
            FX_ONE as int);
        lemma_abs_mul_bound(2 * (left as int), FX_ONE as int, 2 * FX_MAX, FX_ONE as int);
        lemma_abs_mul_bound(2 * (bottom as int), FX_ONE as int, 2 * FX_MAX, FX_ONE as int);
    }
    let sx: i64 = sat_div_units(mul_i64(2 * (right - left), FX_ONE), canvas_width);
    let sy: i64 = sat_div_units(mul_i64(2 * (top - bottom), FX_ONE), canvas_height);
    let tx: i64 = sat_units(sat_div_units(mul_i64(2 * left, FX_ONE), canvas_width) - FX_ONE);
    let ty: i64 = sat_units(sat_div_units(mul_i64(2 * bottom, FX_ONE), canvas_height) - FX_ONE);
    let scale_m = scaling_matrix(sx, sy, 0);
    let translation = translation_matrix(tx, ty, 0);
    let t = cross_multiply_matrix(&scale_m, &translation);
    Ok(t)
}

} // verus!
