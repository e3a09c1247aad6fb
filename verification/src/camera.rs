//! Camera transform builder.
//!
//! Per frame the scene needs two matrices: the full projection — rotation
//! about the x and y axes, an anisotropic scale fitting the viewport
//! sub-rectangle, a translation to the scene depth, and a symmetric
//! perspective — and a rotation-only companion used to transform normals
//! (normals must not pick up the scale or projection, or lighting breaks
//! under non-uniform scaling).
//!
//! Composition order is a fixed contract: the transform applied first is
//! the leftmost operand, so
//! `combined = compose(compose(compose(rotation, scale), translation), perspective)`.
//!
//! Two quirks are kept deliberately from the scene's design: the viewport
//! scale uses the vertical factor `(top - bottom) / canvas_height` for
//! both axes (the horizontal factor enters only the translation), and the
//! scene depth is the fixed `Z_PLANE` matching the 45-degree field of
//! view.

use vstd::prelude::*;

verus! {

use crate::GraphError;
use crate::constants::FIELD_OF_VIEW;
use crate::constants::Z_FAR;
use crate::constants::Z_NEAR;
use crate::constants::Z_PLANE;
use crate::fixed::FX_MAX;
use crate::fixed::FX_ONE;
use crate::fixed::abs_val;
use crate::fixed::div_round_to_zero;
use crate::fixed::div_tz;
use crate::fixed::lemma_abs_mul_bound;
use crate::fixed::mul_i64;
use crate::fixed::sat_fx;
use crate::matrix::Transform;
use crate::matrix::transform_from_entries;
use crate::matrix::compose_spec;
use crate::matrix::cross_multiply_matrix;
use crate::matrix::entries_bounded;
use crate::matrix::scaling_matrix;
use crate::matrix::scaling_spec;
use crate::matrix::translation_matrix;
use crate::matrix::translation_spec;
use crate::trig::ANGLE_LIMIT;
use crate::trig::cos_spec;
use crate::trig::fx_cos;
use crate::trig::fx_sin;
use crate::trig::sin_spec;

/// The two matrices a frame needs: the full projection and the
/// rotation-only matrix for normals.
#[derive(Debug)]
pub struct CameraMatrices {
    /// Rotation, viewport scale, translation and perspective combined.
    pub projection: Transform,
    /// The rotation alone, for transforming normals.
    pub normals_rotation: Transform,
}

/// Saturated fixed-point quotient: divide and clamp into the working
/// range.
pub open spec fn sat_div(a: int, b: int) -> int {
    sat_fx(div_tz(a, b))
}

/// Right-handed rotation about the x axis with cosine `c` and sine `s`.
pub open spec fn rotation_x_spec(c: int, s: int) -> Seq<int> {
    seq![
        FX_ONE as int, 0, 0, 0,
        0, c, -s, 0,
        0, s, c, 0,
        0, 0, 0, FX_ONE as int,
    ]
}

/// Right-handed rotation about the y axis with cosine `c` and sine `s`.
pub open spec fn rotation_y_spec(c: int, s: int) -> Seq<int> {
    seq![
        c, 0, s, 0,
        0, FX_ONE as int, 0, 0,
        -s, 0, c, 0,
        0, 0, 0, FX_ONE as int,
    ]
}

/// The combined rotation for angles `rx` (about x, applied first) and
/// `ry` (about y).
pub open spec fn rotation_spec(rx: int, ry: int) -> Seq<int> {
    compose_spec(
        rotation_x_spec(cos_spec(rx), sin_spec(rx)),
        rotation_y_spec(cos_spec(ry), sin_spec(ry)),
    )
}

/// Canvas aspect ratio `width / height` in units.
pub open spec fn aspect_spec(w: int, h: int) -> int {
    sat_div(w * FX_ONE, h)
}

/// Viewport scale factor `(hi - lo) / d` in units.
pub open spec fn viewport_scale_spec(lo: int, hi: int, d: int) -> int {
    sat_div((hi - lo) * FX_ONE, d)
}

/// Translation component placing the viewport edge in clip space:
/// `-1 + (hi - lo) / d + 2 * lo / d` in units.
pub open spec fn ndc_offset_spec(lo: int, hi: int, d: int) -> int {
    sat_fx(-FX_ONE + viewport_scale_spec(lo, hi, d) + sat_div(2 * lo * FX_ONE, d))
}

/// Focal factor of the perspective: `1 / tan(fov / 2)` computed as
/// `cos(fov / 2) / sin(fov / 2)` in units.
pub open spec fn focal_spec(fov: int) -> int {
    let hf = div_tz(fov, 2);
    sat_div(cos_spec(hf) * FX_ONE, sin_spec(hf))
}

/// Symmetric perspective projection with aspect ratio `aspect`, focal
/// factor `f`, and clip planes `zn` and `zf`, in the row-major layout the
/// scene uploads (the projection's transpose convention): entries 10, 11
/// and 14 hold the depth mapping, which sends `z = zn` to the near clip
/// plane and `z = zf` to the far one.
pub open spec fn perspective_spec(aspect: int, f: int, zn: int, zf: int) -> Seq<int> {
    seq![
        sat_div(f * FX_ONE, aspect), 0, 0, 0,
        0, f, 0, 0,
        0, 0, sat_div((zf + zn) * FX_ONE, zn - zf), -FX_ONE as int,
        0, 0, sat_div(2 * zn * zf, zn - zf), 0,
    ]
}

/// The full projection: rotation, then viewport scale, then translation
/// to the scene depth, then perspective — composed in exactly that order.
pub open spec fn projection_spec(
    bottom: int,
    top: int,
    left: int,
    right: int,
    canvas_height: int,
    canvas_width: int,
    rx: int,
    ry: int,
    fov: int,
    zn: int,
    zf: int,
) -> Seq<int> {
    let rotation = rotation_spec(rx, ry);
    let scale = viewport_scale_spec(bottom, top, canvas_height);
    let scale_m = scaling_spec(scale, scale, 0);
    let trans = translation_spec(
        ndc_offset_spec(left, right, canvas_width),
        ndc_offset_spec(bottom, top, canvas_height),
        Z_PLANE as int,
    );
    let persp = perspective_spec(aspect_spec(canvas_width, canvas_height), focal_spec(fov), zn, zf);
    compose_spec(compose_spec(compose_spec(rotation, scale_m), trans), persp)
}

/// Clamp a scalar into the fixed-point working range.
pub(crate) fn sat_units(v: i64) -> (r: i64)
    ensures
        r as int == sat_fx(v as int),
        abs_val(r as int) <= FX_MAX,
{
    if v > FX_MAX {
        FX_MAX
    } else if v < -FX_MAX {
        -FX_MAX
    } else {
        v
    }
}

/// Saturated fixed-point quotient, the executable `sat_div`.
pub(crate) fn sat_div_units(a: i64, b: i64) -> (r: i64)
    requires
        a > i64::MIN,
        b > i64::MIN,
    ensures
        r as int == sat_div(a as int, b as int),
        abs_val(r as int) <= FX_MAX,
{
    sat_units(div_round_to_zero(a, b))
}

/// Build the x-axis rotation matrix from a cosine and sine in units.
fn rotation_x_matrix(c: i64, s: i64) -> (t: Transform)
    requires
        abs_val(c as int) <= FX_MAX,
        abs_val(s as int) <= FX_MAX,
    ensures
        t@ == rotation_x_spec(c as int, s as int),
        entries_bounded(t@),
{
    let mut m: Vec<i64> = Vec::new();
    m.push(FX_ONE);
    m.push(0);
    m.push(0);
    m.push(0);
    m.push(0);
    m.push(c);
    m.push(-s);
    m.push(0);
    m.push(0);
    m.push(s);
    m.push(c);
    m.push(0);
    m.push(0);
    m.push(0);
    m.push(0);
    m.push(FX_ONE);
    let t = transform_from_entries(m);
    proof {
        assert(t@ =~= rotation_x_spec(c as int, s as int));
    }
    t
}

/// Build the y-axis rotation matrix from a cosine and sine in units.
fn rotation_y_matrix(c: i64, s: i64) -> (t: Transform)
    requires
        abs_val(c as int) <= FX_MAX,
        abs_val(s as int) <= FX_MAX,
    ensures
        t@ == rotation_y_spec(c as int, s as int),
        entries_bounded(t@),
{
    let mut m: Vec<i64> = Vec::new();
    m.push(c);
    m.push(0);
    m.push(s);
    m.push(0);
    m.push(0);
    m.push(FX_ONE);
    m.push(0);
    m.push(0);
    m.push(-s);
    m.push(0);
    m.push(c);
    m.push(0);
    m.push(0);
    m.push(0);
    m.push(0);
    m.push(FX_ONE);
    let t = transform_from_entries(m);
    proof {
        assert(t@ =~= rotation_y_spec(c as int, s as int));
    }
    t
}

/// Assemble the perspective matrix from its four computed entries.
fn perspective_matrix(p0: i64, f: i64, p10: i64, p14: i64) -> (t: Transform)
    requires
        abs_val(p0 as int) <= FX_MAX,
        abs_val(f as int) <= FX_MAX,
        abs_val(p10 as int) <= FX_MAX,
        abs_val(p14 as int) <= FX_MAX,
    ensures
        t@ == seq![
            p0 as int, 0, 0, 0,
            0, f as int, 0, 0,
            0, 0, p10 as int, -FX_ONE as int,
            0, 0, p14 as int, 0,
        ],
        entries_bounded(t@),
{
    let mut m: Vec<i64> = Vec::new();
    m.push(p0);
    m.push(0);
    m.push(0);
    m.push(0);
    m.push(0);
    m.push(f);
    m.push(0);
    m.push(0);
    m.push(0);
    m.push(0);
    m.push(p10);
    m.push(-FX_ONE);
    m.push(0);
    m.push(0);
    m.push(p14);
    m.push(0);
    let t = transform_from_entries(m);
    proof {
        assert(t@ =~= seq![
            p0 as int, 0, 0, 0,
            0, f as int, 0, 0,
            0, 0, p10 as int, -FX_ONE as int,
            0, 0, p14 as int, 0,
        ]);
    }
    t
}

/// Build the frame's projection and normals-rotation matrices.
///
/// Inputs are 16.16 units: the viewport rectangle edges and canvas size
/// must lie in the fixed-point working range (a machine limit), the
/// rotation angles and field of view are radians in units. A zero or
/// negative canvas dimension is rejected — the scale and aspect divisions
/// would be meaningless; degenerate clip planes (`z_near == z_far`) are
/// not an error and merely produce a degenerate matrix.
#[verifier::rlimit(100)]
pub fn build_camera_transform(
    bottom: i64,
    top: i64,
    left: i64,
    right: i64,
    canvas_height: i64,
    canvas_width: i64,
    rotation_x: i64,
    rotation_y: i64,
    fov: i64,
    z_near: i64,
    z_far: i64,
) -> (result: Result<CameraMatrices, GraphError>)
    requires
        abs_val(bottom as int) <= FX_MAX,
        abs_val(top as int) <= FX_MAX,
        abs_val(left as int) <= FX_MAX,
        abs_val(right as int) <= FX_MAX,
        abs_val(canvas_height as int) <= FX_MAX,
        abs_val(canvas_width as int) <= FX_MAX,
        abs_val(rotation_x as int) <= ANGLE_LIMIT,
        abs_val(rotation_y as int) <= ANGLE_LIMIT,
        abs_val(fov as int) <= ANGLE_LIMIT,
        abs_val(z_near as int) <= FX_MAX,
        abs_val(z_far as int) <= FX_MAX,
    ensures
        result is Ok <==> (canvas_width > 0 && canvas_height > 0),
        result matches Ok(cm) ==> {
            &&& cm.normals_rotation@ == rotation_spec(rotation_x as int, rotation_y as int)
            &&& entries_bounded(cm.normals_rotation@)
            &&& cm.projection@ == projection_spec(
                bottom as int,
                top as int,
                left as int,
                right as int,
                canvas_height as int,
                canvas_width as int,
                rotation_x as int,
                rotation_y as int,
                fov as int,
                z_near as int,
                z_far as int,
            )
            &&& entries_bounded(cm.projection@)
        },
        result is Err ==> result->Err_0 == GraphError::InvalidDimension,
{
    if canvas_width <= 0 || canvas_height <= 0 {
        return Err(GraphError::InvalidDimension);
    }
    let cx: i64 = fx_cos(rotation_x);
    let sx: i64 = fx_sin(rotation_x);
    let cy: i64 = fx_cos(rotation_y);
    let sy: i64 = fx_sin(rotation_y);
    let rotate_x = rotation_x_matrix(cx, sx);
    let rotate_y = rotation_y_matrix(cy, sy);
    let rotation = cross_multiply_matrix(&rotate_x, &rotate_y);
    proof {
        lemma_abs_mul_bound(top as int - bottom, FX_ONE as int, 2 * FX_MAX, FX_ONE as int);
        lemma_abs_mul_bound(right as int - left, FX_ONE as int, 2 * FX_MAX, FX_ONE as int);
        lemma_abs_mul_bound(2 * left as int, FX_ONE as int, 2 * FX_MAX, FX_ONE as int);
        lemma_abs_mul_bound(2 * bottom as int, FX_ONE as int, 2 * FX_MAX, FX_ONE as int);
        lemma_abs_mul_bound(canvas_width as int, FX_ONE as int, FX_MAX as int, FX_ONE as int);
    }
    let scale: i64 = sat_div_units(mul_i64(top - bottom, FX_ONE), canvas_height);
    let scale_x: i64 = sat_div_units(mul_i64(right - left, FX_ONE), canvas_width);
    let left_off: i64 = sat_div_units(mul_i64(2 * left, FX_ONE), canvas_width);
    let bottom_off: i64 = sat_div_units(mul_i64(2 * bottom, FX_ONE), canvas_height);
    let tx: i64 = sat_units(-FX_ONE + scale_x + left_off);
    let ty: i64 = sat_units(-FX_ONE + scale + bottom_off);
    let translation = translation_matrix(tx, ty, Z_PLANE);
    let scale_m = scaling_matrix(scale, scale, 0);
    let rotation_scale = cross_multiply_matrix(&rotation, &scale_m);
    let combined = cross_multiply_matrix(&rotation_scale, &translation);
    let aspect: i64 = sat_div_units(mul_i64(canvas_width, FX_ONE), canvas_height);
    let half_fov: i64 = div_round_to_zero(fov, 2);
    proof {
        crate::fixed::lemma_div_tz_bound(fov as int, 2, ANGLE_LIMIT as int);
    }
    let cf: i64 = fx_cos(half_fov);
    let sf: i64 = fx_sin(half_fov);
    proof {
        lemma_abs_mul_bound(cf as int, FX_ONE as int, FX_ONE as int, FX_ONE as int);
    }
    let f: i64 = sat_div_units(mul_i64(cf, FX_ONE), sf);
    proof {
        lemma_abs_mul_bound(f as int, FX_ONE as int, FX_MAX as int, FX_ONE as int);
        lemma_abs_mul_bound(z_far as int + z_near, FX_ONE as int, 2 * FX_MAX, FX_ONE as int);
        lemma_abs_mul_bound(z_near as int, z_far as int, FX_MAX as int, FX_MAX as int);
    }
    let p0: i64 = sat_div_units(mul_i64(f, FX_ONE), aspect);
    let p10: i64 = sat_div_units(mul_i64(z_far + z_near, FX_ONE), z_near - z_far);
    let p14: i64 = sat_div_units(2 * mul_i64(z_near, z_far), z_near - z_far);
    let perspective = perspective_matrix(p0, f, p10, p14);
    proof {
        assert(2 * ((z_near as int) * (z_far as int)) == 2 * (z_near as int) * (z_far as int))
            by (nonlinear_arith);
        assert(p0 as int == sat_div((f as int) * FX_ONE, aspect as int));
        assert(p10 as int == sat_div(
            ((z_far as int) + (z_near as int)) * FX_ONE,
            (z_near as int) - (z_far as int),
        ));
        assert(p14 as int == sat_div(
            2 * (z_near as int) * (z_far as int),
            (z_near as int) - (z_far as int),
        ));
        assert(perspective@ =~= perspective_spec(
            aspect as int,
            f as int,
            z_near as int,
            z_far as int,
        ));
        assert(aspect as int == aspect_spec(canvas_width as int, canvas_height as int));
        assert(f as int == focal_spec(fov as int));
    }
    let projection = cross_multiply_matrix(&combined, &perspective);
    proof {
        assert(rotation@ == rotation_spec(rotation_x as int, rotation_y as int));
        assert(scale as int == viewport_scale_spec(
            bottom as int,
            top as int,
            canvas_height as int,
        ));
        assert(tx as int == ndc_offset_spec(left as int, right as int, canvas_width as int));
        assert(ty as int == ndc_offset_spec(bottom as int, top as int, canvas_height as int));
        assert(projection@ == projection_spec(
            bottom as int,
            top as int,
            left as int,
            right as int,
            canvas_height as int,
            canvas_width as int,
            rotation_x as int,
            rotation_y as int,
            fov as int,
            z_near as int,
            z_far as int,
        ));
    }
    Ok(CameraMatrices { projection, normals_rotation: rotation })
}

/// Build the scene's projection and normals-rotation matrices with the
/// fixed field of view and clip planes.
pub fn get_3d_projection_matrix_and_rotation(
    bottom: i64,
    top: i64,
    left: i64,
    right: i64,
    canvas_height: i64,
    canvas_width: i64,
    rotation_angle_x_axis: i64,
    rotation_angle_y_axis: i64,
) -> (result: Result<CameraMatrices, GraphError>)
    requires
        abs_val(bottom as int) <= FX_MAX,
        abs_val(top as int) <= FX_MAX,
        abs_val(left as int) <= FX_MAX,
        abs_val(right as int) <= FX_MAX,
        abs_val(canvas_height as int) <= FX_MAX,
        abs_val(canvas_width as int) <= FX_MAX,
        abs_val(rotation_angle_x_axis as int) <= ANGLE_LIMIT,
        abs_val(rotation_angle_y_axis as int) <= ANGLE_LIMIT,
    ensures
        result is Ok <==> (canvas_width > 0 && canvas_height > 0),
        result matches Ok(cm) ==> {
            &&& cm.normals_rotation@ == rotation_spec(
                rotation_angle_x_axis as int,
                rotation_angle_y_axis as int,
            )
            &&& entries_bounded(cm.normals_rotation@)
            &&& cm.projection@ == projection_spec(
                bottom as int,
                top as int,
                left as int,
                right as int,
                canvas_height as int,
                canvas_width as int,
                rotation_angle_x_axis as int,
                rotation_angle_y_axis as int,
                FIELD_OF_VIEW as int,
                Z_NEAR as int,
                Z_FAR as int,
            )
            &&& entries_bounded(cm.projection@)
        },
        result is Err ==> result->Err_0 == GraphError::InvalidDimension,
{
    build_camera_transform(
        bottom,
        top,
        left,
        right,
        canvas_height,
        canvas_width,
        rotation_angle_x_axis,
        rotation_angle_y_axis,
        FIELD_OF_VIEW,
        Z_NEAR,
        Z_FAR,
    )
}

/// Build only the combined projection matrix with the fixed field of view
/// and clip planes.
pub fn get_3d_projection_matrix(
    bottom: i64,
    top: i64,
    left: i64,
    right: i64,
    canvas_height: i64,
    canvas_width: i64,
    rotation_angle_x_axis: i64,
    rotation_angle_y_axis: i64,
) -> (result: Result<Transform, GraphError>)
    requires
        abs_val(bottom as int) <= FX_MAX,
        abs_val(top as int) <= FX_MAX,
        abs_val(left as int) <= FX_MAX,
        abs_val(right as int) <= FX_MAX,
        abs_val(canvas_height as int) <= FX_MAX,
        abs_val(canvas_width as int) <= FX_MAX,
        abs_val(rotation_angle_x_axis as int) <= ANGLE_LIMIT,
        abs_val(rotation_angle_y_axis as int) <= ANGLE_LIMIT,
    ensures
        result is Ok <==> (canvas_width > 0 && canvas_height > 0),
        result matches Ok(p) ==> {
            &&& p@ == projection_spec(
                bottom as int,
                top as int,
                left as int,
                right as int,
                canvas_height as int,
                canvas_width as int,
                rotation_angle_x_axis as int,
                rotation_angle_y_axis as int,
                FIELD_OF_VIEW as int,
                Z_NEAR as int,
                Z_FAR as int,
            )
            &&& entries_bounded(p@)
        },
        result is Err ==> result->Err_0 == GraphError::InvalidDimension,
{
    match get_3d_projection_matrix_and_rotation(
        bottom,
        top,
        left,
        right,
        canvas_height,
        canvas_width,
        rotation_angle_x_axis,
        rotation_angle_y_axis,
    ) {
        Ok(cm) => Ok(cm.projection),
        Err(e) => Err(e),
    }
}

} // verus!
