use ripple_grid::GraphError;
use ripple_grid::camera::build_camera_transform;
use ripple_grid::camera::get_3d_projection_matrix;
use ripple_grid::camera::get_3d_projection_matrix_and_rotation;
use ripple_grid::constants::FIELD_OF_VIEW;
use ripple_grid::constants::Z_FAR;
use ripple_grid::constants::Z_NEAR;
use ripple_grid::matrix::Transform;
use ripple_grid::matrix::cross_multiply_matrix;
use ripple_grid::matrix::scaling_matrix;
use ripple_grid::matrix::translation_matrix;
use ripple_grid::overlay::build_rect_transform;
use ripple_grid::trig::HALF_PI_UNITS;
use ripple_grid::trig::PI_UNITS;
use ripple_grid::trig::fx_cos;
use ripple_grid::trig::fx_sin;

const ONE: i64 = 65536;

fn entries(t: &Transform) -> Vec<i64> {
    (0..16usize).map(|i| t.entry(i)).collect()
}

#[test]
fn translation_and_scaling_layout() {
    let t = translation_matrix(123, -456, 789);
    assert_eq!(
        entries(&t),
        vec![ONE, 0, 0, 0, 0, ONE, 0, 0, 0, 0, ONE, 0, 123, -456, 789, ONE]
    );
    let s = scaling_matrix(2 * ONE, 3 * ONE, -ONE);
    assert_eq!(
        entries(&s),
        vec![2 * ONE, 0, 0, 0, 0, 3 * ONE, 0, 0, 0, 0, -ONE, 0, 0, 0, 0, ONE]
    );
}

#[test]
fn compose_identity_is_neutral() {
    // The identity (translation by zero, equally unit scale) is neutral on
    // either side of the composition.
    let identity = translation_matrix(0, 0, 0);
    let m = cross_multiply_matrix(
        &translation_matrix(12345, -23456, 777),
        &scaling_matrix(ONE / 2, -3 * ONE, 5 * ONE),
    );
    let left = cross_multiply_matrix(&identity, &m);
    let right = cross_multiply_matrix(&m, &identity);
    assert_eq!(entries(&left), entries(&m));
    assert_eq!(entries(&right), entries(&m));
    // and the unit-scale form is the same identity
    assert_eq!(entries(&identity), entries(&scaling_matrix(ONE, ONE, ONE)));
}

#[test]
fn compose_applies_scale_then_translation() {
    // Row-vector convention: scaling first, then translating leaves the
    // translation untouched in the last row.
    let s = scaling_matrix(2 * ONE, 2 * ONE, 2 * ONE);
    let t = translation_matrix(10 * ONE, 0, 0);
    let st = cross_multiply_matrix(&s, &t);
    assert_eq!(
        entries(&st),
        vec![2 * ONE, 0, 0, 0, 0, 2 * ONE, 0, 0, 0, 0, 2 * ONE, 0, 10 * ONE, 0, 0, ONE]
    );
    // the other order scales the translation too
    let ts = cross_multiply_matrix(&t, &s);
    assert_eq!(
        entries(&ts),
        vec![2 * ONE, 0, 0, 0, 0, 2 * ONE, 0, 0, 0, 0, 2 * ONE, 0, 20 * ONE, 0, 0, ONE]
    );
}

#[test]
fn sine_and_cosine_samples() {
    assert_eq!(fx_sin(0), 0);
    assert_eq!(fx_cos(0), ONE);
    assert_eq!(fx_sin(HALF_PI_UNITS), ONE);
    assert_eq!(fx_sin(PI_UNITS), 0);
    assert_eq!(fx_cos(HALF_PI_UNITS), 0);
    assert_eq!(fx_sin(PI_UNITS + HALF_PI_UNITS), -ONE);
    assert_eq!(fx_sin(-HALF_PI_UNITS), -ONE);
    // one radian, within the approximation's tolerance of the real sine
    assert_eq!(fx_sin(ONE), 55064);
    // periodicity
    assert_eq!(fx_sin(ONE + 2 * PI_UNITS), fx_sin(ONE));
    assert_eq!(fx_sin(ONE - 2 * PI_UNITS), fx_sin(ONE));
}

#[test]
fn camera_zero_rotation_gives_identity_normals_matrix() {
    // viewport (0, 300, 0, 300) on a 300 x 300 canvas, no rotation,
    // 45-degree field of view: the normals matrix is exactly the identity.
    let c = 300 * ONE;
    let cm = build_camera_transform(0, c, 0, c, c, c, 0, 0, FIELD_OF_VIEW, Z_NEAR, Z_FAR)
        .unwrap();
    assert_eq!(
        entries(&cm.normals_rotation),
        vec![ONE, 0, 0, 0, 0, ONE, 0, 0, 0, 0, ONE, 0, 0, 0, 0, ONE]
    );
    // the full projection for the same frame, entry for entry
    assert_eq!(
        entries(&cm.projection),
        vec![157717, 0, 0, 0, 0, 157717, 0, 0, 0, 0, 0, 0, 0, 0, 145413, 158218]
    );
    // the fixed-configuration entry points agree
    let cm2 = get_3d_projection_matrix_and_rotation(0, c, 0, c, c, c, 0, 0).unwrap();
    assert_eq!(entries(&cm2.projection), entries(&cm.projection));
    assert_eq!(entries(&cm2.normals_rotation), entries(&cm.normals_rotation));
    let p = get_3d_projection_matrix(0, c, 0, c, c, c, 0, 0).unwrap();
    assert_eq!(entries(&p), entries(&cm.projection));
}

#[test]
fn camera_quarter_turn_rotation() {
    // A quarter turn about x: cos 0, sin 1.
    let c = 300 * ONE;
    let cm = get_3d_projection_matrix_and_rotation(0, c, 0, c, c, c, HALF_PI_UNITS, 0).unwrap();
    assert_eq!(
        entries(&cm.normals_rotation),
        vec![ONE, 0, 0, 0, 0, 0, -ONE, 0, 0, ONE, 0, 0, 0, 0, 0, ONE]
    );
}

#[test]
fn camera_rejects_degenerate_canvas() {
    // A zero or negative canvas dimension is an invalid-dimension error,
    // never a silently non-finite matrix.
    let c = 300 * ONE;
    assert_eq!(
        build_camera_transform(0, c, 0, c, c, 0, 0, 0, FIELD_OF_VIEW, Z_NEAR, Z_FAR).unwrap_err(),
        GraphError::InvalidDimension
    );
    assert_eq!(
        build_camera_transform(0, c, 0, c, 0, c, 0, 0, FIELD_OF_VIEW, Z_NEAR, Z_FAR).unwrap_err(),
        GraphError::InvalidDimension
    );
    assert_eq!(
        get_3d_projection_matrix_and_rotation(0, c, 0, c, -c, c, 0, 0).unwrap_err(),
        GraphError::InvalidDimension
    );
    assert_eq!(
        get_3d_projection_matrix(0, c, 0, c, c, 0, 0, 0).unwrap_err(),
        GraphError::InvalidDimension
    );
}

#[test]
fn camera_tolerates_degenerate_clip_planes() {
    // near == far is not an error: it yields a well-defined (if useless)
    // matrix by the division-by-zero-is-zero convention.
    let c = 300 * ONE;
    assert!(build_camera_transform(0, c, 0, c, c, c, 0, 0, FIELD_OF_VIEW, Z_NEAR, Z_NEAR).is_ok());
}

#[test]
fn overlay_rect_transform() {
    // viewport (bottom 20, top 120, left 30, right 180) on a 400 x 300
    // canvas: scale 2*150/400 and 2*100/300, corner offsets 2*30/400 - 1
    // and 2*20/300 - 1.
    let t = build_rect_transform(20 * ONE, 120 * ONE, 30 * ONE, 180 * ONE, 300 * ONE, 400 * ONE)
        .unwrap();
    assert_eq!(
        entries(&t),
        vec![49152, 0, 0, 0, 0, 43690, 0, 0, 0, 0, 0, 0, -55706, -56798, 0, ONE]
    );
    assert_eq!(
        build_rect_transform(0, ONE, 0, ONE, 0, 400 * ONE).unwrap_err(),
        GraphError::InvalidDimension
    );
}
