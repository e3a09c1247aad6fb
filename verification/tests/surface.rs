use ripple_grid::GraphError;
use ripple_grid::height::evaluate_height_field;
use ripple_grid::height::get_updated_3d_y_values;
use ripple_grid::normals::get_grid_normals;

const ONE: i64 = 65536;

#[test]
fn height_field_exact_values() {
    // n = 1: only the first corner's phase misses a full turn of the
    // ripple; the other three land exactly on multiples of 2 pi.
    let h = evaluate_height_field(1, 0).unwrap();
    assert_eq!(h, vec![4248, 0, 0, 0]);

    // n = 4: first row of the ripple.
    let h = evaluate_height_field(4, 0).unwrap();
    assert_eq!(h.len(), 25);
    assert_eq!(&h[0..5], &[4249, -8574, 5722, 5722, -8574]);
}

#[test]
fn height_field_deterministic() {
    // Identical (n, t) give bit-identical output; the ripple is static,
    // so even the frame time does not perturb it.
    let a = evaluate_height_field(4, 7).unwrap();
    let b = evaluate_height_field(4, 7).unwrap();
    assert_eq!(a, b);
    let c = evaluate_height_field(4, 99).unwrap();
    assert_eq!(a, c);
}

#[test]
fn height_field_scene_resolution() {
    // The fixed-resolution entry point agrees with the general one.
    let y = get_updated_3d_y_values(42);
    assert_eq!(y.len(), 101 * 101);
    assert_eq!(y, evaluate_height_field(100, 42).unwrap());
    // center vertex and its right neighbor
    assert_eq!(y[50 * 101 + 50], 4191);
    assert_eq!(y[50 * 101 + 51], 4191);
    assert_eq!(y[0], 4250);
    // amplitude bound: |elevation| <= 0.15 units
    for &e in y.iter() {
        assert!(e.abs() <= 9830);
    }
}

#[test]
fn height_field_rejects_bad_resolutions() {
    assert_eq!(evaluate_height_field(0, 0).unwrap_err(), GraphError::InvalidDimension);
    assert_eq!(evaluate_height_field(256, 0).unwrap_err(), GraphError::InvalidDimension);
}

#[test]
fn flat_field_normals_point_up() {
    // A flat (all-zero) height field yields (0, k, 0) with k > 0 at every
    // vertex, and the same k everywhere.
    let zeros = vec![0i64; 9];
    let ns = get_grid_normals(2, &zeros).unwrap();
    assert_eq!(ns.len(), 27);
    let k = ns[1];
    assert!(k > 0);
    for v in 0..9 {
        assert_eq!(ns[3 * v], 0);
        assert_eq!(ns[3 * v + 1], k);
        assert_eq!(ns[3 * v + 2], 0);
    }
    // n = 2 has spacing of exactly one unit, so k is one unit squared.
    assert_eq!(k, ONE);
}

#[test]
fn normals_tilt_against_slope() {
    // n = 1 with a single raised corner (vertex 1): the cross products
    // tilt away from the slope; spacing is two units so y = spacing^2.
    let y = vec![0i64, 9830, 0, 0];
    let ns = get_grid_normals(1, &y).unwrap();
    assert_eq!(
        ns,
        vec![
            -19660, 262144, 0, //
            -19660, 262144, 19660, //
            0, 262144, 0, //
            0, 262144, 19660,
        ]
    );
}

#[test]
fn normals_reject_bad_inputs() {
    let zeros = vec![0i64; 9];
    assert_eq!(get_grid_normals(0, &zeros).unwrap_err(), GraphError::InvalidDimension);
    // length must be exactly (n+1)^2
    assert_eq!(get_grid_normals(3, &zeros).unwrap_err(), GraphError::InvalidDimension);
}
