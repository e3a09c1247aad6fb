use ripple_grid::GraphError;
use ripple_grid::grid::get_position_grid_n_by_n;

const ONE: i64 = 65536;

#[test]
fn grid_counts_and_index_bounds() {
    // (n+1)^2 positions and 6 n^2 indices, every index below (n+1)^2.
    for n in [1usize, 2, 3, 7, 100] {
        let mesh = get_position_grid_n_by_n(n).unwrap();
        let verts = (n + 1) * (n + 1);
        assert_eq!(mesh.positions.len(), 3 * verts);
        assert_eq!(mesh.indices.len(), 6 * n * n);
        for &ix in mesh.indices.iter() {
            assert!((ix as usize) < verts);
        }
    }
}

#[test]
fn grid_unit_square() {
    // n = 1: the four corners of [-1, 1]^2 in order, and two CCW triangles.
    let mesh = get_position_grid_n_by_n(1).unwrap();
    assert_eq!(
        mesh.positions,
        vec![-ONE, 0, -ONE, ONE, 0, -ONE, -ONE, 0, ONE, ONE, 0, ONE]
    );
    assert_eq!(mesh.indices, vec![0, 2, 3, 0, 3, 1]);
}

#[test]
fn grid_two_by_two_layout() {
    // n = 2: spacing is exactly one unit; check a few lattice points and
    // the second cell's triangles.
    let mesh = get_position_grid_n_by_n(2).unwrap();
    assert_eq!(mesh.positions.len(), 27);
    // vertex 4 is the center (row 1, col 1): (0, 0, 0)
    assert_eq!(&mesh.positions[12..15], &[0, 0, 0]);
    // vertex 5 is (row 1, col 2): (1, 0, 0)
    assert_eq!(&mesh.positions[15..18], &[ONE, 0, 0]);
    // cell (0, 1): top_left = 1, bottom_left = 4, bottom_right = 5, top_right = 2
    assert_eq!(&mesh.indices[6..12], &[1, 4, 5, 1, 5, 2]);
}

#[test]
fn grid_rejects_bad_resolutions() {
    assert_eq!(get_position_grid_n_by_n(0).unwrap_err(), GraphError::InvalidDimension);
    assert_eq!(get_position_grid_n_by_n(256).unwrap_err(), GraphError::InvalidDimension);
    assert!(get_position_grid_n_by_n(255).is_ok());
}
