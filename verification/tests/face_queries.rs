use face_helper::{FaceData, FaceHelper, FaceIndices, Mesh, Vec3};

fn v(x: i64, y: i64, z: i64) -> Vec3 {
    Vec3 { x, y, z }
}

fn f(v0: usize, v1: usize, v2: usize) -> FaceIndices {
    FaceIndices { v0, v1, v2 }
}

/// One unit right triangle in the z = 0 plane, normal +z.
/// Coordinates are in thousandths of a unit: 1000 == 1.0.
fn unit_right_triangle() -> Mesh {
    Mesh::new(
        vec![v(0, 0, 0), v(1000, 0, 0), v(0, 1000, 0)],
        vec![f(0, 1, 2)],
        vec![v(0, 0, 1)],
    )
    .unwrap()
}

#[test]
fn interior_point_is_inside() {
    let mesh = unit_right_triangle();
    let helper = FaceHelper;
    assert!(helper.is_inside_triangle(v(250, 250, 0), 0, &mesh));
}

#[test]
fn far_point_is_outside() {
    let mesh = unit_right_triangle();
    let helper = FaceHelper;
    assert!(!helper.is_inside_triangle(v(2000, 2000, 0), 0, &mesh));
    assert!(!helper.is_inside_triangle(v(100_000_000, 100_000_000, 0), 0, &mesh));
}

#[test]
fn classification_is_repeatable() {
    let mesh = unit_right_triangle();
    let helper = FaceHelper;
    for q in [v(250, 250, 0), v(2000, 2000, 0), v(-10, 500, 0)] {
        let first = helper.is_inside_triangle(q, 0, &mesh);
        let second = helper.is_inside_triangle(q, 0, &mesh);
        assert_eq!(first, second);
    }
}

#[test]
fn plane_slack_is_asymmetric() {
    let mesh = unit_right_triangle();
    let helper = FaceHelper;
    // 0.05 units below the plane along the normal is tolerated...
    assert!(helper.is_inside_triangle(v(250, 250, -50), 0, &mesh));
    // ...0.2 units below is rejected...
    assert!(!helper.is_inside_triangle(v(250, 250, -200), 0, &mesh));
    // ...while any height above the plane stays "above".
    assert!(helper.is_inside_triangle(v(250, 250, 5000), 0, &mesh));
}

#[test]
fn barycentric_band_is_exact() {
    let mesh = unit_right_triangle();
    let helper = FaceHelper;
    // One weight exactly at -1/100: still inside (the band is closed).
    assert!(helper.is_inside_triangle(v(-10, 500, 0), 0, &mesh));
    // One weight at -11/1000: outside.
    assert!(!helper.is_inside_triangle(v(-11, 500, 0), 0, &mesh));
}

#[test]
fn plane_side_follows_mesh_normal() {
    // Same triangle, but the mesh hands out a flipped normal: "below"
    // now points toward +z.
    let mesh = Mesh::new(
        vec![v(0, 0, 0), v(1000, 0, 0), v(0, 1000, 0)],
        vec![f(0, 1, 2)],
        vec![v(0, 0, -1)],
    )
    .unwrap();
    let helper = FaceHelper;
    assert!(helper.is_inside_triangle(v(250, 250, 50), 0, &mesh));
    assert!(!helper.is_inside_triangle(v(250, 250, 200), 0, &mesh));
}

#[test]
fn degenerate_face_contains_nothing() {
    let mesh = Mesh::new(
        vec![v(0, 0, 0), v(500, 0, 0), v(1000, 0, 0)],
        vec![f(0, 1, 2)],
        vec![v(0, 0, 1)],
    )
    .unwrap();
    let helper = FaceHelper;
    assert!(!helper.is_inside_triangle(v(500, 0, 0), 0, &mesh));
    assert!(!helper.is_inside_triangle(v(0, 0, 0), 0, &mesh));
}

#[test]
fn face_position_is_vertex_mean() {
    let mesh = Mesh::new(
        vec![v(0, 0, 0), v(3000, 0, 0), v(0, 3000, 300)],
        vec![f(0, 1, 2)],
        vec![v(0, 0, 1)],
    )
    .unwrap();
    let helper = FaceHelper;
    assert_eq!(helper.get_face_position(0, &mesh), v(1000, 1000, 100));
}

#[test]
fn face_position_rounds_toward_zero() {
    let mesh = Mesh::new(
        vec![v(0, 0, 0), v(1, 0, 0), v(1, -1, 0), v(-1, 0, 0), v(-1, 1, 0)],
        vec![f(0, 1, 2), f(0, 3, 4)],
        vec![v(0, 0, 1), v(0, 0, 1)],
    )
    .unwrap();
    let helper = FaceHelper;
    // Sums (2, -1, 0) and (-2, 1, 0): each component rounds toward zero.
    assert_eq!(helper.get_face_position(0, &mesh), v(0, 0, 0));
    assert_eq!(helper.get_face_position(1, &mesh), v(0, 0, 0));
}

/// Two triangles with centroids at (-3, 0, 0) and (3, 0, 0).
fn two_centroid_mesh() -> Mesh {
    Mesh::new(
        vec![
            v(-2000, 0, 0),
            v(-4000, -1000, 0),
            v(-3000, 1000, 0),
            v(2000, 0, 0),
            v(4000, -1000, 0),
            v(3000, 1000, 0),
        ],
        vec![f(0, 1, 2), f(3, 4, 5)],
        vec![v(0, 0, 1), v(0, 0, 1)],
    )
    .unwrap()
}

#[test]
fn closest_face_minimizes_centroid_distance() {
    let mesh = two_centroid_mesh();
    let helper = FaceHelper;
    let near_right = helper.get_closest_face(v(2500, 100, 0), &mesh);
    assert_eq!(near_right.index, 1);
    assert_eq!(near_right.position, helper.get_face_position(1, &mesh));
    let near_left = helper.get_closest_face(v(-2500, -100, 0), &mesh);
    assert_eq!(near_left.index, 0);
    assert_eq!(near_left.position, helper.get_face_position(0, &mesh));
}

#[test]
fn closest_face_tie_takes_lowest_index() {
    let mesh = two_centroid_mesh();
    let helper = FaceHelper;
    // (0, 0, 0) is exactly equidistant from both centroids.
    let result = helper.get_closest_face(v(0, 0, 0), &mesh);
    assert_eq!(result.index, 0);
    assert_eq!(result.position, v(-3000, 0, 0));
}

#[test]
fn closest_face_single_face() {
    let mesh = unit_right_triangle();
    let helper = FaceHelper;
    let result = helper.get_closest_face(v(90_000, -500, 77), &mesh);
    assert_eq!(result.index, 0);
    assert_eq!(result.position, v(333, 333, 0));
}

#[test]
fn standing_face_unique_containing_face() {
    // Face 0 is under the query point; face 1 is far away.
    let mesh = Mesh::new(
        vec![
            v(0, 0, 0),
            v(1000, 0, 0),
            v(0, 1000, 0),
            v(50_000, 0, 0),
            v(51_000, 0, 0),
            v(50_000, 1000, 0),
        ],
        vec![f(0, 1, 2), f(3, 4, 5)],
        vec![v(0, 0, 1), v(0, 0, 1)],
    )
    .unwrap();
    let helper = FaceHelper;
    let result = helper.get_standing_face(v(250, 250, 0), &mesh);
    assert_eq!(result.index, 0);
    assert_eq!(result.position, v(333, 333, 0));
}

#[test]
fn standing_face_none_returns_sentinel() {
    let mesh = unit_right_triangle();
    let helper = FaceHelper;
    let result = helper.get_standing_face(v(20_000, 20_000, 0), &mesh);
    assert_eq!(result, FaceData { index: -1, position: v(0, 0, 0) });
}

#[test]
fn standing_face_empty_mesh_returns_sentinel() {
    let mesh = Mesh::new(vec![], vec![], vec![]).unwrap();
    let helper = FaceHelper;
    let result = helper.get_standing_face(v(0, 0, 0), &mesh);
    assert_eq!(result, FaceData { index: -1, position: v(0, 0, 0) });
}

#[test]
fn standing_face_overlap_takes_nearer_centroid() {
    // Two coplanar triangles sharing the edge from (1, 0) to (0, 1).
    // The query point sits on that edge, so both faces contain it; the
    // second face's centroid is nearer.
    let mesh = Mesh::new(
        vec![v(0, 0, 0), v(1000, 0, 0), v(0, 1000, 0), v(600, 600, 0)],
        vec![f(0, 1, 2), f(1, 2, 3)],
        vec![v(0, 0, 1), v(0, 0, 1)],
    )
    .unwrap();
    let helper = FaceHelper;
    assert!(helper.is_inside_triangle(v(500, 500, 0), 0, &mesh));
    assert!(helper.is_inside_triangle(v(500, 500, 0), 1, &mesh));
    let result = helper.get_standing_face(v(500, 500, 0), &mesh);
    assert_eq!(result.index, 1);
    assert_eq!(result.position, helper.get_face_position(1, &mesh));
}
