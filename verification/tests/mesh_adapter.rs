use face_helper::{FaceIndices, Mesh, Vec3};

fn v(x: i64, y: i64, z: i64) -> Vec3 {
    Vec3 { x, y, z }
}

fn f(v0: usize, v1: usize, v2: usize) -> FaceIndices {
    FaceIndices { v0, v1, v2 }
}

#[test]
fn mesh_new_accepts_valid_tables() {
    let mesh = Mesh::new(
        vec![v(0, 0, 0), v(1000, 0, 0), v(0, 1000, 0)],
        vec![f(0, 1, 2)],
        vec![v(0, 0, 1)],
    );
    assert!(mesh.is_some());
}

#[test]
fn mesh_new_rejects_mismatched_normal_table() {
    let mesh = Mesh::new(
        vec![v(0, 0, 0), v(1000, 0, 0), v(0, 1000, 0)],
        vec![f(0, 1, 2)],
        vec![],
    );
    assert!(mesh.is_none());
}

#[test]
fn mesh_new_rejects_corner_index_out_of_range() {
    let mesh = Mesh::new(
        vec![v(0, 0, 0), v(1000, 0, 0), v(0, 1000, 0)],
        vec![f(0, 1, 3)],
        vec![v(0, 0, 1)],
    );
    assert!(mesh.is_none());
}

#[test]
fn mesh_new_rejects_coordinate_out_of_range() {
    let mesh = Mesh::new(
        vec![v(0, 0, 0), v(100_000_001, 0, 0), v(0, 1000, 0)],
        vec![f(0, 1, 2)],
        vec![v(0, 0, 1)],
    );
    assert!(mesh.is_none());
}

#[test]
fn mesh_new_rejects_zero_normal() {
    let mesh = Mesh::new(
        vec![v(0, 0, 0), v(1000, 0, 0), v(0, 1000, 0)],
        vec![f(0, 1, 2)],
        vec![v(0, 0, 0)],
    );
    assert!(mesh.is_none());
}

#[test]
fn mesh_new_rejects_oversized_normal() {
    let mesh = Mesh::new(
        vec![v(0, 0, 0), v(1000, 0, 0), v(0, 1000, 0)],
        vec![f(0, 1, 2)],
        vec![v(0, 0, 1_000_001)],
    );
    assert!(mesh.is_none());
}

#[test]
fn mesh_queries_return_the_tables() {
    let mesh = Mesh::new(
        vec![v(0, 0, 0), v(1000, 0, 0), v(0, 1000, 0), v(7, 8, 9)],
        vec![f(0, 1, 2), f(1, 2, 3)],
        vec![v(0, 0, 1), v(5, 0, 5)],
    )
    .unwrap();
    assert_eq!(mesh.face_count(), 2);
    assert_eq!(mesh.face_vertex(0, 0), 0);
    assert_eq!(mesh.face_vertex(0, 1), 1);
    assert_eq!(mesh.face_vertex(0, 2), 2);
    assert_eq!(mesh.face_vertex(1, 2), 3);
    assert_eq!(mesh.vertex_position(3), v(7, 8, 9));
    assert_eq!(mesh.face_normal(1), v(5, 0, 5));
}
