use vstd::prelude::*;
use crate::geom::{centroid_dist_sq9, div3, face_centroid, face_contains, face_dist9,
    triangle_contains};
use crate::mesh::Mesh;
use crate::vec3::{Vec3, in_coord_range, origin};

verus! {

/// Result of a face search: the winning face's id and its centroid, or
/// the sentinel `index == -1` with the origin when no face qualifies.
#[derive(Clone, Copy, PartialEq, Eq, Structural, Debug)]
pub struct FaceData {
    pub index: i64,
    pub position: Vec3,
}

/// The query surface of the library: point-in-face classification,
/// nearest face by centroid, standing face, and face centroid lookup,
/// all against a borrowed mesh.
pub struct FaceHelper;

/// The three corner positions of face `face_index`.
fn face_corner_positions(mesh: &Mesh, face_index: i64) -> (r: (Vec3, Vec3, Vec3))
    requires
        mesh.wf(),
        0 <= face_index < mesh.faces@.len(),
    ensures
        r.0@ == mesh.corner_pos(face_index as int, 0),
        r.1@ == mesh.corner_pos(face_index as int, 1),
        r.2@ == mesh.corner_pos(face_index as int, 2),
        in_coord_range(r.0@),
        in_coord_range(r.1@),
        in_coord_range(r.2@),
{
    let p1 = mesh.vertex_position(mesh.face_vertex(face_index, 0));
    let p2 = mesh.vertex_position(mesh.face_vertex(face_index, 1));
    let p3 = mesh.vertex_position(mesh.face_vertex(face_index, 2));
    (p1, p2, p3)
}

/// Division by three rounding toward zero.
fn div3_i64(s: i64) -> (r: i64)
    requires
        -300_000_000 <= s <= 300_000_000,
    ensures
        r == div3(s as int),
        -100_000_000 <= r <= 100_000_000,
{
    if s >= 0 {
        ((s as u64) / 3) as i64
    } else {
        -((((-s) as u64) / 3) as i64)
    }
}

impl FaceHelper {
    /// Whether `point` lies within face `face_index`: not more than a
    /// tenth of a unit below the face's plane, and inside the triangle
    /// by barycentric weights with a hundredth of slack.  False for a
    /// degenerate (zero-area) face.
    pub fn is_inside_triangle(&self, point: Vec3, face_index: i64, mesh: &Mesh) -> (r: bool)
        requires
            mesh.wf(),
            0 <= face_index < mesh.faces@.len(),
            in_coord_range(point@),
        ensures
            r == face_contains(*mesh, face_index as int, point@),
    {
        let (p1, p2, p3) = face_corner_positions(mesh, face_index);
        let m = mesh.face_normal(face_index);
        triangle_contains(point, p1, p2, p3, m)
    }

    /// The centroid of face `face_index`: the arithmetic mean of its
    /// three corner positions, each component rounded toward zero.
    pub fn get_face_position(&self, face_index: i64, mesh: &Mesh) -> (r: Vec3)
        requires
            mesh.wf(),
            0 <= face_index < mesh.faces@.len(),
        ensures
            r@ == face_centroid(*mesh, face_index as int),
            in_coord_range(r@),
    {
        let (p1, p2, p3) = face_corner_positions(mesh, face_index);
        let sx: i64 = p1.x + p2.x + p3.x;
        let sy: i64 = p1.y + p2.y + p3.y;
        let sz: i64 = p1.z + p2.z + p3.z;
        Vec3 { x: div3_i64(sx), y: div3_i64(sy), z: div3_i64(sz) }
    }

    /// The face whose centroid lies nearest `position`, with its
    /// centroid; among equally near centroids the lowest face id wins.
    pub fn get_closest_face(&self, position: Vec3, mesh: &Mesh) -> (r: FaceData)
        requires
            mesh.wf(),
            mesh.faces@.len() >= 1,
            in_coord_range(position@),
        ensures
            0 <= r.index < mesh.faces@.len(),
            r.position@ == face_centroid(*mesh, r.index as int),
            forall|j: int|
                0 <= j < mesh.faces@.len() ==> centroid_dist_sq9(*mesh, r.index as int, position@)
                    <= #[trigger] centroid_dist_sq9(*mesh, j, position@),
            forall|j: int|
                0 <= j < r.index ==> #[trigger] centroid_dist_sq9(*mesh, j, position@)
                    > centroid_dist_sq9(*mesh, r.index as int, position@),
    {
        let count = mesh.face_count();
        let (p1, p2, p3) = face_corner_positions(mesh, 0);
        let mut best_index: i64 = 0;
        let mut best_dist: i128 = face_dist9(position, p1, p2, p3);
        let mut best_pos: Vec3 = self.get_face_position(0, mesh);
        let mut k: i64 = 1;
        while k < count
            invariant
                mesh.wf(),
                count == mesh.faces@.len(),
                in_coord_range(position@),
                1 <= k <= count,
                0 <= best_index < k,
                best_dist == centroid_dist_sq9(*mesh, best_index as int, position@),
                best_pos@ == face_centroid(*mesh, best_index as int),
                forall|j: int|
                    0 <= j < k ==> best_dist <= #[trigger] centroid_dist_sq9(*mesh, j, position@),
                forall|j: int|
                    0 <= j < best_index ==> #[trigger] centroid_dist_sq9(*mesh, j, position@)
                        > best_dist,
            decreases count - k,
        {
            let (a, b, c) = face_corner_positions(mesh, k);
            let d = face_dist9(position, a, b, c);
            if d < best_dist {
                best_index = k;
                best_dist = d;
                best_pos = self.get_face_position(k, mesh);
            }
            k = k + 1;
        }
        FaceData { index: best_index, position: best_pos }
    }

    /// Among the faces containing `position`, the one whose centroid is
    /// nearest by squared distance, ties to the lowest face id; the
    /// sentinel `{ -1, origin }` when no face contains the point.
    pub fn get_standing_face(&self, position: Vec3, mesh: &Mesh) -> (r: FaceData)
        requires
            mesh.wf(),
            in_coord_range(position@),
        ensures
            r.index == -1 || 0 <= r.index < mesh.faces@.len(),
            r.index == -1 ==> {
                &&& forall|j: int|
                    0 <= j < mesh.faces@.len() ==> !face_contains(*mesh, j, position@)
                &&& r.position@ == origin()
            },
            r.index >= 0 ==> {
                &&& face_contains(*mesh, r.index as int, position@)
                &&& r.position@ == face_centroid(*mesh, r.index as int)
                &&& forall|j: int|
                    0 <= j < mesh.faces@.len() && face_contains(*mesh, j, position@)
                        ==> centroid_dist_sq9(*mesh, r.index as int, position@)
                        <= #[trigger] centroid_dist_sq9(*mesh, j, position@)
                &&& forall|j: int|
                    0 <= j < r.index && face_contains(*mesh, j, position@)
                        ==> #[trigger] centroid_dist_sq9(*mesh, j, position@) > centroid_dist_sq9(
                        *mesh,
                        r.index as int,
                        position@,
                    )
            },
    {
        let count = mesh.face_count();
        let mut best = FaceData { index: -1, position: Vec3::zero() };
        let mut best_dist: i128 = 0;
        let mut k: i64 = 0;
        while k < count
            invariant
                mesh.wf(),
                count == mesh.faces@.len(),
                in_coord_range(position@),
                0 <= k <= count,
                best.index == -1 || 0 <= best.index < k,
                best.index == -1 ==> {
                    &&& forall|j: int| 0 <= j < k ==> !face_contains(*mesh, j, position@)
                    &&& best.position@ == origin()
                },
                best.index >= 0 ==> {
                    &&& face_contains(*mesh, best.index as int, position@)
                    &&& best.position@ == face_centroid(*mesh, best.index as int)
                    &&& best_dist == centroid_dist_sq9(*mesh, best.index as int, position@)
                    &&& forall|j: int|
                        0 <= j < k && face_contains(*mesh, j, position@) ==> best_dist
                            <= #[trigger] centroid_dist_sq9(*mesh, j, position@)
                    &&& forall|j: int|
                        0 <= j < best.index && face_contains(*mesh, j, position@)
                            ==> #[trigger] centroid_dist_sq9(*mesh, j, position@) > best_dist
                },
            decreases count - k,
        {
            if self.is_inside_triangle(position, k, mesh) {
                let (a, b, c) = face_corner_positions(mesh, k);
                let d = face_dist9(position, a, b, c);
                if best.index == -1 || d < best_dist {
                    best = FaceData { index: k, position: self.get_face_position(k, mesh) };
                    best_dist = d;
                }
            }
            k = k + 1;
        }
        best
    }
}

} // verus!
