use vstd::prelude::*;
use crate::vec3::{COORD_MAX, NORMAL_MAX, V3, Vec3, in_coord_range, in_normal_range};

verus! {

/// The three corners of a triangular face, as indices into the mesh's
/// vertex table.
#[derive(Clone, Copy, PartialEq, Eq, Structural, Debug)]
pub struct FaceIndices {
    pub v0: usize,
    pub v1: usize,
    pub v2: usize,
}

/// A triangulated mesh, held as plain tables: vertex positions, one
/// index triple per face, and one mesh-supplied normal per face.  It
/// stands in for the host's opaque mesh object and answers the four
/// queries the geometry needs: face count, a face's corner indices, a
/// vertex's position, and a face's normal.
pub struct Mesh {
    pub vertices: Vec<Vec3>,
    pub faces: Vec<FaceIndices>,
    pub normals: Vec<Vec3>,
}

/// The tables make a usable mesh: one normal per face, every corner
/// index inside the vertex table, every coordinate and normal within the
/// library's fixed-point budget, and table lengths that fit an `i64`
/// face or vertex id.
pub open spec fn mesh_data_ok(
    vertices: Seq<Vec3>,
    faces: Seq<FaceIndices>,
    normals: Seq<Vec3>,
) -> bool {
    &&& faces.len() == normals.len()
    &&& faces.len() <= 0x7fff_ffff_ffff_ffff
    &&& vertices.len() <= 0x7fff_ffff_ffff_ffff
    &&& forall|i: int|
        0 <= i < faces.len() ==> {
            &&& (#[trigger] faces[i]).v0 < vertices.len()
            &&& faces[i].v1 < vertices.len()
            &&& faces[i].v2 < vertices.len()
        }
    &&& forall|i: int| 0 <= i < vertices.len() ==> in_coord_range((#[trigger] vertices[i])@)
    &&& forall|i: int| 0 <= i < normals.len() ==> in_normal_range((#[trigger] normals[i])@)
}

impl Mesh {
    pub open spec fn wf(self) -> bool {
        mesh_data_ok(self.vertices@, self.faces@, self.normals@)
    }

    /// Vertex id of one corner (0, 1 or 2) of face `i`.
    pub open spec fn corner(self, i: int, c: int) -> int {
        if c == 0 {
            self.faces@[i].v0 as int
        } else if c == 1 {
            self.faces@[i].v1 as int
        } else {
            self.faces@[i].v2 as int
        }
    }

    pub open spec fn vertex_at(self, k: int) -> V3 {
        self.vertices@[k]@
    }

    /// Position of one corner of face `i`.
    pub open spec fn corner_pos(self, i: int, c: int) -> V3 {
        self.vertex_at(self.corner(i, c))
    }

    pub open spec fn normal_at(self, i: int) -> V3 {
        self.normals@[i]@
    }

    /// Builds a mesh after checking every condition of `mesh_data_ok`,
    /// so a host needs no ghost knowledge to obtain a well-formed mesh.
    pub fn new(vertices: Vec<Vec3>, faces: Vec<FaceIndices>, normals: Vec<Vec3>) -> (r: Option<
        Mesh,
    >)
        ensures
            r is Some <==> mesh_data_ok(vertices@, faces@, normals@),
            r matches Some(m) ==> {
                &&& m.vertices@ == vertices@
                &&& m.faces@ == faces@
                &&& m.normals@ == normals@
                &&& m.wf()
            },
    {
        if faces.len() != normals.len() {
            return None;
        }
        if faces.len() as u64 > 0x7fff_ffff_ffff_ffff || vertices.len() as u64
            > 0x7fff_ffff_ffff_ffff {
            return None;
        }
        let mut i: usize = 0;
        while i < faces.len()
            invariant
                i <= faces.len(),
                forall|j: int|
                    0 <= j < i ==> {
                        &&& (#[trigger] faces@[j]).v0 < vertices@.len()
                        &&& faces@[j].v1 < vertices@.len()
                        &&& faces@[j].v2 < vertices@.len()
                    },
            decreases faces.len() - i,
        {
            let f = faces[i];
            if f.v0 >= vertices.len() || f.v1 >= vertices.len() || f.v2 >= vertices.len() {
                return None;
            }
            i = i + 1;
        }
        let mut i: usize = 0;
        while i < vertices.len()
            invariant
                i <= vertices.len(),
                forall|j: int| 0 <= j < i ==> in_coord_range((#[trigger] vertices@[j])@),
            decreases vertices.len() - i,
        {
            let v = vertices[i];
            if v.x < -COORD_MAX || v.x > COORD_MAX || v.y < -COORD_MAX || v.y > COORD_MAX || v.z
                < -COORD_MAX || v.z > COORD_MAX {
                return None;
            }
            i = i + 1;
        }
        let mut i: usize = 0;
        while i < normals.len()
            invariant
                i <= normals.len(),
                forall|j: int| 0 <= j < i ==> in_normal_range((#[trigger] normals@[j])@),
            decreases normals.len() - i,
        {
            let n = normals[i];
            if n.x < -NORMAL_MAX || n.x > NORMAL_MAX || n.y < -NORMAL_MAX || n.y > NORMAL_MAX
                || n.z < -NORMAL_MAX || n.z > NORMAL_MAX {
                return None;
            }
            if n.x == 0 && n.y == 0 && n.z == 0 {
                return None;
            }
            i = i + 1;
        }
        Some(Mesh { vertices, faces, normals })
    }

    /// How many faces the mesh holds.
    pub fn face_count(&self) -> (n: i64)
        requires
            self.wf(),
        ensures
            n == self.faces@.len(),
    {
        self.faces.len() as i64
    }

    /// Vertex id of corner `corner` (0, 1 or 2) of face `face_index`.
    pub fn face_vertex(&self, face_index: i64, corner: i64) -> (v: i64)
        requires
            self.wf(),
            0 <= face_index < self.faces@.len(),
            0 <= corner < 3,
        ensures
            v == self.corner(face_index as int, corner as int),
            0 <= v < self.vertices@.len(),
    {
        let count: usize = self.faces.len();
        assert(face_index < count);
        let f = self.faces[face_index as usize];
        if corner == 0 {
            f.v0 as i64
        } else if corner == 1 {
            f.v1 as i64
        } else {
            f.v2 as i64
        }
    }

    /// Position of vertex `vertex_index`.
    pub fn vertex_position(&self, vertex_index: i64) -> (p: Vec3)
        requires
            self.wf(),
            0 <= vertex_index < self.vertices@.len(),
        ensures
            p@ == self.vertex_at(vertex_index as int),
            in_coord_range(p@),
    {
        let count: usize = self.vertices.len();
        assert(vertex_index < count);
        self.vertices[vertex_index as usize]
    }

    /// The mesh-supplied normal of face `face_index`.
    pub fn face_normal(&self, face_index: i64) -> (nv: Vec3)
        requires
            self.wf(),
            0 <= face_index < self.faces@.len(),
        ensures
            nv@ == self.normal_at(face_index as int),
            in_normal_range(nv@),
    {
        let count: usize = self.normals.len();
        assert(face_index < count);
        self.normals[face_index as usize]
    }
}

} // verus!
