//! Geometry for ground snapping against a triangulated mesh.
//!
//! The library answers, for a point in a mesh's local space, which
//! triangular face the point lies within (a barycentric containment test
//! with a fixed plane-side slack), which face's centroid is nearest, and
//! which containing face is nearest — the "standing face".
//!
//! All coordinates are exact fixed-point integers, a thousand counts per
//! world unit, so every comparison the contracts speak of is decided
//! exactly rather than approximately.

pub mod geom;
pub mod helper;
pub mod mesh;
pub mod vec3;

pub use helper::FaceData;
pub use helper::FaceHelper;
pub use mesh::FaceIndices;
pub use mesh::Mesh;
pub use vec3::Vec3;
