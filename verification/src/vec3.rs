use vstd::prelude::*;

verus! {

/// Fixed-point resolution: coordinate values count thousandths of a world
/// unit, so the tolerances below (a tenth of a unit of plane slack, a
/// hundredth of barycentric slack) are exact integers.
pub const SCALE: i64 = 1000;

/// Largest coordinate magnitude a mesh vertex or query point may carry.
/// Keeps every intermediate product of the containment test well inside
/// the range of `i128`.
pub const COORD_MAX: i64 = 100_000_000;

/// Largest component magnitude of a mesh-supplied face normal.
pub const NORMAL_MAX: i64 = 1_000_000;

/// A position or direction in the mesh's local space, in fixed-point
/// thousandths of a world unit.
#[derive(Clone, Copy, PartialEq, Eq, Structural, Debug)]
pub struct Vec3 {
    pub x: i64,
    pub y: i64,
    pub z: i64,
}

/// Mathematical model of a vector: three unbounded integers.
pub ghost struct V3 {
    pub x: int,
    pub y: int,
    pub z: int,
}

impl View for Vec3 {
    type V = V3;

    open spec fn view(&self) -> V3 {
        V3 { x: self.x as int, y: self.y as int, z: self.z as int }
    }
}

pub open spec fn origin() -> V3 {
    V3 { x: 0, y: 0, z: 0 }
}

impl V3 {
    pub open spec fn plus(self, o: V3) -> V3 {
        V3 { x: self.x + o.x, y: self.y + o.y, z: self.z + o.z }
    }

    pub open spec fn minus(self, o: V3) -> V3 {
        V3 { x: self.x - o.x, y: self.y - o.y, z: self.z - o.z }
    }

    pub open spec fn times(self, k: int) -> V3 {
        V3 { x: k * self.x, y: k * self.y, z: k * self.z }
    }

    pub open spec fn dot(self, o: V3) -> int {
        self.x * o.x + self.y * o.y + self.z * o.z
    }

    pub open spec fn cross(self, o: V3) -> V3 {
        V3 {
            x: self.y * o.z - self.z * o.y,
            y: self.z * o.x - self.x * o.z,
            z: self.x * o.y - self.y * o.x,
        }
    }

    pub open spec fn norm_sq(self) -> int {
        self.dot(self)
    }
}

/// Every component within the coordinate budget of the library.
pub open spec fn in_coord_range(v: V3) -> bool {
    &&& -COORD_MAX <= v.x <= COORD_MAX
    &&& -COORD_MAX <= v.y <= COORD_MAX
    &&& -COORD_MAX <= v.z <= COORD_MAX
}

/// Every component within the budget for mesh-supplied normals, and not
/// the zero vector (a zero normal fixes no direction).
pub open spec fn in_normal_range(v: V3) -> bool {
    &&& -NORMAL_MAX <= v.x <= NORMAL_MAX
    &&& -NORMAL_MAX <= v.y <= NORMAL_MAX
    &&& -NORMAL_MAX <= v.z <= NORMAL_MAX
    &&& v != origin()
}

impl Vec3 {
    /// The origin, used as the sentinel position when no face qualifies.
    pub fn zero() -> (r: Vec3)
        ensures
            r@ == origin(),
    {
        Vec3 { x: 0, y: 0, z: 0 }
    }
}

pub proof fn lemma_mul_le(a: int, b: int, am: int, bm: int)
    by (nonlinear_arith)
    requires
        0 <= am,
        0 <= bm,
        -am <= a <= am,
        -bm <= b <= bm,
    ensures
        -(am * bm) <= a * b <= am * bm,
{
}

/// One bounded product, computed wide.  The ghost bounds let each caller
/// discharge its own overflow obligation once.
pub(crate) fn mul_bounded(a: i128, b: i128, Ghost(am): Ghost<int>, Ghost(bm): Ghost<int>) -> (r:
    i128)
    requires
        0 <= am,
        0 <= bm,
        -am <= a <= am,
        -bm <= b <= bm,
        am * bm <= 0x7fff_ffff_ffff_ffff_ffff_ffff_ffff_ffff,
    ensures
        r == a * b,
        -(am * bm) <= r <= am * bm,
{
    proof {
        lemma_mul_le(a as int, b as int, am, bm);
    }
    a * b
}

} // verus!
