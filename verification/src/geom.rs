use vstd::prelude::*;
use crate::mesh::Mesh;
use crate::vec3::{SCALE, V3, Vec3, in_coord_range, in_normal_range, mul_bounded};

verus! {

/// Unnormalized normal of the triangle `p1 p2 p3`: the cross product of
/// its two edges out of `p1`.  Zero exactly when the vertices are
/// collinear (a degenerate, zero-area face).
pub open spec fn tri_normal(p1: V3, p2: V3, p3: V3) -> V3 {
    p2.minus(p1).cross(p3.minus(p1))
}

/// Common denominator of the barycentric weights: the squared length of
/// the triangle's unnormalized normal.  Positive exactly when the face
/// is not degenerate.
pub open spec fn tri_den(p1: V3, p2: V3, p3: V3) -> int {
    tri_normal(p1, p2, p3).norm_sq()
}

/// Numerator of the barycentric weight of `p3` for the query point `q`:
/// the weight itself is `gamma_num / tri_den`.
pub open spec fn gamma_num(p1: V3, p2: V3, p3: V3, q: V3) -> int {
    p2.minus(p1).cross(q.minus(p1)).dot(tri_normal(p1, p2, p3))
}

/// Numerator of the barycentric weight of `p2`.
pub open spec fn beta_num(p1: V3, p2: V3, p3: V3, q: V3) -> int {
    q.minus(p1).cross(p3.minus(p1)).dot(tri_normal(p1, p2, p3))
}

/// Numerator of the barycentric weight of `p1`, defined so the three
/// weights sum to one: `alpha = 1 - beta - gamma`.
pub open spec fn alpha_num(p1: V3, p2: V3, p3: V3, q: V3) -> int {
    tri_den(p1, p2, p3) - beta_num(p1, p2, p3, q) - gamma_num(p1, p2, p3, q)
}

/// The weight `num / den` lies in the tolerated band `[-1/100, 101/100]`,
/// written without division.
pub open spec fn weight_ok(num: int, den: int) -> bool {
    &&& -den <= 100 * num
    &&& 100 * num <= 101 * den
}

/// `q` lies strictly more than a tenth of a world unit below the plane
/// through `p` perpendicular to `m`, "below" meaning against the
/// direction of `m`.  Written without division or square roots: with
/// `s = m · (q - p)`, the signed distance in world units is
/// `s / (|m| * SCALE)`, and `s / (|m| * SCALE) < -1/10` holds iff
/// `s < 0` and `100 * s^2 > SCALE^2 * |m|^2`.
pub open spec fn below_plane(m: V3, p: V3, q: V3) -> bool {
    let s = m.dot(q.minus(p));
    &&& s < 0
    &&& 100 * (s * s) > (SCALE * SCALE) * m.norm_sq()
}

/// The containment test for one triangle: the face is not degenerate,
/// `q` is not below the supporting plane (along the supplied normal `m`)
/// by more than the tolerated tenth of a unit, and each barycentric
/// weight of `q` lies in `[-1/100, 1 + 1/100]`.  The weights do not
/// depend on how far `q` sits from the triangle's plane, so projecting
/// `q` onto the plane first would change nothing (`lemma_weights_ignore_offset`).
pub open spec fn tri_contains(q: V3, p1: V3, p2: V3, p3: V3, m: V3) -> bool {
    let den = tri_den(p1, p2, p3);
    &&& den > 0
    &&& !below_plane(m, p1, q)
    &&& weight_ok(alpha_num(p1, p2, p3, q), den)
    &&& weight_ok(beta_num(p1, p2, p3, q), den)
    &&& weight_ok(gamma_num(p1, p2, p3, q), den)
}

/// Containment of `q` in face `i` of the mesh.
pub open spec fn face_contains(mesh: Mesh, i: int, q: V3) -> bool {
    tri_contains(
        q,
        mesh.corner_pos(i, 0),
        mesh.corner_pos(i, 1),
        mesh.corner_pos(i, 2),
        mesh.normal_at(i),
    )
}

/// Sum of the three corner positions of face `i`: three times the face's
/// exact centroid.
pub open spec fn face_vertex_sum(mesh: Mesh, i: int) -> V3 {
    mesh.corner_pos(i, 0).plus(mesh.corner_pos(i, 1)).plus(mesh.corner_pos(i, 2))
}

/// Division by three rounding toward zero, the rounding the fixed-point
/// centroid uses.
pub open spec fn div3(s: int) -> int {
    if s >= 0 {
        s / 3
    } else {
        -((-s) / 3)
    }
}

/// Centroid of face `i`: the arithmetic mean of its three corner
/// positions, each component rounded toward zero to the fixed-point
/// grid.
pub open spec fn face_centroid(mesh: Mesh, i: int) -> V3 {
    let s = face_vertex_sum(mesh, i);
    V3 { x: div3(s.x), y: div3(s.y), z: div3(s.z) }
}

/// Nine times the squared Euclidean distance between `q` and the exact
/// (unrounded) centroid of face `i`.  The factor nine is shared by every
/// face, so comparisons of this quantity order faces exactly by centroid
/// distance.
pub open spec fn centroid_dist_sq9(mesh: Mesh, i: int, q: V3) -> int {
    q.times(3).minus(face_vertex_sum(mesh, i)).norm_sq()
}


/// Raw ring identity behind `lemma_weights_ignore_offset`: the scalar
/// triple product of two vectors with one of them repeated vanishes,
/// `(a x b) . b == 0`.
proof fn lemma_triple_repeat_second(
    ax: int, ay: int, az: int,
    bx: int, by: int, bz: int,
)
    by (nonlinear_arith)
    ensures
        (ay * bz - az * by) * bx + (az * bx - ax * bz) * by + (ax * by - ay * bx) * bz == 0,
{
}

/// Raw ring identity: `(a x b) . a == 0`.
proof fn lemma_triple_repeat_first(
    ax: int, ay: int, az: int,
    bx: int, by: int, bz: int,
)
    by (nonlinear_arith)
    ensures
        (ay * bz - az * by) * ax + (az * bx - ax * bz) * ay + (ax * by - ay * bx) * az == 0,
{
}

/// Raw ring identity: one cross-product component distributes over an
/// offset of its right factor, `a * (w + t * n) - b * (y + t * m)
/// == (a * w - b * y) + t * (a * n - b * m)`.
proof fn lemma_offset_component_right(a: int, b: int, w: int, y: int, n: int, m: int, t: int)
    by (nonlinear_arith)
    ensures
        a * (w + t * n) - b * (y + t * m) == (a * w - b * y) + t * (a * n - b * m),
{
}

/// Raw ring identity: one cross-product component distributes over an
/// offset of its left factor.
proof fn lemma_offset_component_left(w: int, y: int, n: int, m: int, a: int, b: int, t: int)
    by (nonlinear_arith)
    ensures
        (w + t * n) * a - (y + t * m) * b == (w * a - y * b) + t * (n * a - m * b),
{
}

/// Raw ring identity: one product distributes over an offset,
/// `(c + t * d) * n == c * n + t * (d * n)`.
proof fn lemma_mul_offset(c: int, d: int, n: int, t: int)
    by (nonlinear_arith)
    ensures
        (c + t * d) * n == c * n + t * (d * n),
{
}

/// Raw ring identity: a factor distributes over a sum of three terms.
proof fn lemma_mul_distrib3(t: int, a: int, b: int, c: int)
    by (nonlinear_arith)
    ensures
        t * (a + b + c) == t * a + t * b + t * c,
{
}

/// Moving the query point by any multiple of the triangle's normal
/// leaves every barycentric weight unchanged.  This is why the
/// containment test may work on the query point directly: projecting it
/// onto the triangle's plane first, as a plane primitive would, cannot
/// change the weights.
pub proof fn lemma_weights_ignore_offset(p1: V3, p2: V3, p3: V3, q: V3, t: int)
    ensures
        gamma_num(p1, p2, p3, q.plus(tri_normal(p1, p2, p3).times(t))) == gamma_num(
            p1,
            p2,
            p3,
            q,
        ),
        beta_num(p1, p2, p3, q.plus(tri_normal(p1, p2, p3).times(t))) == beta_num(p1, p2, p3, q),
        alpha_num(p1, p2, p3, q.plus(tri_normal(p1, p2, p3).times(t))) == alpha_num(
            p1,
            p2,
            p3,
            q,
        ),
{
    let u = p2.minus(p1);
    let v = p3.minus(p1);
    let n = tri_normal(p1, p2, p3);
    let w = q.minus(p1);
    let w2 = q.plus(n.times(t)).minus(p1);
    assert(w2 == V3 { x: w.x + t * n.x, y: w.y + t * n.y, z: w.z + t * n.z });

    let cuw = u.cross(w);
    let cun = u.cross(n);
    let cuw2 = u.cross(w2);
    assert(cuw2.x == cuw.x + t * cun.x) by {
        lemma_offset_component_right(u.y, u.z, w.z, w.y, n.z, n.y, t);
    }
    assert(cuw2.y == cuw.y + t * cun.y) by {
        lemma_offset_component_right(u.z, u.x, w.x, w.z, n.x, n.z, t);
    }
    assert(cuw2.z == cuw.z + t * cun.z) by {
        lemma_offset_component_right(u.x, u.y, w.y, w.x, n.y, n.x, t);
    }
    assert(cuw2.dot(n) == cuw.dot(n) + t * cun.dot(n)) by {
        lemma_mul_offset(cuw.x, cun.x, n.x, t);
        lemma_mul_offset(cuw.y, cun.y, n.y, t);
        lemma_mul_offset(cuw.z, cun.z, n.z, t);
        lemma_mul_distrib3(t, cun.x * n.x, cun.y * n.y, cun.z * n.z);
    }
    lemma_triple_repeat_second(u.x, u.y, u.z, n.x, n.y, n.z);
    assert(cun.dot(n) == 0);
    assert(u.cross(w2).dot(n) == u.cross(w).dot(n));

    let cwv = w.cross(v);
    let cnv = n.cross(v);
    let cw2v = w2.cross(v);
    assert(cw2v.x == cwv.x + t * cnv.x) by {
        lemma_offset_component_left(w.y, w.z, n.y, n.z, v.z, v.y, t);
    }
    assert(cw2v.y == cwv.y + t * cnv.y) by {
        lemma_offset_component_left(w.z, w.x, n.z, n.x, v.x, v.z, t);
    }
    assert(cw2v.z == cwv.z + t * cnv.z) by {
        lemma_offset_component_left(w.x, w.y, n.x, n.y, v.y, v.x, t);
    }
    assert(cw2v.dot(n) == cwv.dot(n) + t * cnv.dot(n)) by {
        lemma_mul_offset(cwv.x, cnv.x, n.x, t);
        lemma_mul_offset(cwv.y, cnv.y, n.y, t);
        lemma_mul_offset(cwv.z, cnv.z, n.z, t);
        lemma_mul_distrib3(t, cnv.x * n.x, cnv.y * n.y, cnv.z * n.z);
    }
    lemma_triple_repeat_first(n.x, n.y, n.z, v.x, v.y, v.z);
    assert(cnv.dot(n) == 0);
    assert(w2.cross(v).dot(n) == w.cross(v).dot(n));
}

/// Raw ring identity: one component of a cross product with a negated
/// second factor after shifting, `(b - a) x (-a)` against `a x b`.
proof fn lemma_rot_normal_component(ay: int, az: int, by: int, bz: int)
    by (nonlinear_arith)
    ensures
        (by - ay) * (-az) - (bz - az) * (-ay) == ay * bz - az * by,
{
}

/// Raw ring identity: one component of a cross of two differences
/// expands into three crosses.
proof fn lemma_cross_sub_component(ay: int, az: int, by: int, bz: int, wy: int, wz: int)
    by (nonlinear_arith)
    ensures
        (by - ay) * (wz - az) - (bz - az) * (wy - ay) == (by * wz - bz * wy) - (by * az - bz * ay)
            - (ay * wz - az * wy),
{
}

/// Raw ring identity: a three-way difference distributes over a product.
proof fn lemma_mul_sub3(c: int, d: int, e: int, n: int)
    by (nonlinear_arith)
    ensures
        (c - d - e) * n == c * n - d * n - e * n,
{
}

/// Raw ring identity: a two-term cross component flips sign when its
/// factors swap sides.
proof fn lemma_anticomm(p: int, q: int, r: int, s: int)
    by (nonlinear_arith)
    ensures
        p * q - r * s == -(s * r - q * p),
{
}

/// Raw ring identity: negation moves out of a product.
proof fn lemma_neg_mul(a: int, b: int)
    by (nonlinear_arith)
    ensures
        (-a) * b == -(a * b),
{
}

/// Raw ring identity: a difference distributes over a product.
proof fn lemma_mul_sub(m: int, w: int, a: int)
    by (nonlinear_arith)
    ensures
        m * (w - a) == m * w - m * a,
{
}

/// Listing the triangle's corners from a different starting corner
/// permutes the barycentric weights with the corners and leaves the
/// normal and the denominator unchanged: in the rotated listing
/// `(p2, p3, p1)` each corner keeps the weight it had.
pub proof fn lemma_weights_cyclic(p1: V3, p2: V3, p3: V3, q: V3)
    ensures
        tri_normal(p2, p3, p1) == tri_normal(p1, p2, p3),
        tri_den(p2, p3, p1) == tri_den(p1, p2, p3),
        gamma_num(p2, p3, p1, q) == alpha_num(p1, p2, p3, q),
        beta_num(p2, p3, p1, q) == gamma_num(p1, p2, p3, q),
        alpha_num(p2, p3, p1, q) == beta_num(p1, p2, p3, q),
{
    let a = p2.minus(p1);
    let b = p3.minus(p1);
    let w = q.minus(p1);
    let n = a.cross(b);
    let a2 = p3.minus(p2);
    let b2 = p1.minus(p2);
    let w2 = q.minus(p2);
    assert(a2 == V3 { x: b.x - a.x, y: b.y - a.y, z: b.z - a.z });
    assert(b2 == V3 { x: -a.x, y: -a.y, z: -a.z });
    assert(w2 == V3 { x: w.x - a.x, y: w.y - a.y, z: w.z - a.z });

    let n2 = a2.cross(b2);
    assert(n2.x == n.x) by {
        lemma_rot_normal_component(a.y, a.z, b.y, b.z);
    }
    assert(n2.y == n.y) by {
        lemma_rot_normal_component(a.z, a.x, b.z, b.x);
    }
    assert(n2.z == n.z) by {
        lemma_rot_normal_component(a.x, a.y, b.x, b.y);
    }
    assert(n2 == n);
    assert(tri_normal(p2, p3, p1) == n2);

    let cbw = b.cross(w);
    let cba = b.cross(a);
    let caw = a.cross(w);
    let cr = a2.cross(w2);
    assert(cr.x == cbw.x - cba.x - caw.x) by {
        lemma_cross_sub_component(a.y, a.z, b.y, b.z, w.y, w.z);
    }
    assert(cr.y == cbw.y - cba.y - caw.y) by {
        lemma_cross_sub_component(a.z, a.x, b.z, b.x, w.z, w.x);
    }
    assert(cr.z == cbw.z - cba.z - caw.z) by {
        lemma_cross_sub_component(a.x, a.y, b.x, b.y, w.x, w.y);
    }
    assert(cr.dot(n) == cbw.dot(n) - cba.dot(n) - caw.dot(n)) by {
        lemma_mul_sub3(cbw.x, cba.x, caw.x, n.x);
        lemma_mul_sub3(cbw.y, cba.y, caw.y, n.y);
        lemma_mul_sub3(cbw.z, cba.z, caw.z, n.z);
    }
    assert(cba.x == -n.x) by {
        lemma_anticomm(b.y, a.z, b.z, a.y);
    }
    assert(cba.y == -n.y) by {
        lemma_anticomm(b.z, a.x, b.x, a.z);
    }
    assert(cba.z == -n.z) by {
        lemma_anticomm(b.x, a.y, b.y, a.x);
    }
    assert(cba.dot(n) == -n.dot(n)) by {
        lemma_neg_mul(n.x, n.x);
        lemma_neg_mul(n.y, n.y);
        lemma_neg_mul(n.z, n.z);
    }
    let cwb = w.cross(b);
    assert(cbw.x == -cwb.x) by {
        lemma_anticomm(b.y, w.z, b.z, w.y);
    }
    assert(cbw.y == -cwb.y) by {
        lemma_anticomm(b.z, w.x, b.x, w.z);
    }
    assert(cbw.z == -cwb.z) by {
        lemma_anticomm(b.x, w.y, b.y, w.x);
    }
    assert(cbw.dot(n) == -cwb.dot(n)) by {
        lemma_neg_mul(cwb.x, n.x);
        lemma_neg_mul(cwb.y, n.y);
        lemma_neg_mul(cwb.z, n.z);
    }
    assert(gamma_num(p2, p3, p1, q) == cr.dot(n2));
    assert(cr.dot(n) == n.dot(n) - cwb.dot(n) - caw.dot(n));

    let cb = w2.cross(b2);
    assert(cb.x == caw.x) by {
        lemma_rot_normal_component(a.y, a.z, w.y, w.z);
    }
    assert(cb.y == caw.y) by {
        lemma_rot_normal_component(a.z, a.x, w.z, w.x);
    }
    assert(cb.z == caw.z) by {
        lemma_rot_normal_component(a.x, a.y, w.x, w.y);
    }
    assert(cb == caw);
    assert(beta_num(p2, p3, p1, q) == caw.dot(n));
}

/// For a face whose supplied normal really is perpendicular to the
/// face's plane, the classification does not depend on which corner the
/// mesh lists first: rotating the corner order changes nothing.  With a
/// normal that is not perpendicular to the edge `p2 - p1`, only the
/// plane-side test's reference corner moves, so this is the most that
/// holds.
pub proof fn lemma_containment_cyclic(q: V3, p1: V3, p2: V3, p3: V3, m: V3)
    requires
        m.dot(p2.minus(p1)) == 0,
    ensures
        tri_contains(q, p2, p3, p1, m) == tri_contains(q, p1, p2, p3, m),
{
    lemma_weights_cyclic(p1, p2, p3, q);
    let w = q.minus(p1);
    let w2 = q.minus(p2);
    let a = p2.minus(p1);
    assert(w2 == V3 { x: w.x - a.x, y: w.y - a.y, z: w.z - a.z });
    assert(m.dot(w2) == m.dot(w) - m.dot(a)) by {
        lemma_mul_sub(m.x, w.x, a.x);
        lemma_mul_sub(m.y, w.y, a.y);
        lemma_mul_sub(m.z, w.z, a.z);
    }
    assert(below_plane(m, p2, q) == below_plane(m, p1, q));
}

/// A point on or above a nondegenerate face's plane whose barycentric
/// weights all lie in `[0, 1]` is classified as contained; and the three
/// weights sum to one (scaled by the common denominator).
pub proof fn lemma_interior_point_contained(q: V3, p1: V3, p2: V3, p3: V3, m: V3)
    requires
        tri_den(p1, p2, p3) > 0,
        0 <= alpha_num(p1, p2, p3, q),
        0 <= beta_num(p1, p2, p3, q),
        0 <= gamma_num(p1, p2, p3, q),
        m.dot(q.minus(p1)) >= 0,
    ensures
        tri_contains(q, p1, p2, p3, m),
        alpha_num(p1, p2, p3, q) + beta_num(p1, p2, p3, q) + gamma_num(p1, p2, p3, q) == tri_den(
            p1,
            p2,
            p3,
        ),
{
}

/// A point with any barycentric weight outside the tolerated band
/// `[-1/100, 1 + 1/100]` is rejected, however the face lies.
pub proof fn lemma_outside_weight_rejected(q: V3, p1: V3, p2: V3, p3: V3, m: V3)
    requires
        !weight_ok(alpha_num(p1, p2, p3, q), tri_den(p1, p2, p3)) || !weight_ok(
            beta_num(p1, p2, p3, q),
            tri_den(p1, p2, p3),
        ) || !weight_ok(gamma_num(p1, p2, p3, q), tri_den(p1, p2, p3)),
    ensures
        !tri_contains(q, p1, p2, p3, m),
{
}

/// The classification is a function of the inputs alone: any two
/// results that `is_inside_triangle`'s contract allows for the same
/// point, face and mesh are equal.
pub proof fn lemma_classification_deterministic(
    mesh: Mesh,
    i: int,
    q: V3,
    r1: bool,
    r2: bool,
)
    requires
        r1 == face_contains(mesh, i, q),
        r2 == face_contains(mesh, i, q),
    ensures
        r1 == r2,
{
}

/// Cross product of two bounded vectors, computed wide.
fn cross_wide(
    ax: i128,
    ay: i128,
    az: i128,
    bx: i128,
    by: i128,
    bz: i128,
    Ghost(am): Ghost<int>,
    Ghost(bm): Ghost<int>,
) -> (r: (i128, i128, i128))
    requires
        0 <= am,
        0 <= bm,
        -am <= ax <= am,
        -am <= ay <= am,
        -am <= az <= am,
        -bm <= bx <= bm,
        -bm <= by <= bm,
        -bm <= bz <= bm,
        2 * (am * bm) <= 0x7fff_ffff_ffff_ffff_ffff_ffff_ffff_ffff,
    ensures
        r.0 == ay * bz - az * by,
        r.1 == az * bx - ax * bz,
        r.2 == ax * by - ay * bx,
        -(2 * (am * bm)) <= r.0 <= 2 * (am * bm),
        -(2 * (am * bm)) <= r.1 <= 2 * (am * bm),
        -(2 * (am * bm)) <= r.2 <= 2 * (am * bm),
{
    let x = mul_bounded(ay, bz, Ghost(am), Ghost(bm)) - mul_bounded(az, by, Ghost(am), Ghost(bm));
    let y = mul_bounded(az, bx, Ghost(am), Ghost(bm)) - mul_bounded(ax, bz, Ghost(am), Ghost(bm));
    let z = mul_bounded(ax, by, Ghost(am), Ghost(bm)) - mul_bounded(ay, bx, Ghost(am), Ghost(bm));
    (x, y, z)
}

/// Dot product of two bounded vectors, computed wide.
fn dot_wide(
    ax: i128,
    ay: i128,
    az: i128,
    bx: i128,
    by: i128,
    bz: i128,
    Ghost(am): Ghost<int>,
    Ghost(bm): Ghost<int>,
) -> (r: i128)
    requires
        0 <= am,
        0 <= bm,
        -am <= ax <= am,
        -am <= ay <= am,
        -am <= az <= am,
        -bm <= bx <= bm,
        -bm <= by <= bm,
        -bm <= bz <= bm,
        3 * (am * bm) <= 0x7fff_ffff_ffff_ffff_ffff_ffff_ffff_ffff,
    ensures
        r == ax * bx + ay * by + az * bz,
        -(3 * (am * bm)) <= r <= 3 * (am * bm),
{
    mul_bounded(ax, bx, Ghost(am), Ghost(bm)) + mul_bounded(ay, by, Ghost(am), Ghost(bm))
        + mul_bounded(az, bz, Ghost(am), Ghost(bm))
}

/// Whether the weight `num / den` lies in the tolerated band, decided on
/// the numerators.
fn weight_ok_exec(num: i128, den: i128, Ghost(nb): Ghost<int>) -> (r: bool)
    requires
        0 <= nb,
        -nb <= num <= nb,
        -nb <= den <= nb,
        101 * nb <= 0x7fff_ffff_ffff_ffff_ffff_ffff_ffff_ffff,
    ensures
        r == weight_ok(num as int, den as int),
{
    -den <= 100 * num && 100 * num <= 101 * den
}

/// Nine times the squared distance between `q` and the centroid of the
/// triangle `p1 p2 p3`: the value of `centroid_dist_sq9` for a face with
/// these corner positions.
pub(crate) fn face_dist9(q: Vec3, p1: Vec3, p2: Vec3, p3: Vec3) -> (d: i128)
    requires
        in_coord_range(q@),
        in_coord_range(p1@),
        in_coord_range(p2@),
        in_coord_range(p3@),
    ensures
        d == q@.times(3).minus(p1@.plus(p2@).plus(p3@)).norm_sq(),
{
    let sx: i64 = p1.x + p2.x + p3.x;
    let sy: i64 = p1.y + p2.y + p3.y;
    let sz: i64 = p1.z + p2.z + p3.z;
    let dx: i64 = 3 * q.x - sx;
    let dy: i64 = 3 * q.y - sy;
    let dz: i64 = 3 * q.z - sz;
    dot_wide(
        dx as i128,
        dy as i128,
        dz as i128,
        dx as i128,
        dy as i128,
        dz as i128,
        Ghost(600_000_000int),
        Ghost(600_000_000int),
    )
}

/// The barycentric point-in-triangle test of one face, on plain vertex
/// data: true iff `tri_contains` holds of the inputs' values.  Returns
/// false for a degenerate (collinear) triangle rather than failing.
pub fn triangle_contains(q: Vec3, p1: Vec3, p2: Vec3, p3: Vec3, m: Vec3) -> (r: bool)
    requires
        in_coord_range(q@),
        in_coord_range(p1@),
        in_coord_range(p2@),
        in_coord_range(p3@),
        in_normal_range(m@),
    ensures
        r == tri_contains(q@, p1@, p2@, p3@, m@),
{
    let ux: i64 = p2.x - p1.x;
    let uy: i64 = p2.y - p1.y;
    let uz: i64 = p2.z - p1.z;
    let vx: i64 = p3.x - p1.x;
    let vy: i64 = p3.y - p1.y;
    let vz: i64 = p3.z - p1.z;
    let wx: i64 = q.x - p1.x;
    let wy: i64 = q.y - p1.y;
    let wz: i64 = q.z - p1.z;
    let ghost u = V3 { x: ux as int, y: uy as int, z: uz as int };
    let ghost v = V3 { x: vx as int, y: vy as int, z: vz as int };
    let ghost w = V3 { x: wx as int, y: wy as int, z: wz as int };
    proof {
        assert(u == p2@.minus(p1@));
        assert(v == p3@.minus(p1@));
        assert(w == q@.minus(p1@));
    }

    let n = cross_wide(
        ux as i128,
        uy as i128,
        uz as i128,
        vx as i128,
        vy as i128,
        vz as i128,
        Ghost(200_000_000int),
        Ghost(200_000_000int),
    );
    proof {
        assert(V3 { x: n.0 as int, y: n.1 as int, z: n.2 as int } == tri_normal(p1@, p2@, p3@));
    }
    let den = dot_wide(n.0, n.1, n.2, n.0, n.1, n.2, Ghost(80_000_000_000_000_000int), Ghost(80_000_000_000_000_000int));
    assert(den == tri_den(p1@, p2@, p3@));

    let uw = cross_wide(
        ux as i128,
        uy as i128,
        uz as i128,
        wx as i128,
        wy as i128,
        wz as i128,
        Ghost(200_000_000int),
        Ghost(200_000_000int),
    );
    let gnum = dot_wide(uw.0, uw.1, uw.2, n.0, n.1, n.2, Ghost(80_000_000_000_000_000int), Ghost(80_000_000_000_000_000int));
    assert(gnum == gamma_num(p1@, p2@, p3@, q@));

    let wv = cross_wide(
        wx as i128,
        wy as i128,
        wz as i128,
        vx as i128,
        vy as i128,
        vz as i128,
        Ghost(200_000_000int),
        Ghost(200_000_000int),
    );
    let bnum = dot_wide(wv.0, wv.1, wv.2, n.0, n.1, n.2, Ghost(80_000_000_000_000_000int), Ghost(80_000_000_000_000_000int));
    assert(bnum == beta_num(p1@, p2@, p3@, q@));

    let anum = den - gnum - bnum;
    assert(anum == alpha_num(p1@, p2@, p3@, q@));

    let s = dot_wide(
        m.x as i128,
        m.y as i128,
        m.z as i128,
        wx as i128,
        wy as i128,
        wz as i128,
        Ghost(1_000_000int),
        Ghost(200_000_000int),
    );
    assert(s == m@.dot(q@.minus(p1@)));
    let msq = dot_wide(
        m.x as i128,
        m.y as i128,
        m.z as i128,
        m.x as i128,
        m.y as i128,
        m.z as i128,
        Ghost(1_000_000int),
        Ghost(1_000_000int),
    );
    assert(msq == m@.norm_sq());
    let s2 = mul_bounded(
        s,
        s,
        Ghost(600_000_000_000_000int),
        Ghost(600_000_000_000_000int),
    );
    proof {
        assert(SCALE * SCALE == 1_000_000) by (nonlinear_arith)
            requires
                SCALE == 1000int,
        ;
    }
    let below = s < 0 && 100 * s2 > 1_000_000 * msq;
    assert(below == below_plane(m@, p1@, q@));

    let inside = den > 0 && !below && weight_ok_exec(anum, den, Ghost(57_600_000_000_000_000_000_000_000_000_000_000int)) && weight_ok_exec(
        bnum,
        den,
        Ghost(57_600_000_000_000_000_000_000_000_000_000_000int),
    ) && weight_ok_exec(gnum, den, Ghost(57_600_000_000_000_000_000_000_000_000_000_000int));
    inside
}

} // verus!
