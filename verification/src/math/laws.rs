//! The general laws of the library, stated over the mathematical model and
//! proved once for every value.

use vstd::prelude::*;
use crate::math::model::lemma_bin_mul;
use crate::math::model::lemma_det3_canonical;
use crate::math::model::lemma_distribute6_plus;
use crate::math::model::lemma_mul_diff2;
use crate::math::model::lemma_square_nonneg;
use crate::math::model::lemma_trunc_recip;
use crate::math::model::Mat3i;
use crate::math::model::Mat4i;
use crate::math::model::Vec2i;
use crate::math::model::Vec3i;
use crate::math::model::Vec4i;
use crate::math::number::trunc_div;

verus! {

/// Adding the zero vector leaves any vector unchanged.
pub proof fn lemma_vec2_add_zero(v: Vec2i)
    ensures
        v.add(Vec2i::zero()) == v,
{
}

/// Adding the zero vector leaves any vector unchanged.
pub proof fn lemma_vec3_add_zero(v: Vec3i)
    ensures
        v.add(Vec3i::zero()) == v,
{
}

/// Adding the zero vector leaves any vector unchanged.
pub proof fn lemma_vec4_add_zero(v: Vec4i)
    ensures
        v.add(Vec4i::zero()) == v,
{
}

/// Multiplying by the identity matrix on either side leaves any matrix
/// unchanged.
pub proof fn lemma_mat3_mul_identity(m: Mat3i)
    ensures
        m.matmul(Mat3i::identity()) == m,
        Mat3i::identity().matmul(m) == m,
{
    let id = Mat3i::identity();
    assert(id.col(0) == (Vec3i { x: 1, y: 0, z: 0 }));
    assert(id.col(1) == (Vec3i { x: 0, y: 1, z: 0 }));
    assert(id.col(2) == (Vec3i { x: 0, y: 0, z: 1 }));
    assert(m.matmul(id) == m);
    assert(id.matmul(m) == m);
}

/// Multiplying by the identity matrix on either side leaves any matrix
/// unchanged.
pub proof fn lemma_mat4_mul_identity(m: Mat4i)
    ensures
        m.matmul(Mat4i::identity()) == m,
        Mat4i::identity().matmul(m) == m,
{
    let id = Mat4i::identity();
    assert(id.col(0) == (Vec4i { x: 1, y: 0, z: 0, w: 0 }));
    assert(id.col(1) == (Vec4i { x: 0, y: 1, z: 0, w: 0 }));
    assert(id.col(2) == (Vec4i { x: 0, y: 0, z: 1, w: 0 }));
    assert(id.col(3) == (Vec4i { x: 0, y: 0, z: 0, w: 1 }));
    assert(m.matmul(id) == m);
    assert(id.matmul(m) == m);
}

/// Transposing twice gives back the original matrix.
pub proof fn lemma_mat3_transpose_involution(m: Mat3i)
    ensures
        m.transpose().transpose() == m,
{
}

/// Transposing twice gives back the original matrix.
pub proof fn lemma_mat4_transpose_involution(m: Mat4i)
    ensures
        m.transpose().transpose() == m,
{
}

/// The cross product of two vectors is orthogonal to both of them.
pub proof fn lemma_cross_orthogonal(a: Vec3i, b: Vec3i)
    ensures
        a.cross(b).dot(a) == 0,
        a.cross(b).dot(b) == 0,
{
    assert((a.y * b.z - a.z * b.y) * a.x == ((a.x * a.y) * b.z) - ((a.x * a.z) * b.y))
        by (nonlinear_arith);
    assert((a.z * b.x - a.x * b.z) * a.y == ((a.y * a.z) * b.x) - ((a.x * a.y) * b.z))
        by (nonlinear_arith);
    assert((a.x * b.y - a.y * b.x) * a.z == ((a.x * a.z) * b.y) - ((a.y * a.z) * b.x))
        by (nonlinear_arith);
    assert((a.y * b.z - a.z * b.y) * b.x == ((a.y * b.x) * b.z) - ((a.z * b.x) * b.y))
        by (nonlinear_arith);
    assert((a.z * b.x - a.x * b.z) * b.y == ((a.z * b.x) * b.y) - ((a.x * b.y) * b.z))
        by (nonlinear_arith);
    assert((a.x * b.y - a.y * b.x) * b.z == ((a.x * b.y) * b.z) - ((a.y * b.x) * b.z))
        by (nonlinear_arith);
}

/// Normalizing the zero vector is a no-op.
pub proof fn lemma_vec3_normalize_zero()
    ensures
        Vec3i::zero().normalized() == Vec3i::zero(),
{
}

/// Normalizing the zero vector is a no-op.
pub proof fn lemma_vec2_normalize_zero()
    ensures
        Vec2i::zero().normalized() == Vec2i::zero(),
{
}

/// Normalizing is idempotent: a normalized vector is either zero or a
/// signed unit basis vector, and both normalize to themselves.
pub proof fn lemma_vec3_normalize_idempotent(v: Vec3i)
    ensures
        v.normalized().normalized() == v.normalized(),
{
    lemma_square_nonneg(v.x);
    lemma_square_nonneg(v.y);
    lemma_square_nonneg(v.z);
    let ns = v.norm_sq();
    if ns != 0 {
        let u = v.normalized();
        if v.x * v.x == ns {
            assert(v.y * v.y == 0 && v.z * v.z == 0);
            lemma_square_zero(v.y);
            lemma_square_zero(v.z);
            assert(u.normalized() == u);
        } else if v.y * v.y == ns {
            assert(v.x * v.x == 0 && v.z * v.z == 0);
            lemma_square_zero(v.x);
            lemma_square_zero(v.z);
            assert(u.normalized() == u);
        } else if v.z * v.z == ns {
            assert(v.x * v.x == 0 && v.y * v.y == 0);
            lemma_square_zero(v.x);
            lemma_square_zero(v.y);
            assert(u.normalized() == u);
        } else {
            assert(u == Vec3i::zero());
        }
    }
}

/// Normalizing is idempotent: a normalized vector is either zero or a
/// signed unit basis vector, and both normalize to themselves.
pub proof fn lemma_vec2_normalize_idempotent(v: Vec2i)
    ensures
        v.normalized().normalized() == v.normalized(),
{
    lemma_square_nonneg(v.x);
    lemma_square_nonneg(v.y);
    let ns = v.norm_sq();
    if ns != 0 {
        let u = v.normalized();
        if v.x * v.x == ns {
            assert(v.y * v.y == 0);
            lemma_square_zero(v.y);
            assert(u.normalized() == u);
        } else if v.y * v.y == ns {
            assert(v.x * v.x == 0);
            lemma_square_zero(v.x);
            assert(u.normalized() == u);
        } else {
            assert(u == Vec2i::zero());
        }
    }
}

/// An integer whose square is zero is itself zero.
pub proof fn lemma_square_zero(a: int)
    by (nonlinear_arith)
    requires
        a * a == 0,
    ensures
        a == 0,
{
}

/// The Householder reflection matrix for a unit normal: the identity minus
/// twice the outer product of the normal with itself. The floating-point
/// reflection factories build exactly this matrix.
pub open spec fn reflection_mat(n: Vec3i) -> Mat3i {
    Mat3i {
        r0: Vec3i { x: 1 - 2 * (n.x * n.x), y: -2 * (n.x * n.y), z: -2 * (n.x * n.z) },
        r1: Vec3i { x: -2 * (n.y * n.x), y: 1 - 2 * (n.y * n.y), z: -2 * (n.y * n.z) },
        r2: Vec3i { x: -2 * (n.z * n.x), y: -2 * (n.z * n.y), z: 1 - 2 * (n.z * n.z) },
    }
}

/// Reflection is its own inverse: for a unit normal, applying the
/// Householder reflection twice is the identity.
pub proof fn lemma_reflection_involution(n: Vec3i)
    requires
        n.dot(n) == 1,
    ensures
        reflection_mat(n).matmul(reflection_mat(n)) == Mat3i::identity(),
{
    let x = n.x;
    let y = n.y;
    let z = n.z;
    assert((1 - 2 * (x * x)) * (1 - 2 * (x * x)) + (-2 * (x * y)) * (-2 * (y * x)) + (-2 * (x
        * z)) * (-2 * (z * x)) == 1) by (nonlinear_arith)
        requires
            x * x + y * y + z * z == 1,
    ;
    assert((1 - 2 * (y * y)) * (1 - 2 * (y * y)) + (-2 * (y * x)) * (-2 * (x * y)) + (-2 * (y
        * z)) * (-2 * (z * y)) == 1) by (nonlinear_arith)
        requires
            x * x + y * y + z * z == 1,
    ;
    assert((1 - 2 * (z * z)) * (1 - 2 * (z * z)) + (-2 * (z * x)) * (-2 * (x * z)) + (-2 * (z
        * y)) * (-2 * (y * z)) == 1) by (nonlinear_arith)
        requires
            x * x + y * y + z * z == 1,
    ;
    assert((1 - 2 * (x * x)) * (-2 * (x * y)) + (-2 * (x * y)) * (1 - 2 * (y * y)) + (-2 * (x
        * z)) * (-2 * (z * y)) == 0) by (nonlinear_arith)
        requires
            x * x + y * y + z * z == 1,
    ;
    assert((1 - 2 * (x * x)) * (-2 * (x * z)) + (-2 * (x * y)) * (-2 * (y * z)) + (-2 * (x * z))
        * (1 - 2 * (z * z)) == 0) by (nonlinear_arith)
        requires
            x * x + y * y + z * z == 1,
    ;
    assert((-2 * (y * x)) * (1 - 2 * (x * x)) + (1 - 2 * (y * y)) * (-2 * (y * x)) + (-2 * (y
        * z)) * (-2 * (z * x)) == 0) by (nonlinear_arith)
        requires
            x * x + y * y + z * z == 1,
    ;
    assert((-2 * (y * x)) * (-2 * (x * z)) + (1 - 2 * (y * y)) * (-2 * (y * z)) + (-2 * (y * z))
        * (1 - 2 * (z * z)) == 0) by (nonlinear_arith)
        requires
            x * x + y * y + z * z == 1,
    ;
    assert((-2 * (z * x)) * (1 - 2 * (x * x)) + (-2 * (z * y)) * (-2 * (y * x)) + (1 - 2 * (z
        * z)) * (-2 * (z * x)) == 0) by (nonlinear_arith)
        requires
            x * x + y * y + z * z == 1,
    ;
    assert((-2 * (z * x)) * (-2 * (x * y)) + (-2 * (z * y)) * (1 - 2 * (y * y)) + (1 - 2 * (z
        * z)) * (-2 * (z * y)) == 0) by (nonlinear_arith)
        requires
            x * x + y * y + z * z == 1,
    ;
}

/// Distributing a factor over a difference.
pub proof fn lemma_sub_mul(x: int, t: int, k: int)
    by (nonlinear_arith)
    ensures
        (x - t) * k == k * x - t * k,
{
}

/// Distributing a factor over a three-term sum.
pub proof fn lemma_distribute3_right(p: int, q: int, r: int, k: int)
    by (nonlinear_arith)
    ensures
        (p + q + r) * k == p * k + q * k + r * k,
{
}

/// Distributing a factor over a three-term sum.
pub proof fn lemma_distribute3_left(k: int, p: int, q: int, r: int)
    by (nonlinear_arith)
    ensures
        k * (p + q + r) == k * p + k * q + k * r,
{
}

/// The rotation matrix about an axis, written with the cosine and sine of
/// the angle as values of their own: the standard counter-clockwise
/// axis-angle matrix. The floating-point rotation factories build exactly
/// this matrix from the axis and the angle's cosine and sine.
pub open spec fn rotation_mat(a: Vec3i, c: int, s: int) -> Mat3i {
    Mat3i {
        r0: Vec3i {
            x: c + (a.x * a.x) * (1 - c),
            y: (a.x * a.y) * (1 - c) - a.z * s,
            z: (a.x * a.z) * (1 - c) + a.y * s,
        },
        r1: Vec3i {
            x: (a.y * a.x) * (1 - c) + a.z * s,
            y: c + (a.y * a.y) * (1 - c),
            z: (a.y * a.z) * (1 - c) - a.x * s,
        },
        r2: Vec3i {
            x: (a.z * a.x) * (1 - c) - a.y * s,
            y: (a.z * a.y) * (1 - c) + a.x * s,
            z: c + (a.z * a.z) * (1 - c),
        },
    }
}

/// Axis-angle rotation of a vector by the Rodrigues formula: the component
/// parallel to the axis, plus the rejection scaled by the cosine of the
/// angle, plus the cross product of axis and vector scaled by its sine.
pub open spec fn rodrigues_rotate(v: Vec3i, axis: Vec3i, c: int, s: int) -> Vec3i {
    let parallel = axis.scale(axis.dot(v));
    parallel.add(v.sub(parallel).scale(c)).add(axis.cross(v).scale(s))
}

/// Applying the axis-angle rotation matrix to a vector agrees with the
/// Rodrigues formula, whatever the axis and whatever stands for the cosine
/// and sine.
pub proof fn lemma_rotation_matrix_rodrigues(v: Vec3i, axis: Vec3i, c: int, s: int)
    ensures
        rotation_mat(axis, c, s).mul_vec(v) == rodrigues_rotate(v, axis, c, s),
{
    let ax: int = axis.x;
    let ay: int = axis.y;
    let az: int = axis.z;
    let vx: int = v.x;
    let vy: int = v.y;
    let vz: int = v.z;
    assert((c + (ax * ax) * (1 - c)) * vx == c * vx + ((ax * ax) * vx) - (((ax * ax) * c) * vx)) by (nonlinear_arith);
    assert(((ax * ay) * (1 - c) - az * s) * vy == ((ax * ay) * vy) - (((ax * ay) * c) * vy) - ((az * s) * vy)) by (nonlinear_arith);
    assert(((ax * az) * (1 - c) + ay * s) * vz == ((ax * az) * vz) - (((ax * az) * c) * vz) + ((ay * s) * vz)) by (nonlinear_arith);
    lemma_distribute3_left(ax, ax * vx, ay * vy, az * vz);
    assert(ax * (ax * vx) == (ax * ax) * vx) by (nonlinear_arith);
    assert(ax * (ay * vy) == (ax * ay) * vy) by (nonlinear_arith);
    assert(ax * (az * vz) == (ax * az) * vz) by (nonlinear_arith);
    lemma_sub_mul(vx, ax * (ax * vx + ay * vy + az * vz), c);
    lemma_distribute3_right((ax * ax) * vx, (ax * ay) * vy, (ax * az) * vz, c);
    assert(((ax * ax) * vx) * c == (((ax * ax) * c) * vx)) by (nonlinear_arith);
    assert(((ax * ay) * vy) * c == (((ax * ay) * c) * vy)) by (nonlinear_arith);
    assert(((ax * az) * vz) * c == (((ax * az) * c) * vz)) by (nonlinear_arith);
    assert((ay * vz - az * vy) * s == ((ay * s) * vz) - ((az * s) * vy)) by (nonlinear_arith);
    assert((c + (ay * ay) * (1 - c)) * vy == c * vy + ((ay * ay) * vy) - (((ay * ay) * c) * vy)) by (nonlinear_arith);
    assert(((ay * az) * (1 - c) - ax * s) * vz == ((ay * az) * vz) - (((ay * az) * c) * vz) - ((ax * s) * vz)) by (nonlinear_arith);
    assert(((ay * ax) * (1 - c) + az * s) * vx == ((ax * ay) * vx) - (((ax * ay) * c) * vx) + ((az * s) * vx)) by (nonlinear_arith);
    lemma_distribute3_left(ay, ax * vx, ay * vy, az * vz);
    assert(ay * (ax * vx) == (ax * ay) * vx) by (nonlinear_arith);
    assert(ay * (ay * vy) == (ay * ay) * vy) by (nonlinear_arith);
    assert(ay * (az * vz) == (ay * az) * vz) by (nonlinear_arith);
    lemma_sub_mul(vy, ay * (ax * vx + ay * vy + az * vz), c);
    lemma_distribute3_right((ax * ay) * vx, (ay * ay) * vy, (ay * az) * vz, c);
    assert(((ax * ay) * vx) * c == (((ax * ay) * c) * vx)) by (nonlinear_arith);
    assert(((ay * ay) * vy) * c == (((ay * ay) * c) * vy)) by (nonlinear_arith);
    assert(((ay * az) * vz) * c == (((ay * az) * c) * vz)) by (nonlinear_arith);
    assert((az * vx - ax * vz) * s == ((az * s) * vx) - ((ax * s) * vz)) by (nonlinear_arith);
    assert((c + (az * az) * (1 - c)) * vz == c * vz + ((az * az) * vz) - (((az * az) * c) * vz)) by (nonlinear_arith);
    assert(((az * ax) * (1 - c) - ay * s) * vx == ((ax * az) * vx) - (((ax * az) * c) * vx) - ((ay * s) * vx)) by (nonlinear_arith);
    assert(((az * ay) * (1 - c) + ax * s) * vy == ((ay * az) * vy) - (((ay * az) * c) * vy) + ((ax * s) * vy)) by (nonlinear_arith);
    lemma_distribute3_left(az, ax * vx, ay * vy, az * vz);
    assert(az * (ax * vx) == (ax * az) * vx) by (nonlinear_arith);
    assert(az * (ay * vy) == (ay * az) * vy) by (nonlinear_arith);
    assert(az * (az * vz) == (az * az) * vz) by (nonlinear_arith);
    lemma_sub_mul(vz, az * (ax * vx + ay * vy + az * vz), c);
    lemma_distribute3_right((ax * az) * vx, (ay * az) * vy, (az * az) * vz, c);
    assert(((ax * az) * vx) * c == (((ax * az) * c) * vx)) by (nonlinear_arith);
    assert(((ay * az) * vy) * c == (((ay * az) * c) * vy)) by (nonlinear_arith);
    assert(((az * az) * vz) * c == (((az * az) * c) * vz)) by (nonlinear_arith);
    assert((ax * vy - ay * vx) * s == ((ax * s) * vy) - ((ay * s) * vx)) by (nonlinear_arith);
}

/// Scaling the second factor of a dot product scales the dot product.
pub proof fn lemma_dot_scale(a: Vec3i, b: Vec3i, k: int)
    ensures
        a.dot(b.scale(k)) == a.dot(b) * k,
{
    assert(a.x * (b.x * k) == (a.x * b.x) * k) by (nonlinear_arith);
    assert(a.y * (b.y * k) == (a.y * b.y) * k) by (nonlinear_arith);
    assert(a.z * (b.z * k) == (a.z * b.z) * k) by (nonlinear_arith);
    assert((a.x * b.x) * k + (a.y * b.y) * k + (a.z * b.z) * k == (a.x * b.x + a.y * b.y + a.z
        * b.z) * k) by (nonlinear_arith);
}

/// The product of a matrix with its adjugate is the determinant times
/// the identity matrix.
pub proof fn lemma_mat3_adjugate_identity(m: Mat3i)
    ensures
        m.matmul(m.adjugate()) == (Mat3i {
            r0: Vec3i { x: m.det(), y: 0, z: 0 },
            r1: Vec3i { x: 0, y: m.det(), z: 0 },
            r2: Vec3i { x: 0, y: 0, z: m.det() },
        }),
{
    lemma_det3_canonical(m);
    lemma_mul_diff2(m.r0.x, m.r1.y, m.r2.z, m.r2.y, m.r1.z);
    assert(((m.r0.x * m.r2.y) * m.r1.z) == ((m.r0.x * m.r1.z) * m.r2.y)) by (nonlinear_arith);
    lemma_mul_diff2(m.r0.y, m.r1.z, m.r2.x, m.r2.z, m.r1.x);
    assert(((m.r0.y * m.r2.z) * m.r1.x) == ((m.r0.y * m.r1.x) * m.r2.z)) by (nonlinear_arith);
    lemma_mul_diff2(m.r0.z, m.r1.x, m.r2.y, m.r2.x, m.r1.y);
    assert(((m.r0.z * m.r2.x) * m.r1.y) == ((m.r0.z * m.r1.y) * m.r2.x)) by (nonlinear_arith);
    lemma_mul_diff2(m.r0.x, m.r2.y, m.r0.z, m.r0.y, m.r2.z);
    assert(((m.r0.x * m.r2.y) * m.r0.z) == ((m.r0.x * m.r0.z) * m.r2.y)) by (nonlinear_arith);
    lemma_mul_diff2(m.r0.y, m.r2.z, m.r0.x, m.r0.z, m.r2.x);
    assert(((m.r0.y * m.r2.z) * m.r0.x) == ((m.r0.x * m.r0.y) * m.r2.z)) by (nonlinear_arith);
    lemma_mul_diff2(m.r0.z, m.r2.x, m.r0.y, m.r0.x, m.r2.y);
    assert(((m.r0.z * m.r2.x) * m.r0.y) == ((m.r0.y * m.r0.z) * m.r2.x)) by (nonlinear_arith);
    assert(((m.r0.z * m.r0.x) * m.r2.y) == ((m.r0.x * m.r0.z) * m.r2.y)) by (nonlinear_arith);
    lemma_mul_diff2(m.r0.x, m.r0.y, m.r1.z, m.r1.y, m.r0.z);
    assert(((m.r0.x * m.r1.y) * m.r0.z) == ((m.r0.x * m.r0.z) * m.r1.y)) by (nonlinear_arith);
    lemma_mul_diff2(m.r0.y, m.r0.z, m.r1.x, m.r1.z, m.r0.x);
    assert(((m.r0.y * m.r1.z) * m.r0.x) == ((m.r0.x * m.r0.y) * m.r1.z)) by (nonlinear_arith);
    lemma_mul_diff2(m.r0.z, m.r0.x, m.r1.y, m.r1.x, m.r0.y);
    assert(((m.r0.z * m.r0.x) * m.r1.y) == ((m.r0.x * m.r0.z) * m.r1.y)) by (nonlinear_arith);
    assert(((m.r0.z * m.r1.x) * m.r0.y) == ((m.r0.y * m.r0.z) * m.r1.x)) by (nonlinear_arith);
    lemma_mul_diff2(m.r1.x, m.r1.y, m.r2.z, m.r2.y, m.r1.z);
    assert(((m.r1.x * m.r2.y) * m.r1.z) == ((m.r1.x * m.r1.z) * m.r2.y)) by (nonlinear_arith);
    lemma_mul_diff2(m.r1.y, m.r1.z, m.r2.x, m.r2.z, m.r1.x);
    assert(((m.r1.y * m.r2.z) * m.r1.x) == ((m.r1.x * m.r1.y) * m.r2.z)) by (nonlinear_arith);
    lemma_mul_diff2(m.r1.z, m.r1.x, m.r2.y, m.r2.x, m.r1.y);
    assert(((m.r1.z * m.r1.x) * m.r2.y) == ((m.r1.x * m.r1.z) * m.r2.y)) by (nonlinear_arith);
    assert(((m.r1.z * m.r2.x) * m.r1.y) == ((m.r1.y * m.r1.z) * m.r2.x)) by (nonlinear_arith);
    lemma_mul_diff2(m.r1.x, m.r2.y, m.r0.z, m.r0.y, m.r2.z);
    assert(((m.r1.x * m.r2.y) * m.r0.z) == ((m.r0.z * m.r1.x) * m.r2.y)) by (nonlinear_arith);
    assert(((m.r1.x * m.r0.y) * m.r2.z) == ((m.r0.y * m.r1.x) * m.r2.z)) by (nonlinear_arith);
    lemma_mul_diff2(m.r1.y, m.r2.z, m.r0.x, m.r0.z, m.r2.x);
    assert(((m.r1.y * m.r2.z) * m.r0.x) == ((m.r0.x * m.r1.y) * m.r2.z)) by (nonlinear_arith);
    assert(((m.r1.y * m.r0.z) * m.r2.x) == ((m.r0.z * m.r1.y) * m.r2.x)) by (nonlinear_arith);
    lemma_mul_diff2(m.r1.z, m.r2.x, m.r0.y, m.r0.x, m.r2.y);
    assert(((m.r1.z * m.r2.x) * m.r0.y) == ((m.r0.y * m.r1.z) * m.r2.x)) by (nonlinear_arith);
    assert(((m.r1.z * m.r0.x) * m.r2.y) == ((m.r0.x * m.r1.z) * m.r2.y)) by (nonlinear_arith);
    lemma_mul_diff2(m.r1.x, m.r0.y, m.r1.z, m.r1.y, m.r0.z);
    assert(((m.r1.x * m.r0.y) * m.r1.z) == ((m.r0.y * m.r1.x) * m.r1.z)) by (nonlinear_arith);
    assert(((m.r1.x * m.r1.y) * m.r0.z) == ((m.r0.z * m.r1.x) * m.r1.y)) by (nonlinear_arith);
    lemma_mul_diff2(m.r1.y, m.r0.z, m.r1.x, m.r1.z, m.r0.x);
    assert(((m.r1.y * m.r0.z) * m.r1.x) == ((m.r0.z * m.r1.x) * m.r1.y)) by (nonlinear_arith);
    assert(((m.r1.y * m.r1.z) * m.r0.x) == ((m.r0.x * m.r1.y) * m.r1.z)) by (nonlinear_arith);
    lemma_mul_diff2(m.r1.z, m.r0.x, m.r1.y, m.r1.x, m.r0.y);
    assert(((m.r1.z * m.r0.x) * m.r1.y) == ((m.r0.x * m.r1.y) * m.r1.z)) by (nonlinear_arith);
    assert(((m.r1.z * m.r1.x) * m.r0.y) == ((m.r0.y * m.r1.x) * m.r1.z)) by (nonlinear_arith);
    lemma_mul_diff2(m.r2.x, m.r1.y, m.r2.z, m.r2.y, m.r1.z);
    assert(((m.r2.x * m.r1.y) * m.r2.z) == ((m.r1.y * m.r2.x) * m.r2.z)) by (nonlinear_arith);
    assert(((m.r2.x * m.r2.y) * m.r1.z) == ((m.r1.z * m.r2.x) * m.r2.y)) by (nonlinear_arith);
    lemma_mul_diff2(m.r2.y, m.r1.z, m.r2.x, m.r2.z, m.r1.x);
    assert(((m.r2.y * m.r1.z) * m.r2.x) == ((m.r1.z * m.r2.x) * m.r2.y)) by (nonlinear_arith);
    assert(((m.r2.y * m.r2.z) * m.r1.x) == ((m.r1.x * m.r2.y) * m.r2.z)) by (nonlinear_arith);
    lemma_mul_diff2(m.r2.z, m.r1.x, m.r2.y, m.r2.x, m.r1.y);
    assert(((m.r2.z * m.r1.x) * m.r2.y) == ((m.r1.x * m.r2.y) * m.r2.z)) by (nonlinear_arith);
    assert(((m.r2.z * m.r2.x) * m.r1.y) == ((m.r1.y * m.r2.x) * m.r2.z)) by (nonlinear_arith);
    lemma_mul_diff2(m.r2.x, m.r2.y, m.r0.z, m.r0.y, m.r2.z);
    assert(((m.r2.x * m.r2.y) * m.r0.z) == ((m.r0.z * m.r2.x) * m.r2.y)) by (nonlinear_arith);
    assert(((m.r2.x * m.r0.y) * m.r2.z) == ((m.r0.y * m.r2.x) * m.r2.z)) by (nonlinear_arith);
    lemma_mul_diff2(m.r2.y, m.r2.z, m.r0.x, m.r0.z, m.r2.x);
    assert(((m.r2.y * m.r2.z) * m.r0.x) == ((m.r0.x * m.r2.y) * m.r2.z)) by (nonlinear_arith);
    assert(((m.r2.y * m.r0.z) * m.r2.x) == ((m.r0.z * m.r2.x) * m.r2.y)) by (nonlinear_arith);
    lemma_mul_diff2(m.r2.z, m.r2.x, m.r0.y, m.r0.x, m.r2.y);
    assert(((m.r2.z * m.r2.x) * m.r0.y) == ((m.r0.y * m.r2.x) * m.r2.z)) by (nonlinear_arith);
    assert(((m.r2.z * m.r0.x) * m.r2.y) == ((m.r0.x * m.r2.y) * m.r2.z)) by (nonlinear_arith);
    lemma_mul_diff2(m.r2.x, m.r0.y, m.r1.z, m.r1.y, m.r0.z);
    assert(((m.r2.x * m.r0.y) * m.r1.z) == ((m.r0.y * m.r1.z) * m.r2.x)) by (nonlinear_arith);
    assert(((m.r2.x * m.r1.y) * m.r0.z) == ((m.r0.z * m.r1.y) * m.r2.x)) by (nonlinear_arith);
    lemma_mul_diff2(m.r2.y, m.r0.z, m.r1.x, m.r1.z, m.r0.x);
    assert(((m.r2.y * m.r0.z) * m.r1.x) == ((m.r0.z * m.r1.x) * m.r2.y)) by (nonlinear_arith);
    assert(((m.r2.y * m.r1.z) * m.r0.x) == ((m.r0.x * m.r1.z) * m.r2.y)) by (nonlinear_arith);
    lemma_mul_diff2(m.r2.z, m.r0.x, m.r1.y, m.r1.x, m.r0.y);
    assert(((m.r2.z * m.r0.x) * m.r1.y) == ((m.r0.x * m.r1.y) * m.r2.z)) by (nonlinear_arith);
    assert(((m.r2.z * m.r1.x) * m.r0.y) == ((m.r0.y * m.r1.x) * m.r2.z)) by (nonlinear_arith);
    assert(m.matmul(m.adjugate()) == (Mat3i {
        r0: Vec3i { x: m.det(), y: 0, z: 0 },
        r1: Vec3i { x: 0, y: m.det(), z: 0 },
        r2: Vec3i { x: 0, y: 0, z: m.det() },
    }));
}

/// The inverse law: a matrix whose determinant is a unit, multiplied by the
/// inverse the adjugate method produces, gives the identity matrix exactly.
pub proof fn lemma_mat3_inverse_law(m: Mat3i)
    requires
        m.det() == 1 || m.det() == -1,
    ensures
        m.inverse() matches Some(inv) && m.matmul(inv) == Mat3i::identity(),
{
    lemma_mat3_adjugate_identity(m);
    lemma_trunc_recip(m.det());
    let d = trunc_div(1, m.det());
    let inv = m.inverse()->Some_0;
    assert(inv.col(0) == m.adjugate().col(0).scale(d));
    assert(inv.col(1) == m.adjugate().col(1).scale(d));
    assert(inv.col(2) == m.adjugate().col(2).scale(d));
    lemma_dot_scale(m.r0, m.adjugate().col(0), d);
    lemma_dot_scale(m.r0, m.adjugate().col(1), d);
    lemma_dot_scale(m.r0, m.adjugate().col(2), d);
    lemma_dot_scale(m.r1, m.adjugate().col(0), d);
    lemma_dot_scale(m.r1, m.adjugate().col(1), d);
    lemma_dot_scale(m.r1, m.adjugate().col(2), d);
    lemma_dot_scale(m.r2, m.adjugate().col(0), d);
    lemma_dot_scale(m.r2, m.adjugate().col(1), d);
    lemma_dot_scale(m.r2, m.adjugate().col(2), d);
    assert(m.matmul(m.inverse()->Some_0) == Mat3i::identity());
}


/// Negation distributes out of a product.
pub proof fn lemma_neg_mul(x: int, k: int)
    by (nonlinear_arith)
    ensures
        -(x * k) == (-x) * k,
{
}

/// Scaling the second factor of a cross product scales the cross product.
pub proof fn lemma_cross_scale_right(p: Vec3i, q: Vec3i, k: int)
    ensures
        p.cross(q.scale(k)) == p.cross(q).scale(k),
{
    assert(p.y * (q.z * k) - p.z * (q.y * k) == (p.y * q.z - p.z * q.y) * k) by (nonlinear_arith);
    assert(p.z * (q.x * k) - p.x * (q.z * k) == (p.z * q.x - p.x * q.z) * k) by (nonlinear_arith);
    assert(p.x * (q.y * k) - p.y * (q.x * k) == (p.x * q.y - p.y * q.x) * k) by (nonlinear_arith);
}

/// Scaling the first factor of a cross product scales the cross product.
pub proof fn lemma_cross_scale_left(p: Vec3i, q: Vec3i, k: int)
    ensures
        p.scale(k).cross(q) == p.cross(q).scale(k),
{
    assert((p.y * k) * q.z - (p.z * k) * q.y == (p.y * q.z - p.z * q.y) * k) by (nonlinear_arith);
    assert((p.z * k) * q.x - (p.x * k) * q.z == (p.z * q.x - p.x * q.z) * k) by (nonlinear_arith);
    assert((p.x * k) * q.y - (p.y * k) * q.x == (p.x * q.y - p.y * q.x) * k) by (nonlinear_arith);
}

/// Two scalings of a vector commute.
pub proof fn lemma_scale_scale_swap(p: Vec3i, k: int, y: int)
    ensures
        p.scale(k).scale(y) == p.scale(y).scale(k),
{
    assert((p.x * k) * y == (p.x * y) * k) by (nonlinear_arith);
    assert((p.y * k) * y == (p.y * y) * k) by (nonlinear_arith);
    assert((p.z * k) * y == (p.z * y) * k) by (nonlinear_arith);
}

/// Scaling distributes over vector addition.
pub proof fn lemma_add_scale(p: Vec3i, q: Vec3i, k: int)
    ensures
        p.scale(k).add(q.scale(k)) == p.add(q).scale(k),
{
    assert(p.x * k + q.x * k == (p.x + q.x) * k) by (nonlinear_arith);
    assert(p.y * k + q.y * k == (p.y + q.y) * k) by (nonlinear_arith);
    assert(p.z * k + q.z * k == (p.z + q.z) * k) by (nonlinear_arith);
}

/// Scaling distributes over vector subtraction.
pub proof fn lemma_sub_scale(p: Vec3i, q: Vec3i, k: int)
    ensures
        p.scale(k).sub(q.scale(k)) == p.sub(q).scale(k),
{
    assert(p.x * k - q.x * k == (p.x - q.x) * k) by (nonlinear_arith);
    assert(p.y * k - q.y * k == (p.y - q.y) * k) by (nonlinear_arith);
    assert(p.z * k - q.z * k == (p.z - q.z) * k) by (nonlinear_arith);
}

/// Scaling the second factor of a four-component dot product scales the dot
/// product.
pub proof fn lemma_dot4_scale(a: Vec4i, b: Vec4i, k: int)
    ensures
        a.dot(b.scale(k)) == a.dot(b) * k,
{
    assert(a.x * (b.x * k) == (a.x * b.x) * k) by (nonlinear_arith);
    assert(a.y * (b.y * k) == (a.y * b.y) * k) by (nonlinear_arith);
    assert(a.z * (b.z * k) == (a.z * b.z) * k) by (nonlinear_arith);
    assert(a.w * (b.w * k) == (a.w * b.w) * k) by (nonlinear_arith);
    assert((a.x * b.x) * k + (a.y * b.y) * k + (a.z * b.z) * k + (a.w * b.w) * k == (a.x * b.x
        + a.y * b.y + a.z * b.z + a.w * b.w) * k) by (nonlinear_arith);
}

/// Column 0 of the product of a matrix with its block adjugate: the
/// diagonal entry is the determinant and the others vanish. The expansion
/// is written product by product, since the nonlinear solver only handles
/// small steps.
proof fn lemma_mat4_blk_col0(m: Mat4i)
    ensures
        m.r0.dot(m.blk_adjugate().col(0)) == m.blk_det(),
        m.r1.dot(m.blk_adjugate().col(0)) == 0,
        m.r2.dot(m.blk_adjugate().col(0)) == 0,
        m.r3.dot(m.blk_adjugate().col(0)) == 0,
{
    let a0: int = m.r0.x;
    let a1: int = m.r0.y;
    let a2: int = m.r0.z;
    let a3: int = m.r0.w;
    let b0: int = m.r1.x;
    let b1: int = m.r1.y;
    let b2: int = m.r1.z;
    let b3: int = m.r1.w;
    let c0: int = m.r2.x;
    let c1: int = m.r2.y;
    let c2: int = m.r2.z;
    let c3: int = m.r2.w;
    let d0: int = m.r3.x;
    let d1: int = m.r3.y;
    let d2: int = m.r3.z;
    let d3: int = m.r3.w;
    lemma_mul_diff2(b1, c2, d3, c3, d2);
    lemma_mul_diff2(c1, b2, d3, b3, d2);
    assert((c1 * b2) * d3 == ((b2 * c1) * d3)) by (nonlinear_arith);
    assert((c1 * b3) * d2 == ((b3 * c1) * d2)) by (nonlinear_arith);
    assert((b2 * c3 - c2 * b3) * d1 == ((b2 * c3) * d1) - ((b3 * c2) * d1)) by (nonlinear_arith);
    assert((b2 * d3 - b3 * d2) * c0 == ((b2 * c0) * d3) - ((b3 * c0) * d2)) by (nonlinear_arith);
    assert((c2 * d3 - c3 * d2) * b0 == ((b0 * c2) * d3) - ((b0 * c3) * d2)) by (nonlinear_arith);
    assert((b2 * c3 - c2 * b3) * d0 == ((b2 * c3) * d0) - ((b3 * c2) * d0)) by (nonlinear_arith);
    lemma_mul_diff2(b3, c0, d1, c1, d0);
    lemma_mul_diff2(c3, b0, d1, b1, d0);
    assert((c3 * b0) * d1 == ((b0 * c3) * d1)) by (nonlinear_arith);
    assert((c3 * b1) * d0 == ((b1 * c3) * d0)) by (nonlinear_arith);
    assert((b0 * c1 - c0 * b1) * d3 == ((b0 * c1) * d3) - ((b1 * c0) * d3)) by (nonlinear_arith);
    assert((b0 * d1 - b1 * d0) * c2 == ((b0 * c2) * d1) - ((b1 * c2) * d0)) by (nonlinear_arith);
    assert((c0 * d1 - c1 * d0) * b2 == ((b2 * c0) * d1) - ((b2 * c1) * d0)) by (nonlinear_arith);
    assert((b0 * c1 - c0 * b1) * d2 == ((b0 * c1) * d2) - ((b1 * c0) * d2)) by (nonlinear_arith);
    lemma_bin_mul(b0 * c1, c0 * b1, a2 * d3, a3 * d2);
    assert((b0 * c1) * (a2 * d3) == ((a2 * b0) * c1) * d3) by (nonlinear_arith);
    assert((b0 * c1) * (a3 * d2) == ((a3 * b0) * c1) * d2) by (nonlinear_arith);
    assert((c0 * b1) * (a2 * d3) == ((a2 * b1) * c0) * d3) by (nonlinear_arith);
    assert((c0 * b1) * (a3 * d2) == ((a3 * b1) * c0) * d2) by (nonlinear_arith);
    lemma_bin_mul(c0 * a1, a0 * c1, b2 * d3, b3 * d2);
    assert((c0 * a1) * (b2 * d3) == ((a1 * b2) * c0) * d3) by (nonlinear_arith);
    assert((c0 * a1) * (b3 * d2) == ((a1 * b3) * c0) * d2) by (nonlinear_arith);
    assert((a0 * c1) * (b2 * d3) == ((a0 * b2) * c1) * d3) by (nonlinear_arith);
    assert((a0 * c1) * (b3 * d2) == ((a0 * b3) * c1) * d2) by (nonlinear_arith);
    lemma_bin_mul(a0 * b1, b0 * a1, c2 * d3, c3 * d2);
    assert((a0 * b1) * (c2 * d3) == ((a0 * b1) * c2) * d3) by (nonlinear_arith);
    assert((a0 * b1) * (c3 * d2) == ((a0 * b1) * c3) * d2) by (nonlinear_arith);
    assert((b0 * a1) * (c2 * d3) == ((a1 * b0) * c2) * d3) by (nonlinear_arith);
    assert((b0 * a1) * (c3 * d2) == ((a1 * b0) * c3) * d2) by (nonlinear_arith);
    lemma_bin_mul(b2 * c3, c2 * b3, a0 * d1, a1 * d0);
    assert((b2 * c3) * (a0 * d1) == ((a0 * b2) * c3) * d1) by (nonlinear_arith);
    assert((b2 * c3) * (a1 * d0) == ((a1 * b2) * c3) * d0) by (nonlinear_arith);
    assert((c2 * b3) * (a0 * d1) == ((a0 * b3) * c2) * d1) by (nonlinear_arith);
    assert((c2 * b3) * (a1 * d0) == ((a1 * b3) * c2) * d0) by (nonlinear_arith);
    lemma_bin_mul(c2 * a3, a2 * c3, b0 * d1, b1 * d0);
    assert((c2 * a3) * (b0 * d1) == ((a3 * b0) * c2) * d1) by (nonlinear_arith);
    assert((c2 * a3) * (b1 * d0) == ((a3 * b1) * c2) * d0) by (nonlinear_arith);
    assert((a2 * c3) * (b0 * d1) == ((a2 * b0) * c3) * d1) by (nonlinear_arith);
    assert((a2 * c3) * (b1 * d0) == ((a2 * b1) * c3) * d0) by (nonlinear_arith);
    lemma_bin_mul(a2 * b3, b2 * a3, c0 * d1, c1 * d0);
    assert((a2 * b3) * (c0 * d1) == ((a2 * b3) * c0) * d1) by (nonlinear_arith);
    assert((a2 * b3) * (c1 * d0) == ((a2 * b3) * c1) * d0) by (nonlinear_arith);
    assert((b2 * a3) * (c0 * d1) == ((a3 * b2) * c0) * d1) by (nonlinear_arith);
    assert((b2 * a3) * (c1 * d0) == ((a3 * b2) * c1) * d0) by (nonlinear_arith);
    lemma_distribute6_plus(a0, ((b1 * c2) * d3), -((b1 * c3) * d2), -((b2 * c1) * d3), ((b2 * c3) * d1), ((b3 * c1) * d2), -((b3 * c2) * d1));
    assert(a0 * ((b1 * c2) * d3) == ((a0 * b1) * c2) * d3) by (nonlinear_arith);
    assert(a0 * (-((b1 * c3) * d2)) == -(((a0 * b1) * c3) * d2)) by (nonlinear_arith);
    assert(a0 * (-((b2 * c1) * d3)) == -(((a0 * b2) * c1) * d3)) by (nonlinear_arith);
    assert(a0 * ((b2 * c3) * d1) == ((a0 * b2) * c3) * d1) by (nonlinear_arith);
    assert(a0 * ((b3 * c1) * d2) == ((a0 * b3) * c1) * d2) by (nonlinear_arith);
    assert(a0 * (-((b3 * c2) * d1)) == -(((a0 * b3) * c2) * d1)) by (nonlinear_arith);
    lemma_distribute6_plus(a1, -((b0 * c2) * d3), ((b0 * c3) * d2), ((b2 * c0) * d3), -((b2 * c3) * d0), -((b3 * c0) * d2), ((b3 * c2) * d0));
    assert(a1 * (-((b0 * c2) * d3)) == -(((a1 * b0) * c2) * d3)) by (nonlinear_arith);
    assert(a1 * ((b0 * c3) * d2) == ((a1 * b0) * c3) * d2) by (nonlinear_arith);
    assert(a1 * ((b2 * c0) * d3) == ((a1 * b2) * c0) * d3) by (nonlinear_arith);
    assert(a1 * (-((b2 * c3) * d0)) == -(((a1 * b2) * c3) * d0)) by (nonlinear_arith);
    assert(a1 * (-((b3 * c0) * d2)) == -(((a1 * b3) * c0) * d2)) by (nonlinear_arith);
    assert(a1 * ((b3 * c2) * d0) == ((a1 * b3) * c2) * d0) by (nonlinear_arith);
    lemma_distribute6_plus(a2, ((b0 * c1) * d3), -((b0 * c3) * d1), -((b1 * c0) * d3), ((b1 * c3) * d0), ((b3 * c0) * d1), -((b3 * c1) * d0));
    assert(a2 * ((b0 * c1) * d3) == ((a2 * b0) * c1) * d3) by (nonlinear_arith);
    assert(a2 * (-((b0 * c3) * d1)) == -(((a2 * b0) * c3) * d1)) by (nonlinear_arith);
    assert(a2 * (-((b1 * c0) * d3)) == -(((a2 * b1) * c0) * d3)) by (nonlinear_arith);
    assert(a2 * ((b1 * c3) * d0) == ((a2 * b1) * c3) * d0) by (nonlinear_arith);
    assert(a2 * ((b3 * c0) * d1) == ((a2 * b3) * c0) * d1) by (nonlinear_arith);
    assert(a2 * (-((b3 * c1) * d0)) == -(((a2 * b3) * c1) * d0)) by (nonlinear_arith);
    lemma_distribute6_plus(a3, -((b0 * c1) * d2), ((b0 * c2) * d1), ((b1 * c0) * d2), -((b1 * c2) * d0), -((b2 * c0) * d1), ((b2 * c1) * d0));
    assert(a3 * (-((b0 * c1) * d2)) == -(((a3 * b0) * c1) * d2)) by (nonlinear_arith);
    assert(a3 * ((b0 * c2) * d1) == ((a3 * b0) * c2) * d1) by (nonlinear_arith);
    assert(a3 * ((b1 * c0) * d2) == ((a3 * b1) * c0) * d2) by (nonlinear_arith);
    assert(a3 * (-((b1 * c2) * d0)) == -(((a3 * b1) * c2) * d0)) by (nonlinear_arith);
    assert(a3 * (-((b2 * c0) * d1)) == -(((a3 * b2) * c0) * d1)) by (nonlinear_arith);
    assert(a3 * ((b2 * c1) * d0) == ((a3 * b2) * c1) * d0) by (nonlinear_arith);
    lemma_distribute6_plus(b0, ((b1 * c2) * d3), -((b1 * c3) * d2), -((b2 * c1) * d3), ((b2 * c3) * d1), ((b3 * c1) * d2), -((b3 * c2) * d1));
    assert(b0 * ((b1 * c2) * d3) == ((b0 * b1) * c2) * d3) by (nonlinear_arith);
    assert(b0 * (-((b1 * c3) * d2)) == -(((b0 * b1) * c3) * d2)) by (nonlinear_arith);
    assert(b0 * (-((b2 * c1) * d3)) == -(((b0 * b2) * c1) * d3)) by (nonlinear_arith);
    assert(b0 * ((b2 * c3) * d1) == ((b0 * b2) * c3) * d1) by (nonlinear_arith);
    assert(b0 * ((b3 * c1) * d2) == ((b0 * b3) * c1) * d2) by (nonlinear_arith);
    assert(b0 * (-((b3 * c2) * d1)) == -(((b0 * b3) * c2) * d1)) by (nonlinear_arith);
    lemma_distribute6_plus(b1, -((b0 * c2) * d3), ((b0 * c3) * d2), ((b2 * c0) * d3), -((b2 * c3) * d0), -((b3 * c0) * d2), ((b3 * c2) * d0));
    assert(b1 * (-((b0 * c2) * d3)) == -(((b0 * b1) * c2) * d3)) by (nonlinear_arith);
    assert(b1 * ((b0 * c3) * d2) == ((b0 * b1) * c3) * d2) by (nonlinear_arith);
    assert(b1 * ((b2 * c0) * d3) == ((b1 * b2) * c0) * d3) by (nonlinear_arith);
    assert(b1 * (-((b2 * c3) * d0)) == -(((b1 * b2) * c3) * d0)) by (nonlinear_arith);
    assert(b1 * (-((b3 * c0) * d2)) == -(((b1 * b3) * c0) * d2)) by (nonlinear_arith);
    assert(b1 * ((b3 * c2) * d0) == ((b1 * b3) * c2) * d0) by (nonlinear_arith);
    lemma_distribute6_plus(b2, ((b0 * c1) * d3), -((b0 * c3) * d1), -((b1 * c0) * d3), ((b1 * c3) * d0), ((b3 * c0) * d1), -((b3 * c1) * d0));
    assert(b2 * ((b0 * c1) * d3) == ((b0 * b2) * c1) * d3) by (nonlinear_arith);
    assert(b2 * (-((b0 * c3) * d1)) == -(((b0 * b2) * c3) * d1)) by (nonlinear_arith);
    assert(b2 * (-((b1 * c0) * d3)) == -(((b1 * b2) * c0) * d3)) by (nonlinear_arith);
    assert(b2 * ((b1 * c3) * d0) == ((b1 * b2) * c3) * d0) by (nonlinear_arith);
    assert(b2 * ((b3 * c0) * d1) == ((b2 * b3) * c0) * d1) by (nonlinear_arith);
    assert(b2 * (-((b3 * c1) * d0)) == -(((b2 * b3) * c1) * d0)) by (nonlinear_arith);
    lemma_distribute6_plus(b3, -((b0 * c1) * d2), ((b0 * c2) * d1), ((b1 * c0) * d2), -((b1 * c2) * d0), -((b2 * c0) * d1), ((b2 * c1) * d0));
    assert(b3 * (-((b0 * c1) * d2)) == -(((b0 * b3) * c1) * d2)) by (nonlinear_arith);
    assert(b3 * ((b0 * c2) * d1) == ((b0 * b3) * c2) * d1) by (nonlinear_arith);
    assert(b3 * ((b1 * c0) * d2) == ((b1 * b3) * c0) * d2) by (nonlinear_arith);
    assert(b3 * (-((b1 * c2) * d0)) == -(((b1 * b3) * c2) * d0)) by (nonlinear_arith);
    assert(b3 * (-((b2 * c0) * d1)) == -(((b2 * b3) * c0) * d1)) by (nonlinear_arith);
    assert(b3 * ((b2 * c1) * d0) == ((b2 * b3) * c1) * d0) by (nonlinear_arith);
    lemma_distribute6_plus(c0, ((b1 * c2) * d3), -((b1 * c3) * d2), -((b2 * c1) * d3), ((b2 * c3) * d1), ((b3 * c1) * d2), -((b3 * c2) * d1));
    assert(c0 * ((b1 * c2) * d3) == ((b1 * c0) * c2) * d3) by (nonlinear_arith);
    assert(c0 * (-((b1 * c3) * d2)) == -(((b1 * c0) * c3) * d2)) by (nonlinear_arith);
    assert(c0 * (-((b2 * c1) * d3)) == -(((b2 * c0) * c1) * d3)) by (nonlinear_arith);
    assert(c0 * ((b2 * c3) * d1) == ((b2 * c0) * c3) * d1) by (nonlinear_arith);
    assert(c0 * ((b3 * c1) * d2) == ((b3 * c0) * c1) * d2) by (nonlinear_arith);
    assert(c0 * (-((b3 * c2) * d1)) == -(((b3 * c0) * c2) * d1)) by (nonlinear_arith);
    lemma_distribute6_plus(c1, -((b0 * c2) * d3), ((b0 * c3) * d2), ((b2 * c0) * d3), -((b2 * c3) * d0), -((b3 * c0) * d2), ((b3 * c2) * d0));
    assert(c1 * (-((b0 * c2) * d3)) == -(((b0 * c1) * c2) * d3)) by (nonlinear_arith);
    assert(c1 * ((b0 * c3) * d2) == ((b0 * c1) * c3) * d2) by (nonlinear_arith);
    assert(c1 * ((b2 * c0) * d3) == ((b2 * c0) * c1) * d3) by (nonlinear_arith);
    assert(c1 * (-((b2 * c3) * d0)) == -(((b2 * c1) * c3) * d0)) by (nonlinear_arith);
    assert(c1 * (-((b3 * c0) * d2)) == -(((b3 * c0) * c1) * d2)) by (nonlinear_arith);
    assert(c1 * ((b3 * c2) * d0) == ((b3 * c1) * c2) * d0) by (nonlinear_arith);
    lemma_distribute6_plus(c2, ((b0 * c1) * d3), -((b0 * c3) * d1), -((b1 * c0) * d3), ((b1 * c3) * d0), ((b3 * c0) * d1), -((b3 * c1) * d0));
    assert(c2 * ((b0 * c1) * d3) == ((b0 * c1) * c2) * d3) by (nonlinear_arith);
    assert(c2 * (-((b0 * c3) * d1)) == -(((b0 * c2) * c3) * d1)) by (nonlinear_arith);
    assert(c2 * (-((b1 * c0) * d3)) == -(((b1 * c0) * c2) * d3)) by (nonlinear_arith);
    assert(c2 * ((b1 * c3) * d0) == ((b1 * c2) * c3) * d0) by (nonlinear_arith);
    assert(c2 * ((b3 * c0) * d1) == ((b3 * c0) * c2) * d1) by (nonlinear_arith);
    assert(c2 * (-((b3 * c1) * d0)) == -(((b3 * c1) * c2) * d0)) by (nonlinear_arith);
    lemma_distribute6_plus(c3, -((b0 * c1) * d2), ((b0 * c2) * d1), ((b1 * c0) * d2), -((b1 * c2) * d0), -((b2 * c0) * d1), ((b2 * c1) * d0));
    assert(c3 * (-((b0 * c1) * d2)) == -(((b0 * c1) * c3) * d2)) by (nonlinear_arith);
    assert(c3 * ((b0 * c2) * d1) == ((b0 * c2) * c3) * d1) by (nonlinear_arith);
    assert(c3 * ((b1 * c0) * d2) == ((b1 * c0) * c3) * d2) by (nonlinear_arith);
    assert(c3 * (-((b1 * c2) * d0)) == -(((b1 * c2) * c3) * d0)) by (nonlinear_arith);
    assert(c3 * (-((b2 * c0) * d1)) == -(((b2 * c0) * c3) * d1)) by (nonlinear_arith);
    assert(c3 * ((b2 * c1) * d0) == ((b2 * c1) * c3) * d0) by (nonlinear_arith);
    lemma_distribute6_plus(d0, ((b1 * c2) * d3), -((b1 * c3) * d2), -((b2 * c1) * d3), ((b2 * c3) * d1), ((b3 * c1) * d2), -((b3 * c2) * d1));
    assert(d0 * ((b1 * c2) * d3) == ((b1 * c2) * d0) * d3) by (nonlinear_arith);
    assert(d0 * (-((b1 * c3) * d2)) == -(((b1 * c3) * d0) * d2)) by (nonlinear_arith);
    assert(d0 * (-((b2 * c1) * d3)) == -(((b2 * c1) * d0) * d3)) by (nonlinear_arith);
    assert(d0 * ((b2 * c3) * d1) == ((b2 * c3) * d0) * d1) by (nonlinear_arith);
    assert(d0 * ((b3 * c1) * d2) == ((b3 * c1) * d0) * d2) by (nonlinear_arith);
    assert(d0 * (-((b3 * c2) * d1)) == -(((b3 * c2) * d0) * d1)) by (nonlinear_arith);
    lemma_distribute6_plus(d1, -((b0 * c2) * d3), ((b0 * c3) * d2), ((b2 * c0) * d3), -((b2 * c3) * d0), -((b3 * c0) * d2), ((b3 * c2) * d0));
    assert(d1 * (-((b0 * c2) * d3)) == -(((b0 * c2) * d1) * d3)) by (nonlinear_arith);
    assert(d1 * ((b0 * c3) * d2) == ((b0 * c3) * d1) * d2) by (nonlinear_arith);
    assert(d1 * ((b2 * c0) * d3) == ((b2 * c0) * d1) * d3) by (nonlinear_arith);
    assert(d1 * (-((b2 * c3) * d0)) == -(((b2 * c3) * d0) * d1)) by (nonlinear_arith);
    assert(d1 * (-((b3 * c0) * d2)) == -(((b3 * c0) * d1) * d2)) by (nonlinear_arith);
    assert(d1 * ((b3 * c2) * d0) == ((b3 * c2) * d0) * d1) by (nonlinear_arith);
    lemma_distribute6_plus(d2, ((b0 * c1) * d3), -((b0 * c3) * d1), -((b1 * c0) * d3), ((b1 * c3) * d0), ((b3 * c0) * d1), -((b3 * c1) * d0));
    assert(d2 * ((b0 * c1) * d3) == ((b0 * c1) * d2) * d3) by (nonlinear_arith);
    assert(d2 * (-((b0 * c3) * d1)) == -(((b0 * c3) * d1) * d2)) by (nonlinear_arith);
    assert(d2 * (-((b1 * c0) * d3)) == -(((b1 * c0) * d2) * d3)) by (nonlinear_arith);
    assert(d2 * ((b1 * c3) * d0) == ((b1 * c3) * d0) * d2) by (nonlinear_arith);
    assert(d2 * ((b3 * c0) * d1) == ((b3 * c0) * d1) * d2) by (nonlinear_arith);
    assert(d2 * (-((b3 * c1) * d0)) == -(((b3 * c1) * d0) * d2)) by (nonlinear_arith);
    lemma_distribute6_plus(d3, -((b0 * c1) * d2), ((b0 * c2) * d1), ((b1 * c0) * d2), -((b1 * c2) * d0), -((b2 * c0) * d1), ((b2 * c1) * d0));
    assert(d3 * (-((b0 * c1) * d2)) == -(((b0 * c1) * d2) * d3)) by (nonlinear_arith);
    assert(d3 * ((b0 * c2) * d1) == ((b0 * c2) * d1) * d3) by (nonlinear_arith);
    assert(d3 * ((b1 * c0) * d2) == ((b1 * c0) * d2) * d3) by (nonlinear_arith);
    assert(d3 * (-((b1 * c2) * d0)) == -(((b1 * c2) * d0) * d3)) by (nonlinear_arith);
    assert(d3 * (-((b2 * c0) * d1)) == -(((b2 * c0) * d1) * d3)) by (nonlinear_arith);
    assert(d3 * ((b2 * c1) * d0) == ((b2 * c1) * d0) * d3) by (nonlinear_arith);
}

/// Column 1 of the product of a matrix with its block adjugate: the
/// diagonal entry is the determinant and the others vanish. The expansion
/// is written product by product, since the nonlinear solver only handles
/// small steps.
proof fn lemma_mat4_blk_col1(m: Mat4i)
    ensures
        m.r0.dot(m.blk_adjugate().col(1)) == 0,
        m.r1.dot(m.blk_adjugate().col(1)) == m.blk_det(),
        m.r2.dot(m.blk_adjugate().col(1)) == 0,
        m.r3.dot(m.blk_adjugate().col(1)) == 0,
{
    let a0: int = m.r0.x;
    let a1: int = m.r0.y;
    let a2: int = m.r0.z;
    let a3: int = m.r0.w;
    let b0: int = m.r1.x;
    let b1: int = m.r1.y;
    let b2: int = m.r1.z;
    let b3: int = m.r1.w;
    let c0: int = m.r2.x;
    let c1: int = m.r2.y;
    let c2: int = m.r2.z;
    let c3: int = m.r2.w;
    let d0: int = m.r3.x;
    let d1: int = m.r3.y;
    let d2: int = m.r3.z;
    let d3: int = m.r3.w;
    lemma_mul_diff2(c1, a2, d3, a3, d2);
    assert((c1 * a2) * d3 == ((a2 * c1) * d3)) by (nonlinear_arith);
    assert((c1 * a3) * d2 == ((a3 * c1) * d2)) by (nonlinear_arith);
    lemma_mul_diff2(a1, c2, d3, c3, d2);
    assert((c2 * a3 - a2 * c3) * d1 == ((a3 * c2) * d1) - ((a2 * c3) * d1)) by (nonlinear_arith);
    assert((c2 * d3 - c3 * d2) * a0 == ((a0 * c2) * d3) - ((a0 * c3) * d2)) by (nonlinear_arith);
    assert((a2 * d3 - a3 * d2) * c0 == ((a2 * c0) * d3) - ((a3 * c0) * d2)) by (nonlinear_arith);
    assert((c2 * a3 - a2 * c3) * d0 == ((a3 * c2) * d0) - ((a2 * c3) * d0)) by (nonlinear_arith);
    lemma_mul_diff2(c3, a0, d1, a1, d0);
    assert((c3 * a0) * d1 == ((a0 * c3) * d1)) by (nonlinear_arith);
    assert((c3 * a1) * d0 == ((a1 * c3) * d0)) by (nonlinear_arith);
    lemma_mul_diff2(a3, c0, d1, c1, d0);
    assert((c0 * a1 - a0 * c1) * d3 == ((a1 * c0) * d3) - ((a0 * c1) * d3)) by (nonlinear_arith);
    assert((c0 * d1 - c1 * d0) * a2 == ((a2 * c0) * d1) - ((a2 * c1) * d0)) by (nonlinear_arith);
    assert((a0 * d1 - a1 * d0) * c2 == ((a0 * c2) * d1) - ((a1 * c2) * d0)) by (nonlinear_arith);
    assert((c0 * a1 - a0 * c1) * d2 == ((a1 * c0) * d2) - ((a0 * c1) * d2)) by (nonlinear_arith);
    lemma_bin_mul(b0 * c1, c0 * b1, a2 * d3, a3 * d2);
    assert((b0 * c1) * (a2 * d3) == ((a2 * b0) * c1) * d3) by (nonlinear_arith);
    assert((b0 * c1) * (a3 * d2) == ((a3 * b0) * c1) * d2) by (nonlinear_arith);
    assert((c0 * b1) * (a2 * d3) == ((a2 * b1) * c0) * d3) by (nonlinear_arith);
    assert((c0 * b1) * (a3 * d2) == ((a3 * b1) * c0) * d2) by (nonlinear_arith);
    lemma_bin_mul(c0 * a1, a0 * c1, b2 * d3, b3 * d2);
    assert((c0 * a1) * (b2 * d3) == ((a1 * b2) * c0) * d3) by (nonlinear_arith);
    assert((c0 * a1) * (b3 * d2) == ((a1 * b3) * c0) * d2) by (nonlinear_arith);
    assert((a0 * c1) * (b2 * d3) == ((a0 * b2) * c1) * d3) by (nonlinear_arith);
    assert((a0 * c1) * (b3 * d2) == ((a0 * b3) * c1) * d2) by (nonlinear_arith);
    lemma_bin_mul(a0 * b1, b0 * a1, c2 * d3, c3 * d2);
    assert((a0 * b1) * (c2 * d3) == ((a0 * b1) * c2) * d3) by (nonlinear_arith);
    assert((a0 * b1) * (c3 * d2) == ((a0 * b1) * c3) * d2) by (nonlinear_arith);
    assert((b0 * a1) * (c2 * d3) == ((a1 * b0) * c2) * d3) by (nonlinear_arith);
    assert((b0 * a1) * (c3 * d2) == ((a1 * b0) * c3) * d2) by (nonlinear_arith);
    lemma_bin_mul(b2 * c3, c2 * b3, a0 * d1, a1 * d0);
    assert((b2 * c3) * (a0 * d1) == ((a0 * b2) * c3) * d1) by (nonlinear_arith);
    assert((b2 * c3) * (a1 * d0) == ((a1 * b2) * c3) * d0) by (nonlinear_arith);
    assert((c2 * b3) * (a0 * d1) == ((a0 * b3) * c2) * d1) by (nonlinear_arith);
    assert((c2 * b3) * (a1 * d0) == ((a1 * b3) * c2) * d0) by (nonlinear_arith);
    lemma_bin_mul(c2 * a3, a2 * c3, b0 * d1, b1 * d0);
    assert((c2 * a3) * (b0 * d1) == ((a3 * b0) * c2) * d1) by (nonlinear_arith);
    assert((c2 * a3) * (b1 * d0) == ((a3 * b1) * c2) * d0) by (nonlinear_arith);
    assert((a2 * c3) * (b0 * d1) == ((a2 * b0) * c3) * d1) by (nonlinear_arith);
    assert((a2 * c3) * (b1 * d0) == ((a2 * b1) * c3) * d0) by (nonlinear_arith);
    lemma_bin_mul(a2 * b3, b2 * a3, c0 * d1, c1 * d0);
    assert((a2 * b3) * (c0 * d1) == ((a2 * b3) * c0) * d1) by (nonlinear_arith);
    assert((a2 * b3) * (c1 * d0) == ((a2 * b3) * c1) * d0) by (nonlinear_arith);
    assert((b2 * a3) * (c0 * d1) == ((a3 * b2) * c0) * d1) by (nonlinear_arith);
    assert((b2 * a3) * (c1 * d0) == ((a3 * b2) * c1) * d0) by (nonlinear_arith);
    lemma_distribute6_plus(a0, -((a1 * c2) * d3), ((a1 * c3) * d2), ((a2 * c1) * d3), -((a2 * c3) * d1), -((a3 * c1) * d2), ((a3 * c2) * d1));
    assert(a0 * (-((a1 * c2) * d3)) == -(((a0 * a1) * c2) * d3)) by (nonlinear_arith);
    assert(a0 * ((a1 * c3) * d2) == ((a0 * a1) * c3) * d2) by (nonlinear_arith);
    assert(a0 * ((a2 * c1) * d3) == ((a0 * a2) * c1) * d3) by (nonlinear_arith);
    assert(a0 * (-((a2 * c3) * d1)) == -(((a0 * a2) * c3) * d1)) by (nonlinear_arith);
    assert(a0 * (-((a3 * c1) * d2)) == -(((a0 * a3) * c1) * d2)) by (nonlinear_arith);
    assert(a0 * ((a3 * c2) * d1) == ((a0 * a3) * c2) * d1) by (nonlinear_arith);
    lemma_distribute6_plus(a1, ((a0 * c2) * d3), -((a0 * c3) * d2), -((a2 * c0) * d3), ((a2 * c3) * d0), ((a3 * c0) * d2), -((a3 * c2) * d0));
    assert(a1 * ((a0 * c2) * d3) == ((a0 * a1) * c2) * d3) by (nonlinear_arith);
    assert(a1 * (-((a0 * c3) * d2)) == -(((a0 * a1) * c3) * d2)) by (nonlinear_arith);
    assert(a1 * (-((a2 * c0) * d3)) == -(((a1 * a2) * c0) * d3)) by (nonlinear_arith);
    assert(a1 * ((a2 * c3) * d0) == ((a1 * a2) * c3) * d0) by (nonlinear_arith);
    assert(a1 * ((a3 * c0) * d2) == ((a1 * a3) * c0) * d2) by (nonlinear_arith);
    assert(a1 * (-((a3 * c2) * d0)) == -(((a1 * a3) * c2) * d0)) by (nonlinear_arith);
    lemma_distribute6_plus(a2, -((a0 * c1) * d3), ((a0 * c3) * d1), ((a1 * c0) * d3), -((a1 * c3) * d0), -((a3 * c0) * d1), ((a3 * c1) * d0));
    assert(a2 * (-((a0 * c1) * d3)) == -(((a0 * a2) * c1) * d3)) by (nonlinear_arith);
    assert(a2 * ((a0 * c3) * d1) == ((a0 * a2) * c3) * d1) by (nonlinear_arith);
    assert(a2 * ((a1 * c0) * d3) == ((a1 * a2) * c0) * d3) by (nonlinear_arith);
    assert(a2 * (-((a1 * c3) * d0)) == -(((a1 * a2) * c3) * d0)) by (nonlinear_arith);
    assert(a2 * (-((a3 * c0) * d1)) == -(((a2 * a3) * c0) * d1)) by (nonlinear_arith);
    assert(a2 * ((a3 * c1) * d0) == ((a2 * a3) * c1) * d0) by (nonlinear_arith);
    lemma_distribute6_plus(a3, ((a0 * c1) * d2), -((a0 * c2) * d1), -((a1 * c0) * d2), ((a1 * c2) * d0), ((a2 * c0) * d1), -((a2 * c1) * d0));
    assert(a3 * ((a0 * c1) * d2) == ((a0 * a3) * c1) * d2) by (nonlinear_arith);
    assert(a3 * (-((a0 * c2) * d1)) == -(((a0 * a3) * c2) * d1)) by (nonlinear_arith);
    assert(a3 * (-((a1 * c0) * d2)) == -(((a1 * a3) * c0) * d2)) by (nonlinear_arith);
    assert(a3 * ((a1 * c2) * d0) == ((a1 * a3) * c2) * d0) by (nonlinear_arith);
    assert(a3 * ((a2 * c0) * d1) == ((a2 * a3) * c0) * d1) by (nonlinear_arith);
    assert(a3 * (-((a2 * c1) * d0)) == -(((a2 * a3) * c1) * d0)) by (nonlinear_arith);
    lemma_distribute6_plus(b0, -((a1 * c2) * d3), ((a1 * c3) * d2), ((a2 * c1) * d3), -((a2 * c3) * d1), -((a3 * c1) * d2), ((a3 * c2) * d1));
    assert(b0 * (-((a1 * c2) * d3)) == -(((a1 * b0) * c2) * d3)) by (nonlinear_arith);
    assert(b0 * ((a1 * c3) * d2) == ((a1 * b0) * c3) * d2) by (nonlinear_arith);
    assert(b0 * ((a2 * c1) * d3) == ((a2 * b0) * c1) * d3) by (nonlinear_arith);
    assert(b0 * (-((a2 * c3) * d1)) == -(((a2 * b0) * c3) * d1)) by (nonlinear_arith);
    assert(b0 * (-((a3 * c1) * d2)) == -(((a3 * b0) * c1) * d2)) by (nonlinear_arith);
    assert(b0 * ((a3 * c2) * d1) == ((a3 * b0) * c2) * d1) by (nonlinear_arith);
    lemma_distribute6_plus(b1, ((a0 * c2) * d3), -((a0 * c3) * d2), -((a2 * c0) * d3), ((a2 * c3) * d0), ((a3 * c0) * d2), -((a3 * c2) * d0));
    assert(b1 * ((a0 * c2) * d3) == ((a0 * b1) * c2) * d3) by (nonlinear_arith);
    assert(b1 * (-((a0 * c3) * d2)) == -(((a0 * b1) * c3) * d2)) by (nonlinear_arith);
    assert(b1 * (-((a2 * c0) * d3)) == -(((a2 * b1) * c0) * d3)) by (nonlinear_arith);
    assert(b1 * ((a2 * c3) * d0) == ((a2 * b1) * c3) * d0) by (nonlinear_arith);
    assert(b1 * ((a3 * c0) * d2) == ((a3 * b1) * c0) * d2) by (nonlinear_arith);
    assert(b1 * (-((a3 * c2) * d0)) == -(((a3 * b1) * c2) * d0)) by (nonlinear_arith);
    lemma_distribute6_plus(b2, -((a0 * c1) * d3), ((a0 * c3) * d1), ((a1 * c0) * d3), -((a1 * c3) * d0), -((a3 * c0) * d1), ((a3 * c1) * d0));
    assert(b2 * (-((a0 * c1) * d3)) == -(((a0 * b2) * c1) * d3)) by (nonlinear_arith);
    assert(b2 * ((a0 * c3) * d1) == ((a0 * b2) * c3) * d1) by (nonlinear_arith);
    assert(b2 * ((a1 * c0) * d3) == ((a1 * b2) * c0) * d3) by (nonlinear_arith);
    assert(b2 * (-((a1 * c3) * d0)) == -(((a1 * b2) * c3) * d0)) by (nonlinear_arith);
    assert(b2 * (-((a3 * c0) * d1)) == -(((a3 * b2) * c0) * d1)) by (nonlinear_arith);
    assert(b2 * ((a3 * c1) * d0) == ((a3 * b2) * c1) * d0) by (nonlinear_arith);
    lemma_distribute6_plus(b3, ((a0 * c1) * d2), -((a0 * c2) * d1), -((a1 * c0) * d2), ((a1 * c2) * d0), ((a2 * c0) * d1), -((a2 * c1) * d0));
    assert(b3 * ((a0 * c1) * d2) == ((a0 * b3) * c1) * d2) by (nonlinear_arith);
    assert(b3 * (-((a0 * c2) * d1)) == -(((a0 * b3) * c2) * d1)) by (nonlinear_arith);
    assert(b3 * (-((a1 * c0) * d2)) == -(((a1 * b3) * c0) * d2)) by (nonlinear_arith);
    assert(b3 * ((a1 * c2) * d0) == ((a1 * b3) * c2) * d0) by (nonlinear_arith);
    assert(b3 * ((a2 * c0) * d1) == ((a2 * b3) * c0) * d1) by (nonlinear_arith);
    assert(b3 * (-((a2 * c1) * d0)) == -(((a2 * b3) * c1) * d0)) by (nonlinear_arith);
    lemma_distribute6_plus(c0, -((a1 * c2) * d3), ((a1 * c3) * d2), ((a2 * c1) * d3), -((a2 * c3) * d1), -((a3 * c1) * d2), ((a3 * c2) * d1));
    assert(c0 * (-((a1 * c2) * d3)) == -(((a1 * c0) * c2) * d3)) by (nonlinear_arith);
    assert(c0 * ((a1 * c3) * d2) == ((a1 * c0) * c3) * d2) by (nonlinear_arith);
    assert(c0 * ((a2 * c1) * d3) == ((a2 * c0) * c1) * d3) by (nonlinear_arith);
    assert(c0 * (-((a2 * c3) * d1)) == -(((a2 * c0) * c3) * d1)) by (nonlinear_arith);
    assert(c0 * (-((a3 * c1) * d2)) == -(((a3 * c0) * c1) * d2)) by (nonlinear_arith);
    assert(c0 * ((a3 * c2) * d1) == ((a3 * c0) * c2) * d1) by (nonlinear_arith);
    lemma_distribute6_plus(c1, ((a0 * c2) * d3), -((a0 * c3) * d2), -((a2 * c0) * d3), ((a2 * c3) * d0), ((a3 * c0) * d2), -((a3 * c2) * d0));
    assert(c1 * ((a0 * c2) * d3) == ((a0 * c1) * c2) * d3) by (nonlinear_arith);
    assert(c1 * (-((a0 * c3) * d2)) == -(((a0 * c1) * c3) * d2)) by (nonlinear_arith);
    assert(c1 * (-((a2 * c0) * d3)) == -(((a2 * c0) * c1) * d3)) by (nonlinear_arith);
    assert(c1 * ((a2 * c3) * d0) == ((a2 * c1) * c3) * d0) by (nonlinear_arith);
    assert(c1 * ((a3 * c0) * d2) == ((a3 * c0) * c1) * d2) by (nonlinear_arith);
    assert(c1 * (-((a3 * c2) * d0)) == -(((a3 * c1) * c2) * d0)) by (nonlinear_arith);
    lemma_distribute6_plus(c2, -((a0 * c1) * d3), ((a0 * c3) * d1), ((a1 * c0) * d3), -((a1 * c3) * d0), -((a3 * c0) * d1), ((a3 * c1) * d0));
    assert(c2 * (-((a0 * c1) * d3)) == -(((a0 * c1) * c2) * d3)) by (nonlinear_arith);
    assert(c2 * ((a0 * c3) * d1) == ((a0 * c2) * c3) * d1) by (nonlinear_arith);
    assert(c2 * ((a1 * c0) * d3) == ((a1 * c0) * c2) * d3) by (nonlinear_arith);
    assert(c2 * (-((a1 * c3) * d0)) == -(((a1 * c2) * c3) * d0)) by (nonlinear_arith);
    assert(c2 * (-((a3 * c0) * d1)) == -(((a3 * c0) * c2) * d1)) by (nonlinear_arith);
    assert(c2 * ((a3 * c1) * d0) == ((a3 * c1) * c2) * d0) by (nonlinear_arith);
    lemma_distribute6_plus(c3, ((a0 * c1) * d2), -((a0 * c2) * d1), -((a1 * c0) * d2), ((a1 * c2) * d0), ((a2 * c0) * d1), -((a2 * c1) * d0));
    assert(c3 * ((a0 * c1) * d2) == ((a0 * c1) * c3) * d2) by (nonlinear_arith);
    assert(c3 * (-((a0 * c2) * d1)) == -(((a0 * c2) * c3) * d1)) by (nonlinear_arith);
    assert(c3 * (-((a1 * c0) * d2)) == -(((a1 * c0) * c3) * d2)) by (nonlinear_arith);
    assert(c3 * ((a1 * c2) * d0) == ((a1 * c2) * c3) * d0) by (nonlinear_arith);
    assert(c3 * ((a2 * c0) * d1) == ((a2 * c0) * c3) * d1) by (nonlinear_arith);
    assert(c3 * (-((a2 * c1) * d0)) == -(((a2 * c1) * c3) * d0)) by (nonlinear_arith);
    lemma_distribute6_plus(d0, -((a1 * c2) * d3), ((a1 * c3) * d2), ((a2 * c1) * d3), -((a2 * c3) * d1), -((a3 * c1) * d2), ((a3 * c2) * d1));
    assert(d0 * (-((a1 * c2) * d3)) == -(((a1 * c2) * d0) * d3)) by (nonlinear_arith);
    assert(d0 * ((a1 * c3) * d2) == ((a1 * c3) * d0) * d2) by (nonlinear_arith);
    assert(d0 * ((a2 * c1) * d3) == ((a2 * c1) * d0) * d3) by (nonlinear_arith);
    assert(d0 * (-((a2 * c3) * d1)) == -(((a2 * c3) * d0) * d1)) by (nonlinear_arith);
    assert(d0 * (-((a3 * c1) * d2)) == -(((a3 * c1) * d0) * d2)) by (nonlinear_arith);
    assert(d0 * ((a3 * c2) * d1) == ((a3 * c2) * d0) * d1) by (nonlinear_arith);
    lemma_distribute6_plus(d1, ((a0 * c2) * d3), -((a0 * c3) * d2), -((a2 * c0) * d3), ((a2 * c3) * d0), ((a3 * c0) * d2), -((a3 * c2) * d0));
    assert(d1 * ((a0 * c2) * d3) == ((a0 * c2) * d1) * d3) by (nonlinear_arith);
    assert(d1 * (-((a0 * c3) * d2)) == -(((a0 * c3) * d1) * d2)) by (nonlinear_arith);
    assert(d1 * (-((a2 * c0) * d3)) == -(((a2 * c0) * d1) * d3)) by (nonlinear_arith);
    assert(d1 * ((a2 * c3) * d0) == ((a2 * c3) * d0) * d1) by (nonlinear_arith);
    assert(d1 * ((a3 * c0) * d2) == ((a3 * c0) * d1) * d2) by (nonlinear_arith);
    assert(d1 * (-((a3 * c2) * d0)) == -(((a3 * c2) * d0) * d1)) by (nonlinear_arith);
    lemma_distribute6_plus(d2, -((a0 * c1) * d3), ((a0 * c3) * d1), ((a1 * c0) * d3), -((a1 * c3) * d0), -((a3 * c0) * d1), ((a3 * c1) * d0));
    assert(d2 * (-((a0 * c1) * d3)) == -(((a0 * c1) * d2) * d3)) by (nonlinear_arith);
    assert(d2 * ((a0 * c3) * d1) == ((a0 * c3) * d1) * d2) by (nonlinear_arith);
    assert(d2 * ((a1 * c0) * d3) == ((a1 * c0) * d2) * d3) by (nonlinear_arith);
    assert(d2 * (-((a1 * c3) * d0)) == -(((a1 * c3) * d0) * d2)) by (nonlinear_arith);
    assert(d2 * (-((a3 * c0) * d1)) == -(((a3 * c0) * d1) * d2)) by (nonlinear_arith);
    assert(d2 * ((a3 * c1) * d0) == ((a3 * c1) * d0) * d2) by (nonlinear_arith);
    lemma_distribute6_plus(d3, ((a0 * c1) * d2), -((a0 * c2) * d1), -((a1 * c0) * d2), ((a1 * c2) * d0), ((a2 * c0) * d1), -((a2 * c1) * d0));
    assert(d3 * ((a0 * c1) * d2) == ((a0 * c1) * d2) * d3) by (nonlinear_arith);
    assert(d3 * (-((a0 * c2) * d1)) == -(((a0 * c2) * d1) * d3)) by (nonlinear_arith);
    assert(d3 * (-((a1 * c0) * d2)) == -(((a1 * c0) * d2) * d3)) by (nonlinear_arith);
    assert(d3 * ((a1 * c2) * d0) == ((a1 * c2) * d0) * d3) by (nonlinear_arith);
    assert(d3 * ((a2 * c0) * d1) == ((a2 * c0) * d1) * d3) by (nonlinear_arith);
    assert(d3 * (-((a2 * c1) * d0)) == -(((a2 * c1) * d0) * d3)) by (nonlinear_arith);
}

/// Column 2 of the product of a matrix with its block adjugate: the
/// diagonal entry is the determinant and the others vanish. The expansion
/// is written product by product, since the nonlinear solver only handles
/// small steps.
proof fn lemma_mat4_blk_col2(m: Mat4i)
    ensures
        m.r0.dot(m.blk_adjugate().col(2)) == 0,
        m.r1.dot(m.blk_adjugate().col(2)) == 0,
        m.r2.dot(m.blk_adjugate().col(2)) == m.blk_det(),
        m.r3.dot(m.blk_adjugate().col(2)) == 0,
{
    let a0: int = m.r0.x;
    let a1: int = m.r0.y;
    let a2: int = m.r0.z;
    let a3: int = m.r0.w;
    let b0: int = m.r1.x;
    let b1: int = m.r1.y;
    let b2: int = m.r1.z;
    let b3: int = m.r1.w;
    let c0: int = m.r2.x;
    let c1: int = m.r2.y;
    let c2: int = m.r2.z;
    let c3: int = m.r2.w;
    let d0: int = m.r3.x;
    let d1: int = m.r3.y;
    let d2: int = m.r3.z;
    let d3: int = m.r3.w;
    lemma_mul_diff2(a1, b2, d3, b3, d2);
    lemma_mul_diff2(b1, a2, d3, a3, d2);
    assert((b1 * a2) * d3 == ((a2 * b1) * d3)) by (nonlinear_arith);
    assert((b1 * a3) * d2 == ((a3 * b1) * d2)) by (nonlinear_arith);
    assert((a2 * b3 - b2 * a3) * d1 == ((a2 * b3) * d1) - ((a3 * b2) * d1)) by (nonlinear_arith);
    assert((a2 * d3 - a3 * d2) * b0 == ((a2 * b0) * d3) - ((a3 * b0) * d2)) by (nonlinear_arith);
    assert((b2 * d3 - b3 * d2) * a0 == ((a0 * b2) * d3) - ((a0 * b3) * d2)) by (nonlinear_arith);
    assert((a2 * b3 - b2 * a3) * d0 == ((a2 * b3) * d0) - ((a3 * b2) * d0)) by (nonlinear_arith);
    lemma_mul_diff2(a3, b0, d1, b1, d0);
    lemma_mul_diff2(b3, a0, d1, a1, d0);
    assert((b3 * a0) * d1 == ((a0 * b3) * d1)) by (nonlinear_arith);
    assert((b3 * a1) * d0 == ((a1 * b3) * d0)) by (nonlinear_arith);
    assert((a0 * b1 - b0 * a1) * d3 == ((a0 * b1) * d3) - ((a1 * b0) * d3)) by (nonlinear_arith);
    assert((a0 * d1 - a1 * d0) * b2 == ((a0 * b2) * d1) - ((a1 * b2) * d0)) by (nonlinear_arith);
    assert((b0 * d1 - b1 * d0) * a2 == ((a2 * b0) * d1) - ((a2 * b1) * d0)) by (nonlinear_arith);
    assert((a0 * b1 - b0 * a1) * d2 == ((a0 * b1) * d2) - ((a1 * b0) * d2)) by (nonlinear_arith);
    lemma_bin_mul(b0 * c1, c0 * b1, a2 * d3, a3 * d2);
    assert((b0 * c1) * (a2 * d3) == ((a2 * b0) * c1) * d3) by (nonlinear_arith);
    assert((b0 * c1) * (a3 * d2) == ((a3 * b0) * c1) * d2) by (nonlinear_arith);
    assert((c0 * b1) * (a2 * d3) == ((a2 * b1) * c0) * d3) by (nonlinear_arith);
    assert((c0 * b1) * (a3 * d2) == ((a3 * b1) * c0) * d2) by (nonlinear_arith);
    lemma_bin_mul(c0 * a1, a0 * c1, b2 * d3, b3 * d2);
    assert((c0 * a1) * (b2 * d3) == ((a1 * b2) * c0) * d3) by (nonlinear_arith);
    assert((c0 * a1) * (b3 * d2) == ((a1 * b3) * c0) * d2) by (nonlinear_arith);
    assert((a0 * c1) * (b2 * d3) == ((a0 * b2) * c1) * d3) by (nonlinear_arith);
    assert((a0 * c1) * (b3 * d2) == ((a0 * b3) * c1) * d2) by (nonlinear_arith);
    lemma_bin_mul(a0 * b1, b0 * a1, c2 * d3, c3 * d2);
    assert((a0 * b1) * (c2 * d3) == ((a0 * b1) * c2) * d3) by (nonlinear_arith);
    assert((a0 * b1) * (c3 * d2) == ((a0 * b1) * c3) * d2) by (nonlinear_arith);
    assert((b0 * a1) * (c2 * d3) == ((a1 * b0) * c2) * d3) by (nonlinear_arith);
    assert((b0 * a1) * (c3 * d2) == ((a1 * b0) * c3) * d2) by (nonlinear_arith);
    lemma_bin_mul(b2 * c3, c2 * b3, a0 * d1, a1 * d0);
    assert((b2 * c3) * (a0 * d1) == ((a0 * b2) * c3) * d1) by (nonlinear_arith);
    assert((b2 * c3) * (a1 * d0) == ((a1 * b2) * c3) * d0) by (nonlinear_arith);
    assert((c2 * b3) * (a0 * d1) == ((a0 * b3) * c2) * d1) by (nonlinear_arith);
    assert((c2 * b3) * (a1 * d0) == ((a1 * b3) * c2) * d0) by (nonlinear_arith);
    lemma_bin_mul(c2 * a3, a2 * c3, b0 * d1, b1 * d0);
    assert((c2 * a3) * (b0 * d1) == ((a3 * b0) * c2) * d1) by (nonlinear_arith);
    assert((c2 * a3) * (b1 * d0) == ((a3 * b1) * c2) * d0) by (nonlinear_arith);
    assert((a2 * c3) * (b0 * d1) == ((a2 * b0) * c3) * d1) by (nonlinear_arith);
    assert((a2 * c3) * (b1 * d0) == ((a2 * b1) * c3) * d0) by (nonlinear_arith);
    lemma_bin_mul(a2 * b3, b2 * a3, c0 * d1, c1 * d0);
    assert((a2 * b3) * (c0 * d1) == ((a2 * b3) * c0) * d1) by (nonlinear_arith);
    assert((a2 * b3) * (c1 * d0) == ((a2 * b3) * c1) * d0) by (nonlinear_arith);
    assert((b2 * a3) * (c0 * d1) == ((a3 * b2) * c0) * d1) by (nonlinear_arith);
    assert((b2 * a3) * (c1 * d0) == ((a3 * b2) * c1) * d0) by (nonlinear_arith);
    lemma_distribute6_plus(a0, ((a1 * b2) * d3), -((a1 * b3) * d2), -((a2 * b1) * d3), ((a2 * b3) * d1), ((a3 * b1) * d2), -((a3 * b2) * d1));
    assert(a0 * ((a1 * b2) * d3) == ((a0 * a1) * b2) * d3) by (nonlinear_arith);
    assert(a0 * (-((a1 * b3) * d2)) == -(((a0 * a1) * b3) * d2)) by (nonlinear_arith);
    assert(a0 * (-((a2 * b1) * d3)) == -(((a0 * a2) * b1) * d3)) by (nonlinear_arith);
    assert(a0 * ((a2 * b3) * d1) == ((a0 * a2) * b3) * d1) by (nonlinear_arith);
    assert(a0 * ((a3 * b1) * d2) == ((a0 * a3) * b1) * d2) by (nonlinear_arith);
    assert(a0 * (-((a3 * b2) * d1)) == -(((a0 * a3) * b2) * d1)) by (nonlinear_arith);
    lemma_distribute6_plus(a1, -((a0 * b2) * d3), ((a0 * b3) * d2), ((a2 * b0) * d3), -((a2 * b3) * d0), -((a3 * b0) * d2), ((a3 * b2) * d0));
    assert(a1 * (-((a0 * b2) * d3)) == -(((a0 * a1) * b2) * d3)) by (nonlinear_arith);
    assert(a1 * ((a0 * b3) * d2) == ((a0 * a1) * b3) * d2) by (nonlinear_arith);
    assert(a1 * ((a2 * b0) * d3) == ((a1 * a2) * b0) * d3) by (nonlinear_arith);
    assert(a1 * (-((a2 * b3) * d0)) == -(((a1 * a2) * b3) * d0)) by (nonlinear_arith);
    assert(a1 * (-((a3 * b0) * d2)) == -(((a1 * a3) * b0) * d2)) by (nonlinear_arith);
    assert(a1 * ((a3 * b2) * d0) == ((a1 * a3) * b2) * d0) by (nonlinear_arith);
    lemma_distribute6_plus(a2, ((a0 * b1) * d3), -((a0 * b3) * d1), -((a1 * b0) * d3), ((a1 * b3) * d0), ((a3 * b0) * d1), -((a3 * b1) * d0));
    assert(a2 * ((a0 * b1) * d3) == ((a0 * a2) * b1) * d3) by (nonlinear_arith);
    assert(a2 * (-((a0 * b3) * d1)) == -(((a0 * a2) * b3) * d1)) by (nonlinear_arith);
    assert(a2 * (-((a1 * b0) * d3)) == -(((a1 * a2) * b0) * d3)) by (nonlinear_arith);
    assert(a2 * ((a1 * b3) * d0) == ((a1 * a2) * b3) * d0) by (nonlinear_arith);
    assert(a2 * ((a3 * b0) * d1) == ((a2 * a3) * b0) * d1) by (nonlinear_arith);
    assert(a2 * (-((a3 * b1) * d0)) == -(((a2 * a3) * b1) * d0)) by (nonlinear_arith);
    lemma_distribute6_plus(a3, -((a0 * b1) * d2), ((a0 * b2) * d1), ((a1 * b0) * d2), -((a1 * b2) * d0), -((a2 * b0) * d1), ((a2 * b1) * d0));
    assert(a3 * (-((a0 * b1) * d2)) == -(((a0 * a3) * b1) * d2)) by (nonlinear_arith);
    assert(a3 * ((a0 * b2) * d1) == ((a0 * a3) * b2) * d1) by (nonlinear_arith);
    assert(a3 * ((a1 * b0) * d2) == ((a1 * a3) * b0) * d2) by (nonlinear_arith);
    assert(a3 * (-((a1 * b2) * d0)) == -(((a1 * a3) * b2) * d0)) by (nonlinear_arith);
    assert(a3 * (-((a2 * b0) * d1)) == -(((a2 * a3) * b0) * d1)) by (nonlinear_arith);
    assert(a3 * ((a2 * b1) * d0) == ((a2 * a3) * b1) * d0) by (nonlinear_arith);
    lemma_distribute6_plus(b0, ((a1 * b2) * d3), -((a1 * b3) * d2), -((a2 * b1) * d3), ((a2 * b3) * d1), ((a3 * b1) * d2), -((a3 * b2) * d1));
    assert(b0 * ((a1 * b2) * d3) == ((a1 * b0) * b2) * d3) by (nonlinear_arith);
    assert(b0 * (-((a1 * b3) * d2)) == -(((a1 * b0) * b3) * d2)) by (nonlinear_arith);
    assert(b0 * (-((a2 * b1) * d3)) == -(((a2 * b0) * b1) * d3)) by (nonlinear_arith);
    assert(b0 * ((a2 * b3) * d1) == ((a2 * b0) * b3) * d1) by (nonlinear_arith);
    assert(b0 * ((a3 * b1) * d2) == ((a3 * b0) * b1) * d2) by (nonlinear_arith);
    assert(b0 * (-((a3 * b2) * d1)) == -(((a3 * b0) * b2) * d1)) by (nonlinear_arith);
    lemma_distribute6_plus(b1, -((a0 * b2) * d3), ((a0 * b3) * d2), ((a2 * b0) * d3), -((a2 * b3) * d0), -((a3 * b0) * d2), ((a3 * b2) * d0));
    assert(b1 * (-((a0 * b2) * d3)) == -(((a0 * b1) * b2) * d3)) by (nonlinear_arith);
    assert(b1 * ((a0 * b3) * d2) == ((a0 * b1) * b3) * d2) by (nonlinear_arith);
    assert(b1 * ((a2 * b0) * d3) == ((a2 * b0) * b1) * d3) by (nonlinear_arith);
    assert(b1 * (-((a2 * b3) * d0)) == -(((a2 * b1) * b3) * d0)) by (nonlinear_arith);
    assert(b1 * (-((a3 * b0) * d2)) == -(((a3 * b0) * b1) * d2)) by (nonlinear_arith);
    assert(b1 * ((a3 * b2) * d0) == ((a3 * b1) * b2) * d0) by (nonlinear_arith);
    lemma_distribute6_plus(b2, ((a0 * b1) * d3), -((a0 * b3) * d1), -((a1 * b0) * d3), ((a1 * b3) * d0), ((a3 * b0) * d1), -((a3 * b1) * d0));
    assert(b2 * ((a0 * b1) * d3) == ((a0 * b1) * b2) * d3) by (nonlinear_arith);
    assert(b2 * (-((a0 * b3) * d1)) == -(((a0 * b2) * b3) * d1)) by (nonlinear_arith);
    assert(b2 * (-((a1 * b0) * d3)) == -(((a1 * b0) * b2) * d3)) by (nonlinear_arith);
    assert(b2 * ((a1 * b3) * d0) == ((a1 * b2) * b3) * d0) by (nonlinear_arith);
    assert(b2 * ((a3 * b0) * d1) == ((a3 * b0) * b2) * d1) by (nonlinear_arith);
    assert(b2 * (-((a3 * b1) * d0)) == -(((a3 * b1) * b2) * d0)) by (nonlinear_arith);
    lemma_distribute6_plus(b3, -((a0 * b1) * d2), ((a0 * b2) * d1), ((a1 * b0) * d2), -((a1 * b2) * d0), -((a2 * b0) * d1), ((a2 * b1) * d0));
    assert(b3 * (-((a0 * b1) * d2)) == -(((a0 * b1) * b3) * d2)) by (nonlinear_arith);
    assert(b3 * ((a0 * b2) * d1) == ((a0 * b2) * b3) * d1) by (nonlinear_arith);
    assert(b3 * ((a1 * b0) * d2) == ((a1 * b0) * b3) * d2) by (nonlinear_arith);
    assert(b3 * (-((a1 * b2) * d0)) == -(((a1 * b2) * b3) * d0)) by (nonlinear_arith);
    assert(b3 * (-((a2 * b0) * d1)) == -(((a2 * b0) * b3) * d1)) by (nonlinear_arith);
    assert(b3 * ((a2 * b1) * d0) == ((a2 * b1) * b3) * d0) by (nonlinear_arith);
    lemma_distribute6_plus(c0, ((a1 * b2) * d3), -((a1 * b3) * d2), -((a2 * b1) * d3), ((a2 * b3) * d1), ((a3 * b1) * d2), -((a3 * b2) * d1));
    assert(c0 * ((a1 * b2) * d3) == ((a1 * b2) * c0) * d3) by (nonlinear_arith);
    assert(c0 * (-((a1 * b3) * d2)) == -(((a1 * b3) * c0) * d2)) by (nonlinear_arith);
    assert(c0 * (-((a2 * b1) * d3)) == -(((a2 * b1) * c0) * d3)) by (nonlinear_arith);
    assert(c0 * ((a2 * b3) * d1) == ((a2 * b3) * c0) * d1) by (nonlinear_arith);
    assert(c0 * ((a3 * b1) * d2) == ((a3 * b1) * c0) * d2) by (nonlinear_arith);
    assert(c0 * (-((a3 * b2) * d1)) == -(((a3 * b2) * c0) * d1)) by (nonlinear_arith);
    lemma_distribute6_plus(c1, -((a0 * b2) * d3), ((a0 * b3) * d2), ((a2 * b0) * d3), -((a2 * b3) * d0), -((a3 * b0) * d2), ((a3 * b2) * d0));
    assert(c1 * (-((a0 * b2) * d3)) == -(((a0 * b2) * c1) * d3)) by (nonlinear_arith);
    assert(c1 * ((a0 * b3) * d2) == ((a0 * b3) * c1) * d2) by (nonlinear_arith);
    assert(c1 * ((a2 * b0) * d3) == ((a2 * b0) * c1) * d3) by (nonlinear_arith);
    assert(c1 * (-((a2 * b3) * d0)) == -(((a2 * b3) * c1) * d0)) by (nonlinear_arith);
    assert(c1 * (-((a3 * b0) * d2)) == -(((a3 * b0) * c1) * d2)) by (nonlinear_arith);
    assert(c1 * ((a3 * b2) * d0) == ((a3 * b2) * c1) * d0) by (nonlinear_arith);
    lemma_distribute6_plus(c2, ((a0 * b1) * d3), -((a0 * b3) * d1), -((a1 * b0) * d3), ((a1 * b3) * d0), ((a3 * b0) * d1), -((a3 * b1) * d0));
    assert(c2 * ((a0 * b1) * d3) == ((a0 * b1) * c2) * d3) by (nonlinear_arith);
    assert(c2 * (-((a0 * b3) * d1)) == -(((a0 * b3) * c2) * d1)) by (nonlinear_arith);
    assert(c2 * (-((a1 * b0) * d3)) == -(((a1 * b0) * c2) * d3)) by (nonlinear_arith);
    assert(c2 * ((a1 * b3) * d0) == ((a1 * b3) * c2) * d0) by (nonlinear_arith);
    assert(c2 * ((a3 * b0) * d1) == ((a3 * b0) * c2) * d1) by (nonlinear_arith);
    assert(c2 * (-((a3 * b1) * d0)) == -(((a3 * b1) * c2) * d0)) by (nonlinear_arith);
    lemma_distribute6_plus(c3, -((a0 * b1) * d2), ((a0 * b2) * d1), ((a1 * b0) * d2), -((a1 * b2) * d0), -((a2 * b0) * d1), ((a2 * b1) * d0));
    assert(c3 * (-((a0 * b1) * d2)) == -(((a0 * b1) * c3) * d2)) by (nonlinear_arith);
    assert(c3 * ((a0 * b2) * d1) == ((a0 * b2) * c3) * d1) by (nonlinear_arith);
    assert(c3 * ((a1 * b0) * d2) == ((a1 * b0) * c3) * d2) by (nonlinear_arith);
    assert(c3 * (-((a1 * b2) * d0)) == -(((a1 * b2) * c3) * d0)) by (nonlinear_arith);
    assert(c3 * (-((a2 * b0) * d1)) == -(((a2 * b0) * c3) * d1)) by (nonlinear_arith);
    assert(c3 * ((a2 * b1) * d0) == ((a2 * b1) * c3) * d0) by (nonlinear_arith);
    lemma_distribute6_plus(d0, ((a1 * b2) * d3), -((a1 * b3) * d2), -((a2 * b1) * d3), ((a2 * b3) * d1), ((a3 * b1) * d2), -((a3 * b2) * d1));
    assert(d0 * ((a1 * b2) * d3) == ((a1 * b2) * d0) * d3) by (nonlinear_arith);
    assert(d0 * (-((a1 * b3) * d2)) == -(((a1 * b3) * d0) * d2)) by (nonlinear_arith);
    assert(d0 * (-((a2 * b1) * d3)) == -(((a2 * b1) * d0) * d3)) by (nonlinear_arith);
    assert(d0 * ((a2 * b3) * d1) == ((a2 * b3) * d0) * d1) by (nonlinear_arith);
    assert(d0 * ((a3 * b1) * d2) == ((a3 * b1) * d0) * d2) by (nonlinear_arith);
    assert(d0 * (-((a3 * b2) * d1)) == -(((a3 * b2) * d0) * d1)) by (nonlinear_arith);
    lemma_distribute6_plus(d1, -((a0 * b2) * d3), ((a0 * b3) * d2), ((a2 * b0) * d3), -((a2 * b3) * d0), -((a3 * b0) * d2), ((a3 * b2) * d0));
    assert(d1 * (-((a0 * b2) * d3)) == -(((a0 * b2) * d1) * d3)) by (nonlinear_arith);
    assert(d1 * ((a0 * b3) * d2) == ((a0 * b3) * d1) * d2) by (nonlinear_arith);
    assert(d1 * ((a2 * b0) * d3) == ((a2 * b0) * d1) * d3) by (nonlinear_arith);
    assert(d1 * (-((a2 * b3) * d0)) == -(((a2 * b3) * d0) * d1)) by (nonlinear_arith);
    assert(d1 * (-((a3 * b0) * d2)) == -(((a3 * b0) * d1) * d2)) by (nonlinear_arith);
    assert(d1 * ((a3 * b2) * d0) == ((a3 * b2) * d0) * d1) by (nonlinear_arith);
    lemma_distribute6_plus(d2, ((a0 * b1) * d3), -((a0 * b3) * d1), -((a1 * b0) * d3), ((a1 * b3) * d0), ((a3 * b0) * d1), -((a3 * b1) * d0));
    assert(d2 * ((a0 * b1) * d3) == ((a0 * b1) * d2) * d3) by (nonlinear_arith);
    assert(d2 * (-((a0 * b3) * d1)) == -(((a0 * b3) * d1) * d2)) by (nonlinear_arith);
    assert(d2 * (-((a1 * b0) * d3)) == -(((a1 * b0) * d2) * d3)) by (nonlinear_arith);
    assert(d2 * ((a1 * b3) * d0) == ((a1 * b3) * d0) * d2) by (nonlinear_arith);
    assert(d2 * ((a3 * b0) * d1) == ((a3 * b0) * d1) * d2) by (nonlinear_arith);
    assert(d2 * (-((a3 * b1) * d0)) == -(((a3 * b1) * d0) * d2)) by (nonlinear_arith);
    lemma_distribute6_plus(d3, -((a0 * b1) * d2), ((a0 * b2) * d1), ((a1 * b0) * d2), -((a1 * b2) * d0), -((a2 * b0) * d1), ((a2 * b1) * d0));
    assert(d3 * (-((a0 * b1) * d2)) == -(((a0 * b1) * d2) * d3)) by (nonlinear_arith);
    assert(d3 * ((a0 * b2) * d1) == ((a0 * b2) * d1) * d3) by (nonlinear_arith);
    assert(d3 * ((a1 * b0) * d2) == ((a1 * b0) * d2) * d3) by (nonlinear_arith);
    assert(d3 * (-((a1 * b2) * d0)) == -(((a1 * b2) * d0) * d3)) by (nonlinear_arith);
    assert(d3 * (-((a2 * b0) * d1)) == -(((a2 * b0) * d1) * d3)) by (nonlinear_arith);
    assert(d3 * ((a2 * b1) * d0) == ((a2 * b1) * d0) * d3) by (nonlinear_arith);
}

/// Column 3 of the product of a matrix with its block adjugate: the
/// diagonal entry is the determinant and the others vanish. The expansion
/// is written product by product, since the nonlinear solver only handles
/// small steps.
proof fn lemma_mat4_blk_col3(m: Mat4i)
    ensures
        m.r0.dot(m.blk_adjugate().col(3)) == 0,
        m.r1.dot(m.blk_adjugate().col(3)) == 0,
        m.r2.dot(m.blk_adjugate().col(3)) == 0,
        m.r3.dot(m.blk_adjugate().col(3)) == m.blk_det(),
{
    let a0: int = m.r0.x;
    let a1: int = m.r0.y;
    let a2: int = m.r0.z;
    let a3: int = m.r0.w;
    let b0: int = m.r1.x;
    let b1: int = m.r1.y;
    let b2: int = m.r1.z;
    let b3: int = m.r1.w;
    let c0: int = m.r2.x;
    let c1: int = m.r2.y;
    let c2: int = m.r2.z;
    let c3: int = m.r2.w;
    let d0: int = m.r3.x;
    let d1: int = m.r3.y;
    let d2: int = m.r3.z;
    let d3: int = m.r3.w;
    lemma_mul_diff2(a1, b2, c3, c2, b3);
    assert((a1 * c2) * b3 == ((a1 * b3) * c2)) by (nonlinear_arith);
    lemma_mul_diff2(b1, c2, a3, a2, c3);
    assert((b1 * c2) * a3 == ((a3 * b1) * c2)) by (nonlinear_arith);
    assert((b1 * a2) * c3 == ((a2 * b1) * c3)) by (nonlinear_arith);
    lemma_mul_diff2(c1, a2, b3, b2, a3);
    assert((c1 * a2) * b3 == ((a2 * b3) * c1)) by (nonlinear_arith);
    assert((c1 * b2) * a3 == ((a3 * b2) * c1)) by (nonlinear_arith);
    lemma_mul_diff2(a0, b2, c3, c2, b3);
    assert((a0 * c2) * b3 == ((a0 * b3) * c2)) by (nonlinear_arith);
    lemma_mul_diff2(b0, c2, a3, a2, c3);
    assert((b0 * c2) * a3 == ((a3 * b0) * c2)) by (nonlinear_arith);
    assert((b0 * a2) * c3 == ((a2 * b0) * c3)) by (nonlinear_arith);
    lemma_mul_diff2(c0, a2, b3, b2, a3);
    assert((c0 * a2) * b3 == ((a2 * b3) * c0)) by (nonlinear_arith);
    assert((c0 * b2) * a3 == ((a3 * b2) * c0)) by (nonlinear_arith);
    lemma_mul_diff2(a3, b0, c1, c0, b1);
    assert((a3 * c0) * b1 == ((a3 * b1) * c0)) by (nonlinear_arith);
    lemma_mul_diff2(b3, c0, a1, a0, c1);
    assert((b3 * c0) * a1 == ((a1 * b3) * c0)) by (nonlinear_arith);
    assert((b3 * a0) * c1 == ((a0 * b3) * c1)) by (nonlinear_arith);
    lemma_mul_diff2(c3, a0, b1, b0, a1);
    assert((c3 * a0) * b1 == ((a0 * b1) * c3)) by (nonlinear_arith);
    assert((c3 * b0) * a1 == ((a1 * b0) * c3)) by (nonlinear_arith);
    lemma_mul_diff2(a2, b0, c1, c0, b1);
    assert((a2 * c0) * b1 == ((a2 * b1) * c0)) by (nonlinear_arith);
    lemma_mul_diff2(b2, c0, a1, a0, c1);
    assert((b2 * c0) * a1 == ((a1 * b2) * c0)) by (nonlinear_arith);
    assert((b2 * a0) * c1 == ((a0 * b2) * c1)) by (nonlinear_arith);
    lemma_mul_diff2(c2, a0, b1, b0, a1);
    assert((c2 * a0) * b1 == ((a0 * b1) * c2)) by (nonlinear_arith);
    assert((c2 * b0) * a1 == ((a1 * b0) * c2)) by (nonlinear_arith);
    lemma_bin_mul(b0 * c1, c0 * b1, a2 * d3, a3 * d2);
    assert((b0 * c1) * (a2 * d3) == ((a2 * b0) * c1) * d3) by (nonlinear_arith);
    assert((b0 * c1) * (a3 * d2) == ((a3 * b0) * c1) * d2) by (nonlinear_arith);
    assert((c0 * b1) * (a2 * d3) == ((a2 * b1) * c0) * d3) by (nonlinear_arith);
    assert((c0 * b1) * (a3 * d2) == ((a3 * b1) * c0) * d2) by (nonlinear_arith);
    lemma_bin_mul(c0 * a1, a0 * c1, b2 * d3, b3 * d2);
    assert((c0 * a1) * (b2 * d3) == ((a1 * b2) * c0) * d3) by (nonlinear_arith);
    assert((c0 * a1) * (b3 * d2) == ((a1 * b3) * c0) * d2) by (nonlinear_arith);
    assert((a0 * c1) * (b2 * d3) == ((a0 * b2) * c1) * d3) by (nonlinear_arith);
    assert((a0 * c1) * (b3 * d2) == ((a0 * b3) * c1) * d2) by (nonlinear_arith);
    lemma_bin_mul(a0 * b1, b0 * a1, c2 * d3, c3 * d2);
    assert((a0 * b1) * (c2 * d3) == ((a0 * b1) * c2) * d3) by (nonlinear_arith);
    assert((a0 * b1) * (c3 * d2) == ((a0 * b1) * c3) * d2) by (nonlinear_arith);
    assert((b0 * a1) * (c2 * d3) == ((a1 * b0) * c2) * d3) by (nonlinear_arith);
    assert((b0 * a1) * (c3 * d2) == ((a1 * b0) * c3) * d2) by (nonlinear_arith);
    lemma_bin_mul(b2 * c3, c2 * b3, a0 * d1, a1 * d0);
    assert((b2 * c3) * (a0 * d1) == ((a0 * b2) * c3) * d1) by (nonlinear_arith);
    assert((b2 * c3) * (a1 * d0) == ((a1 * b2) * c3) * d0) by (nonlinear_arith);
    assert((c2 * b3) * (a0 * d1) == ((a0 * b3) * c2) * d1) by (nonlinear_arith);
    assert((c2 * b3) * (a1 * d0) == ((a1 * b3) * c2) * d0) by (nonlinear_arith);
    lemma_bin_mul(c2 * a3, a2 * c3, b0 * d1, b1 * d0);
    assert((c2 * a3) * (b0 * d1) == ((a3 * b0) * c2) * d1) by (nonlinear_arith);
    assert((c2 * a3) * (b1 * d0) == ((a3 * b1) * c2) * d0) by (nonlinear_arith);
    assert((a2 * c3) * (b0 * d1) == ((a2 * b0) * c3) * d1) by (nonlinear_arith);
    assert((a2 * c3) * (b1 * d0) == ((a2 * b1) * c3) * d0) by (nonlinear_arith);
    lemma_bin_mul(a2 * b3, b2 * a3, c0 * d1, c1 * d0);
    assert((a2 * b3) * (c0 * d1) == ((a2 * b3) * c0) * d1) by (nonlinear_arith);
    assert((a2 * b3) * (c1 * d0) == ((a2 * b3) * c1) * d0) by (nonlinear_arith);
    assert((b2 * a3) * (c0 * d1) == ((a3 * b2) * c0) * d1) by (nonlinear_arith);
    assert((b2 * a3) * (c1 * d0) == ((a3 * b2) * c1) * d0) by (nonlinear_arith);
    lemma_distribute6_plus(a0, -((a1 * b2) * c3), ((a1 * b3) * c2), ((a2 * b1) * c3), -((a2 * b3) * c1), -((a3 * b1) * c2), ((a3 * b2) * c1));
    assert(a0 * (-((a1 * b2) * c3)) == -(((a0 * a1) * b2) * c3)) by (nonlinear_arith);
    assert(a0 * ((a1 * b3) * c2) == ((a0 * a1) * b3) * c2) by (nonlinear_arith);
    assert(a0 * ((a2 * b1) * c3) == ((a0 * a2) * b1) * c3) by (nonlinear_arith);
    assert(a0 * (-((a2 * b3) * c1)) == -(((a0 * a2) * b3) * c1)) by (nonlinear_arith);
    assert(a0 * (-((a3 * b1) * c2)) == -(((a0 * a3) * b1) * c2)) by (nonlinear_arith);
    assert(a0 * ((a3 * b2) * c1) == ((a0 * a3) * b2) * c1) by (nonlinear_arith);
    lemma_distribute6_plus(a1, ((a0 * b2) * c3), -((a0 * b3) * c2), -((a2 * b0) * c3), ((a2 * b3) * c0), ((a3 * b0) * c2), -((a3 * b2) * c0));
    assert(a1 * ((a0 * b2) * c3) == ((a0 * a1) * b2) * c3) by (nonlinear_arith);
    assert(a1 * (-((a0 * b3) * c2)) == -(((a0 * a1) * b3) * c2)) by (nonlinear_arith);
    assert(a1 * (-((a2 * b0) * c3)) == -(((a1 * a2) * b0) * c3)) by (nonlinear_arith);
    assert(a1 * ((a2 * b3) * c0) == ((a1 * a2) * b3) * c0) by (nonlinear_arith);
    assert(a1 * ((a3 * b0) * c2) == ((a1 * a3) * b0) * c2) by (nonlinear_arith);
    assert(a1 * (-((a3 * b2) * c0)) == -(((a1 * a3) * b2) * c0)) by (nonlinear_arith);
    lemma_distribute6_plus(a2, -((a0 * b1) * c3), ((a0 * b3) * c1), ((a1 * b0) * c3), -((a1 * b3) * c0), -((a3 * b0) * c1), ((a3 * b1) * c0));
    assert(a2 * (-((a0 * b1) * c3)) == -(((a0 * a2) * b1) * c3)) by (nonlinear_arith);
    assert(a2 * ((a0 * b3) * c1) == ((a0 * a2) * b3) * c1) by (nonlinear_arith);
    assert(a2 * ((a1 * b0) * c3) == ((a1 * a2) * b0) * c3) by (nonlinear_arith);
    assert(a2 * (-((a1 * b3) * c0)) == -(((a1 * a2) * b3) * c0)) by (nonlinear_arith);
    assert(a2 * (-((a3 * b0) * c1)) == -(((a2 * a3) * b0) * c1)) by (nonlinear_arith);
    assert(a2 * ((a3 * b1) * c0) == ((a2 * a3) * b1) * c0) by (nonlinear_arith);
    lemma_distribute6_plus(a3, ((a0 * b1) * c2), -((a0 * b2) * c1), -((a1 * b0) * c2), ((a1 * b2) * c0), ((a2 * b0) * c1), -((a2 * b1) * c0));
    assert(a3 * ((a0 * b1) * c2) == ((a0 * a3) * b1) * c2) by (nonlinear_arith);
    assert(a3 * (-((a0 * b2) * c1)) == -(((a0 * a3) * b2) * c1)) by (nonlinear_arith);
    assert(a3 * (-((a1 * b0) * c2)) == -(((a1 * a3) * b0) * c2)) by (nonlinear_arith);
    assert(a3 * ((a1 * b2) * c0) == ((a1 * a3) * b2) * c0) by (nonlinear_arith);
    assert(a3 * ((a2 * b0) * c1) == ((a2 * a3) * b0) * c1) by (nonlinear_arith);
    assert(a3 * (-((a2 * b1) * c0)) == -(((a2 * a3) * b1) * c0)) by (nonlinear_arith);
    lemma_distribute6_plus(b0, -((a1 * b2) * c3), ((a1 * b3) * c2), ((a2 * b1) * c3), -((a2 * b3) * c1), -((a3 * b1) * c2), ((a3 * b2) * c1));
    assert(b0 * (-((a1 * b2) * c3)) == -(((a1 * b0) * b2) * c3)) by (nonlinear_arith);
    assert(b0 * ((a1 * b3) * c2) == ((a1 * b0) * b3) * c2) by (nonlinear_arith);
    assert(b0 * ((a2 * b1) * c3) == ((a2 * b0) * b1) * c3) by (nonlinear_arith);
    assert(b0 * (-((a2 * b3) * c1)) == -(((a2 * b0) * b3) * c1)) by (nonlinear_arith);
    assert(b0 * (-((a3 * b1) * c2)) == -(((a3 * b0) * b1) * c2)) by (nonlinear_arith);
    assert(b0 * ((a3 * b2) * c1) == ((a3 * b0) * b2) * c1) by (nonlinear_arith);
    lemma_distribute6_plus(b1, ((a0 * b2) * c3), -((a0 * b3) * c2), -((a2 * b0) * c3), ((a2 * b3) * c0), ((a3 * b0) * c2), -((a3 * b2) * c0));
    assert(b1 * ((a0 * b2) * c3) == ((a0 * b1) * b2) * c3) by (nonlinear_arith);
    assert(b1 * (-((a0 * b3) * c2)) == -(((a0 * b1) * b3) * c2)) by (nonlinear_arith);
    assert(b1 * (-((a2 * b0) * c3)) == -(((a2 * b0) * b1) * c3)) by (nonlinear_arith);
    assert(b1 * ((a2 * b3) * c0) == ((a2 * b1) * b3) * c0) by (nonlinear_arith);
    assert(b1 * ((a3 * b0) * c2) == ((a3 * b0) * b1) * c2) by (nonlinear_arith);
    assert(b1 * (-((a3 * b2) * c0)) == -(((a3 * b1) * b2) * c0)) by (nonlinear_arith);
    lemma_distribute6_plus(b2, -((a0 * b1) * c3), ((a0 * b3) * c1), ((a1 * b0) * c3), -((a1 * b3) * c0), -((a3 * b0) * c1), ((a3 * b1) * c0));
    assert(b2 * (-((a0 * b1) * c3)) == -(((a0 * b1) * b2) * c3)) by (nonlinear_arith);
    assert(b2 * ((a0 * b3) * c1) == ((a0 * b2) * b3) * c1) by (nonlinear_arith);
    assert(b2 * ((a1 * b0) * c3) == ((a1 * b0) * b2) * c3) by (nonlinear_arith);
    assert(b2 * (-((a1 * b3) * c0)) == -(((a1 * b2) * b3) * c0)) by (nonlinear_arith);
    assert(b2 * (-((a3 * b0) * c1)) == -(((a3 * b0) * b2) * c1)) by (nonlinear_arith);
    assert(b2 * ((a3 * b1) * c0) == ((a3 * b1) * b2) * c0) by (nonlinear_arith);
    lemma_distribute6_plus(b3, ((a0 * b1) * c2), -((a0 * b2) * c1), -((a1 * b0) * c2), ((a1 * b2) * c0), ((a2 * b0) * c1), -((a2 * b1) * c0));
    assert(b3 * ((a0 * b1) * c2) == ((a0 * b1) * b3) * c2) by (nonlinear_arith);
    assert(b3 * (-((a0 * b2) * c1)) == -(((a0 * b2) * b3) * c1)) by (nonlinear_arith);
    assert(b3 * (-((a1 * b0) * c2)) == -(((a1 * b0) * b3) * c2)) by (nonlinear_arith);
    assert(b3 * ((a1 * b2) * c0) == ((a1 * b2) * b3) * c0) by (nonlinear_arith);
    assert(b3 * ((a2 * b0) * c1) == ((a2 * b0) * b3) * c1) by (nonlinear_arith);
    assert(b3 * (-((a2 * b1) * c0)) == -(((a2 * b1) * b3) * c0)) by (nonlinear_arith);
    lemma_distribute6_plus(c0, -((a1 * b2) * c3), ((a1 * b3) * c2), ((a2 * b1) * c3), -((a2 * b3) * c1), -((a3 * b1) * c2), ((a3 * b2) * c1));
    assert(c0 * (-((a1 * b2) * c3)) == -(((a1 * b2) * c0) * c3)) by (nonlinear_arith);
    assert(c0 * ((a1 * b3) * c2) == ((a1 * b3) * c0) * c2) by (nonlinear_arith);
    assert(c0 * ((a2 * b1) * c3) == ((a2 * b1) * c0) * c3) by (nonlinear_arith);
    assert(c0 * (-((a2 * b3) * c1)) == -(((a2 * b3) * c0) * c1)) by (nonlinear_arith);
    assert(c0 * (-((a3 * b1) * c2)) == -(((a3 * b1) * c0) * c2)) by (nonlinear_arith);
    assert(c0 * ((a3 * b2) * c1) == ((a3 * b2) * c0) * c1) by (nonlinear_arith);
    lemma_distribute6_plus(c1, ((a0 * b2) * c3), -((a0 * b3) * c2), -((a2 * b0) * c3), ((a2 * b3) * c0), ((a3 * b0) * c2), -((a3 * b2) * c0));
    assert(c1 * ((a0 * b2) * c3) == ((a0 * b2) * c1) * c3) by (nonlinear_arith);
    assert(c1 * (-((a0 * b3) * c2)) == -(((a0 * b3) * c1) * c2)) by (nonlinear_arith);
    assert(c1 * (-((a2 * b0) * c3)) == -(((a2 * b0) * c1) * c3)) by (nonlinear_arith);
    assert(c1 * ((a2 * b3) * c0) == ((a2 * b3) * c0) * c1) by (nonlinear_arith);
    assert(c1 * ((a3 * b0) * c2) == ((a3 * b0) * c1) * c2) by (nonlinear_arith);
    assert(c1 * (-((a3 * b2) * c0)) == -(((a3 * b2) * c0) * c1)) by (nonlinear_arith);
    lemma_distribute6_plus(c2, -((a0 * b1) * c3), ((a0 * b3) * c1), ((a1 * b0) * c3), -((a1 * b3) * c0), -((a3 * b0) * c1), ((a3 * b1) * c0));
    assert(c2 * (-((a0 * b1) * c3)) == -(((a0 * b1) * c2) * c3)) by (nonlinear_arith);
    assert(c2 * ((a0 * b3) * c1) == ((a0 * b3) * c1) * c2) by (nonlinear_arith);
    assert(c2 * ((a1 * b0) * c3) == ((a1 * b0) * c2) * c3) by (nonlinear_arith);
    assert(c2 * (-((a1 * b3) * c0)) == -(((a1 * b3) * c0) * c2)) by (nonlinear_arith);
    assert(c2 * (-((a3 * b0) * c1)) == -(((a3 * b0) * c1) * c2)) by (nonlinear_arith);
    assert(c2 * ((a3 * b1) * c0) == ((a3 * b1) * c0) * c2) by (nonlinear_arith);
    lemma_distribute6_plus(c3, ((a0 * b1) * c2), -((a0 * b2) * c1), -((a1 * b0) * c2), ((a1 * b2) * c0), ((a2 * b0) * c1), -((a2 * b1) * c0));
    assert(c3 * ((a0 * b1) * c2) == ((a0 * b1) * c2) * c3) by (nonlinear_arith);
    assert(c3 * (-((a0 * b2) * c1)) == -(((a0 * b2) * c1) * c3)) by (nonlinear_arith);
    assert(c3 * (-((a1 * b0) * c2)) == -(((a1 * b0) * c2) * c3)) by (nonlinear_arith);
    assert(c3 * ((a1 * b2) * c0) == ((a1 * b2) * c0) * c3) by (nonlinear_arith);
    assert(c3 * ((a2 * b0) * c1) == ((a2 * b0) * c1) * c3) by (nonlinear_arith);
    assert(c3 * (-((a2 * b1) * c0)) == -(((a2 * b1) * c0) * c3)) by (nonlinear_arith);
    lemma_distribute6_plus(d0, -((a1 * b2) * c3), ((a1 * b3) * c2), ((a2 * b1) * c3), -((a2 * b3) * c1), -((a3 * b1) * c2), ((a3 * b2) * c1));
    assert(d0 * (-((a1 * b2) * c3)) == -(((a1 * b2) * c3) * d0)) by (nonlinear_arith);
    assert(d0 * ((a1 * b3) * c2) == ((a1 * b3) * c2) * d0) by (nonlinear_arith);
    assert(d0 * ((a2 * b1) * c3) == ((a2 * b1) * c3) * d0) by (nonlinear_arith);
    assert(d0 * (-((a2 * b3) * c1)) == -(((a2 * b3) * c1) * d0)) by (nonlinear_arith);
    assert(d0 * (-((a3 * b1) * c2)) == -(((a3 * b1) * c2) * d0)) by (nonlinear_arith);
    assert(d0 * ((a3 * b2) * c1) == ((a3 * b2) * c1) * d0) by (nonlinear_arith);
    lemma_distribute6_plus(d1, ((a0 * b2) * c3), -((a0 * b3) * c2), -((a2 * b0) * c3), ((a2 * b3) * c0), ((a3 * b0) * c2), -((a3 * b2) * c0));
    assert(d1 * ((a0 * b2) * c3) == ((a0 * b2) * c3) * d1) by (nonlinear_arith);
    assert(d1 * (-((a0 * b3) * c2)) == -(((a0 * b3) * c2) * d1)) by (nonlinear_arith);
    assert(d1 * (-((a2 * b0) * c3)) == -(((a2 * b0) * c3) * d1)) by (nonlinear_arith);
    assert(d1 * ((a2 * b3) * c0) == ((a2 * b3) * c0) * d1) by (nonlinear_arith);
    assert(d1 * ((a3 * b0) * c2) == ((a3 * b0) * c2) * d1) by (nonlinear_arith);
    assert(d1 * (-((a3 * b2) * c0)) == -(((a3 * b2) * c0) * d1)) by (nonlinear_arith);
    lemma_distribute6_plus(d2, -((a0 * b1) * c3), ((a0 * b3) * c1), ((a1 * b0) * c3), -((a1 * b3) * c0), -((a3 * b0) * c1), ((a3 * b1) * c0));
    assert(d2 * (-((a0 * b1) * c3)) == -(((a0 * b1) * c3) * d2)) by (nonlinear_arith);
    assert(d2 * ((a0 * b3) * c1) == ((a0 * b3) * c1) * d2) by (nonlinear_arith);
    assert(d2 * ((a1 * b0) * c3) == ((a1 * b0) * c3) * d2) by (nonlinear_arith);
    assert(d2 * (-((a1 * b3) * c0)) == -(((a1 * b3) * c0) * d2)) by (nonlinear_arith);
    assert(d2 * (-((a3 * b0) * c1)) == -(((a3 * b0) * c1) * d2)) by (nonlinear_arith);
    assert(d2 * ((a3 * b1) * c0) == ((a3 * b1) * c0) * d2) by (nonlinear_arith);
    lemma_distribute6_plus(d3, ((a0 * b1) * c2), -((a0 * b2) * c1), -((a1 * b0) * c2), ((a1 * b2) * c0), ((a2 * b0) * c1), -((a2 * b1) * c0));
    assert(d3 * ((a0 * b1) * c2) == ((a0 * b1) * c2) * d3) by (nonlinear_arith);
    assert(d3 * (-((a0 * b2) * c1)) == -(((a0 * b2) * c1) * d3)) by (nonlinear_arith);
    assert(d3 * (-((a1 * b0) * c2)) == -(((a1 * b0) * c2) * d3)) by (nonlinear_arith);
    assert(d3 * ((a1 * b2) * c0) == ((a1 * b2) * c0) * d3) by (nonlinear_arith);
    assert(d3 * ((a2 * b0) * c1) == ((a2 * b0) * c1) * d3) by (nonlinear_arith);
    assert(d3 * (-((a2 * b1) * c0)) == -(((a2 * b1) * c0) * d3)) by (nonlinear_arith);
}

/// The product of a matrix with the rows the block method assembles before
/// scaling — its adjugate — is the determinant times the identity matrix.
pub proof fn lemma_mat4_block_adjugate(m: Mat4i)
    ensures
        m.matmul(m.blk_adjugate()) == (Mat4i {
            r0: Vec4i { x: m.blk_det(), y: 0, z: 0, w: 0 },
            r1: Vec4i { x: 0, y: m.blk_det(), z: 0, w: 0 },
            r2: Vec4i { x: 0, y: 0, z: m.blk_det(), w: 0 },
            r3: Vec4i { x: 0, y: 0, z: 0, w: m.blk_det() },
        }),
{
    lemma_mat4_blk_col0(m);
    lemma_mat4_blk_col1(m);
    lemma_mat4_blk_col2(m);
    lemma_mat4_blk_col3(m);
}

/// The inverse law: a matrix whose determinant is a unit, multiplied by the
/// inverse the block method produces, gives the identity matrix exactly.
pub proof fn lemma_mat4_inverse_law(m: Mat4i)
    requires
        m.det() == 1 || m.det() == -1,
    ensures
        m.inverse() matches Some(inv) && m.matmul(inv) == Mat4i::identity(),
{
    crate::math::matrix4x4::lemma_det4_block(m);
    lemma_mat4_block_adjugate(m);
    lemma_trunc_recip(m.blk_det());
    let d = trunc_div(1, m.blk_det());
    let bm = m.blk_adjugate();
    let inv = m.inverse()->Some_0;
    lemma_cross_scale_right(m.col3(1), m.blk_v(), d);
    lemma_scale_scale_swap(m.blk_t(), d, m.r3.y);
    lemma_add_scale(m.col3(1).cross(m.blk_v()), m.blk_t().scale(m.r3.y), d);
    lemma_dot_scale(m.col3(1), m.blk_t(), d);
    lemma_neg_mul(m.col3(1).dot(m.blk_t()), d);
    assert(inv.r0 == (Vec4i { x: bm.r0.x * d, y: bm.r0.y * d, z: bm.r0.z * d, w: bm.r0.w * d }));
    lemma_cross_scale_left(m.blk_v(), m.col3(0), d);
    lemma_scale_scale_swap(m.blk_t(), d, m.r3.x);
    lemma_sub_scale(m.blk_v().cross(m.col3(0)), m.blk_t().scale(m.r3.x), d);
    lemma_dot_scale(m.col3(0), m.blk_t(), d);
    assert(inv.r1 == (Vec4i { x: bm.r1.x * d, y: bm.r1.y * d, z: bm.r1.z * d, w: bm.r1.w * d }));
    lemma_cross_scale_right(m.col3(3), m.blk_u(), d);
    lemma_scale_scale_swap(m.blk_s(), d, m.r3.w);
    lemma_add_scale(m.col3(3).cross(m.blk_u()), m.blk_s().scale(m.r3.w), d);
    lemma_dot_scale(m.col3(3), m.blk_s(), d);
    lemma_neg_mul(m.col3(3).dot(m.blk_s()), d);
    assert(inv.r2 == (Vec4i { x: bm.r2.x * d, y: bm.r2.y * d, z: bm.r2.z * d, w: bm.r2.w * d }));
    lemma_cross_scale_left(m.blk_u(), m.col3(2), d);
    lemma_scale_scale_swap(m.blk_s(), d, m.r3.z);
    lemma_sub_scale(m.blk_u().cross(m.col3(2)), m.blk_s().scale(m.r3.z), d);
    lemma_dot_scale(m.col3(2), m.blk_s(), d);
    assert(inv.r3 == (Vec4i { x: bm.r3.x * d, y: bm.r3.y * d, z: bm.r3.z * d, w: bm.r3.w * d }));
    assert(inv.col(0) == bm.col(0).scale(d));
    assert(inv.col(1) == bm.col(1).scale(d));
    assert(inv.col(2) == bm.col(2).scale(d));
    assert(inv.col(3) == bm.col(3).scale(d));
    lemma_dot4_scale(m.r0, bm.col(0), d);
    lemma_dot4_scale(m.r0, bm.col(1), d);
    lemma_dot4_scale(m.r0, bm.col(2), d);
    lemma_dot4_scale(m.r0, bm.col(3), d);
    lemma_dot4_scale(m.r1, bm.col(0), d);
    lemma_dot4_scale(m.r1, bm.col(1), d);
    lemma_dot4_scale(m.r1, bm.col(2), d);
    lemma_dot4_scale(m.r1, bm.col(3), d);
    lemma_dot4_scale(m.r2, bm.col(0), d);
    lemma_dot4_scale(m.r2, bm.col(1), d);
    lemma_dot4_scale(m.r2, bm.col(2), d);
    lemma_dot4_scale(m.r2, bm.col(3), d);
    lemma_dot4_scale(m.r3, bm.col(0), d);
    lemma_dot4_scale(m.r3, bm.col(1), d);
    lemma_dot4_scale(m.r3, bm.col(2), d);
    lemma_dot4_scale(m.r3, bm.col(3), d);
    assert(m.matmul(inv) == Mat4i::identity());
}

} // verus!
