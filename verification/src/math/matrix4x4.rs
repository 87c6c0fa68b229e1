//! A 4-by-4 row-major matrix over any signed scalar, built on `Vector4`
//! rows, with determinant and the closed-form block-method inverse.

use vstd::prelude::*;
use crate::math::model::lemma_bin_mul;
use crate::math::model::lemma_det3_canonical;
use crate::math::model::lemma_distribute6;
use crate::math::model::lemma_mul3_assoc;
use crate::math::model::lemma_trunc_recip;
use crate::math::model::Mat3i;
use crate::math::model::Mat4i;
use crate::math::model::Vec3i;
use crate::math::model::Vec4i;
use crate::math::matrix3x3::mat3_det_fits;
use crate::math::number::in_range;
use crate::math::number::trunc_div;
use crate::math::number::Number;
use crate::math::number::SignedNumber;
use crate::math::vector3::lemma_scale_unit_in_range;
use crate::math::vector3::vec3_cross_fits;
use crate::math::vector3::vec3_dot_fits;
use crate::math::vector3::vec3_in_range;
use crate::math::vector3::Vector3;
use crate::math::vector4::vec4_dot_fits;
use crate::math::vector4::vec4_in_range;
use crate::math::vector4::Vector4;

verus! {

/// Whether every entry of a model matrix fits in the scalar type `T`.
pub open spec fn mat4_in_range<T: Number>(m: Mat4i) -> bool {
    vec4_in_range::<T>(m.r0) && vec4_in_range::<T>(m.r1) && vec4_in_range::<T>(m.r2)
        && vec4_in_range::<T>(m.r3)
}

/// Whether every intermediate of the matrix product of `a` and `b` fits in
/// `T`: each entry is a row-by-column dot product.
pub open spec fn mat4_matmul_fits<T: Number>(a: Mat4i, b: Mat4i) -> bool {
    &&& vec4_dot_fits::<T>(a.r0, b.col(0))
    &&& vec4_dot_fits::<T>(a.r0, b.col(1))
    &&& vec4_dot_fits::<T>(a.r0, b.col(2))
    &&& vec4_dot_fits::<T>(a.r0, b.col(3))
    &&& vec4_dot_fits::<T>(a.r1, b.col(0))
    &&& vec4_dot_fits::<T>(a.r1, b.col(1))
    &&& vec4_dot_fits::<T>(a.r1, b.col(2))
    &&& vec4_dot_fits::<T>(a.r1, b.col(3))
    &&& vec4_dot_fits::<T>(a.r2, b.col(0))
    &&& vec4_dot_fits::<T>(a.r2, b.col(1))
    &&& vec4_dot_fits::<T>(a.r2, b.col(2))
    &&& vec4_dot_fits::<T>(a.r2, b.col(3))
    &&& vec4_dot_fits::<T>(a.r3, b.col(0))
    &&& vec4_dot_fits::<T>(a.r3, b.col(1))
    &&& vec4_dot_fits::<T>(a.r3, b.col(2))
    &&& vec4_dot_fits::<T>(a.r3, b.col(3))
}

/// Whether every intermediate of the product of matrix `m` with column
/// vector `v` fits in `T`.
pub open spec fn mat4_mul_vec_fits<T: Number>(m: Mat4i, v: Vec4i) -> bool {
    &&& vec4_dot_fits::<T>(m.r0, v)
    &&& vec4_dot_fits::<T>(m.r1, v)
    &&& vec4_dot_fits::<T>(m.r2, v)
    &&& vec4_dot_fits::<T>(m.r3, v)
}

/// Whether every intermediate of the product of row vector `v` with matrix
/// `m` fits in `T`.
pub open spec fn mat4_vec_mul_fits<T: Number>(m: Mat4i, v: Vec4i) -> bool {
    &&& vec4_dot_fits::<T>(v, m.col(0))
    &&& vec4_dot_fits::<T>(v, m.col(1))
    &&& vec4_dot_fits::<T>(v, m.col(2))
    &&& vec4_dot_fits::<T>(v, m.col(3))
}

/// Whether every intermediate of the first-row cofactor expansion of the
/// determinant of `m` fits in `T`: the four 3-by-3 minors with all their
/// intermediates, the four weighted minor determinants, and the running
/// signed sum.
pub open spec fn mat4_det_fits<T: Number>(m: Mat4i) -> bool {
    &&& mat3_det_fits::<T>(m.minor(0))
    &&& mat3_det_fits::<T>(m.minor(1))
    &&& mat3_det_fits::<T>(m.minor(2))
    &&& mat3_det_fits::<T>(m.minor(3))
    &&& in_range::<T>(m.r0.x * m.minor(0).det())
    &&& in_range::<T>(m.r0.y * m.minor(1).det())
    &&& in_range::<T>(m.r0.z * m.minor(2).det())
    &&& in_range::<T>(m.r0.w * m.minor(3).det())
    &&& in_range::<T>(m.r0.x * m.minor(0).det() - m.r0.y * m.minor(1).det())
    &&& in_range::<T>(
        m.r0.x * m.minor(0).det() - m.r0.y * m.minor(1).det() + m.r0.z * m.minor(2).det(),
    )
    &&& in_range::<T>(m.det())
}

/// Whether the four rows the block method assembles after scaling by the
/// truncated reciprocal of the determinant fit in `T`, with all their
/// intermediates.
pub open spec fn mat4_inverse_rows_fit<T: Number>(m: Mat4i) -> bool {
    let d = trunc_div(1, m.blk_det());
    let s = m.blk_s().scale(d);
    let t = m.blk_t().scale(d);
    let u = m.blk_u().scale(d);
    let v = m.blk_v().scale(d);
    &&& vec3_cross_fits::<T>(m.col3(1), v)
    &&& vec3_in_range::<T>(t.scale(m.r3.y))
    &&& vec3_in_range::<T>(m.col3(1).cross(v).add(t.scale(m.r3.y)))
    &&& vec3_dot_fits::<T>(m.col3(1), t)
    &&& in_range::<T>(-m.col3(1).dot(t))
    &&& vec3_cross_fits::<T>(v, m.col3(0))
    &&& vec3_in_range::<T>(t.scale(m.r3.x))
    &&& vec3_in_range::<T>(v.cross(m.col3(0)).sub(t.scale(m.r3.x)))
    &&& vec3_dot_fits::<T>(m.col3(0), t)
    &&& vec3_cross_fits::<T>(m.col3(3), u)
    &&& vec3_in_range::<T>(s.scale(m.r3.w))
    &&& vec3_in_range::<T>(m.col3(3).cross(u).add(s.scale(m.r3.w)))
    &&& vec3_dot_fits::<T>(m.col3(3), s)
    &&& in_range::<T>(-m.col3(3).dot(s))
    &&& vec3_cross_fits::<T>(u, m.col3(2))
    &&& vec3_in_range::<T>(s.scale(m.r3.z))
    &&& vec3_in_range::<T>(u.cross(m.col3(2)).sub(s.scale(m.r3.z)))
    &&& vec3_dot_fits::<T>(m.col3(2), s)
}

/// Whether every intermediate of the block-method inverse of `m` fits in
/// `T`: the two cross products, the two weighted column differences, the
/// determinant, and, once the determinant is known not to be zero, the four
/// assembled rows.
pub open spec fn mat4_inverse_fits<T: Number>(m: Mat4i) -> bool {
    &&& vec3_cross_fits::<T>(m.col3(0), m.col3(1))
    &&& vec3_cross_fits::<T>(m.col3(2), m.col3(3))
    &&& vec3_in_range::<T>(m.col3(0).scale(m.r3.y))
    &&& vec3_in_range::<T>(m.col3(1).scale(m.r3.x))
    &&& vec3_in_range::<T>(m.blk_u())
    &&& vec3_in_range::<T>(m.col3(2).scale(m.r3.w))
    &&& vec3_in_range::<T>(m.col3(3).scale(m.r3.z))
    &&& vec3_in_range::<T>(m.blk_v())
    &&& vec3_dot_fits::<T>(m.blk_s(), m.blk_v())
    &&& vec3_dot_fits::<T>(m.blk_t(), m.blk_u())
    &&& in_range::<T>(m.blk_det())
    &&& (m.blk_det() == -1 ==> vec3_in_range::<T>(m.blk_s().neg()) && vec3_in_range::<T>(
        m.blk_t().neg(),
    ) && vec3_in_range::<T>(m.blk_u().neg()) && vec3_in_range::<T>(m.blk_v().neg()))
    &&& (m.blk_det() != 0 ==> mat4_inverse_rows_fit::<T>(m))
}

/// The determinant as the block method computes it equals the first-row
/// cofactor expansion: both expand to the same twenty-four signed products.
pub proof fn lemma_det4_block(m: Mat4i)
    ensures
        m.blk_det() == m.det(),
{
    let a0: int = m.r0.x;
    let a1: int = m.r0.y;
    let a2: int = m.r0.z;
    let a3: int = m.r0.w;
    let b0: int = m.r1.x;
    let b1: int = m.r1.y;
    let b2: int = m.r1.z;
    let b3: int = m.r1.w;
    let c0: int = m.r2.x;
    let c1: int = m.r2.y;
    let c2: int = m.r2.z;
    let c3: int = m.r2.w;
    let d0: int = m.r3.x;
    let d1: int = m.r3.y;
    let d2: int = m.r3.z;
    let d3: int = m.r3.w;
    assert(m.minor(0) == (Mat3i { r0: Vec3i { x: b1, y: b2, z: b3 }, r1: Vec3i { x: c1, y: c2, z: c3 }, r2: Vec3i { x: d1, y: d2, z: d3 } }));
    lemma_det3_canonical(m.minor(0));
    assert(m.minor(1) == (Mat3i { r0: Vec3i { x: b0, y: b2, z: b3 }, r1: Vec3i { x: c0, y: c2, z: c3 }, r2: Vec3i { x: d0, y: d2, z: d3 } }));
    lemma_det3_canonical(m.minor(1));
    assert(m.minor(2) == (Mat3i { r0: Vec3i { x: b0, y: b1, z: b3 }, r1: Vec3i { x: c0, y: c1, z: c3 }, r2: Vec3i { x: d0, y: d1, z: d3 } }));
    lemma_det3_canonical(m.minor(2));
    assert(m.minor(3) == (Mat3i { r0: Vec3i { x: b0, y: b1, z: b2 }, r1: Vec3i { x: c0, y: c1, z: c2 }, r2: Vec3i { x: d0, y: d1, z: d2 } }));
    lemma_det3_canonical(m.minor(3));
    lemma_distribute6(a0, (b1 * c2) * d3, (b1 * c3) * d2, (b2 * c1) * d3, (b2 * c3) * d1, (b3 * c1) * d2, (b3 * c2) * d1);
    lemma_mul3_assoc(a0, b1, c2, d3);
    lemma_mul3_assoc(a0, b1, c3, d2);
    lemma_mul3_assoc(a0, b2, c1, d3);
    lemma_mul3_assoc(a0, b2, c3, d1);
    lemma_mul3_assoc(a0, b3, c1, d2);
    lemma_mul3_assoc(a0, b3, c2, d1);
    lemma_distribute6(a1, (b0 * c2) * d3, (b0 * c3) * d2, (b2 * c0) * d3, (b2 * c3) * d0, (b3 * c0) * d2, (b3 * c2) * d0);
    lemma_mul3_assoc(a1, b0, c2, d3);
    lemma_mul3_assoc(a1, b0, c3, d2);
    lemma_mul3_assoc(a1, b2, c0, d3);
    lemma_mul3_assoc(a1, b2, c3, d0);
    lemma_mul3_assoc(a1, b3, c0, d2);
    lemma_mul3_assoc(a1, b3, c2, d0);
    lemma_distribute6(a2, (b0 * c1) * d3, (b0 * c3) * d1, (b1 * c0) * d3, (b1 * c3) * d0, (b3 * c0) * d1, (b3 * c1) * d0);
    lemma_mul3_assoc(a2, b0, c1, d3);
    lemma_mul3_assoc(a2, b0, c3, d1);
    lemma_mul3_assoc(a2, b1, c0, d3);
    lemma_mul3_assoc(a2, b1, c3, d0);
    lemma_mul3_assoc(a2, b3, c0, d1);
    lemma_mul3_assoc(a2, b3, c1, d0);
    lemma_distribute6(a3, (b0 * c1) * d2, (b0 * c2) * d1, (b1 * c0) * d2, (b1 * c2) * d0, (b2 * c0) * d1, (b2 * c1) * d0);
    lemma_mul3_assoc(a3, b0, c1, d2);
    lemma_mul3_assoc(a3, b0, c2, d1);
    lemma_mul3_assoc(a3, b1, c0, d2);
    lemma_mul3_assoc(a3, b1, c2, d0);
    lemma_mul3_assoc(a3, b2, c0, d1);
    lemma_mul3_assoc(a3, b2, c1, d0);
    assert(m.blk_s() == (Vec3i { x: b0 * c1 - c0 * b1, y: c0 * a1 - a0 * c1, z: a0 * b1 - b0 * a1 }));
    assert(m.blk_t() == (Vec3i { x: b2 * c3 - c2 * b3, y: c2 * a3 - a2 * c3, z: a2 * b3 - b2 * a3 }));
    assert(m.blk_u() == (Vec3i { x: a0 * d1 - a1 * d0, y: b0 * d1 - b1 * d0, z: c0 * d1 - c1 * d0 }));
    assert(m.blk_v() == (Vec3i { x: a2 * d3 - a3 * d2, y: b2 * d3 - b3 * d2, z: c2 * d3 - c3 * d2 }));
    lemma_bin_mul(b0 * c1, c0 * b1, a2 * d3, a3 * d2);
    assert((b0 * c1) * (a2 * d3) == ((a2 * b0) * c1) * d3) by (nonlinear_arith);
    assert((b0 * c1) * (a3 * d2) == ((a3 * b0) * c1) * d2) by (nonlinear_arith);
    assert((c0 * b1) * (a2 * d3) == ((a2 * b1) * c0) * d3) by (nonlinear_arith);
    assert((c0 * b1) * (a3 * d2) == ((a3 * b1) * c0) * d2) by (nonlinear_arith);
    lemma_bin_mul(c0 * a1, a0 * c1, b2 * d3, b3 * d2);
    assert((c0 * a1) * (b2 * d3) == ((a1 * b2) * c0) * d3) by (nonlinear_arith);
    assert((c0 * a1) * (b3 * d2) == ((a1 * b3) * c0) * d2) by (nonlinear_arith);
    assert((a0 * c1) * (b2 * d3) == ((a0 * b2) * c1) * d3) by (nonlinear_arith);
    assert((a0 * c1) * (b3 * d2) == ((a0 * b3) * c1) * d2) by (nonlinear_arith);
    lemma_bin_mul(a0 * b1, b0 * a1, c2 * d3, c3 * d2);
    assert((a0 * b1) * (c2 * d3) == ((a0 * b1) * c2) * d3) by (nonlinear_arith);
    assert((a0 * b1) * (c3 * d2) == ((a0 * b1) * c3) * d2) by (nonlinear_arith);
    assert((b0 * a1) * (c2 * d3) == ((a1 * b0) * c2) * d3) by (nonlinear_arith);
    assert((b0 * a1) * (c3 * d2) == ((a1 * b0) * c3) * d2) by (nonlinear_arith);
    lemma_bin_mul(b2 * c3, c2 * b3, a0 * d1, a1 * d0);
    assert((b2 * c3) * (a0 * d1) == ((a0 * b2) * c3) * d1) by (nonlinear_arith);
    assert((b2 * c3) * (a1 * d0) == ((a1 * b2) * c3) * d0) by (nonlinear_arith);
    assert((c2 * b3) * (a0 * d1) == ((a0 * b3) * c2) * d1) by (nonlinear_arith);
    assert((c2 * b3) * (a1 * d0) == ((a1 * b3) * c2) * d0) by (nonlinear_arith);
    lemma_bin_mul(c2 * a3, a2 * c3, b0 * d1, b1 * d0);
    assert((c2 * a3) * (b0 * d1) == ((a3 * b0) * c2) * d1) by (nonlinear_arith);
    assert((c2 * a3) * (b1 * d0) == ((a3 * b1) * c2) * d0) by (nonlinear_arith);
    assert((a2 * c3) * (b0 * d1) == ((a2 * b0) * c3) * d1) by (nonlinear_arith);
    assert((a2 * c3) * (b1 * d0) == ((a2 * b1) * c3) * d0) by (nonlinear_arith);
    lemma_bin_mul(a2 * b3, b2 * a3, c0 * d1, c1 * d0);
    assert((a2 * b3) * (c0 * d1) == ((a2 * b3) * c0) * d1) by (nonlinear_arith);
    assert((a2 * b3) * (c1 * d0) == ((a2 * b3) * c1) * d0) by (nonlinear_arith);
    assert((b2 * a3) * (c0 * d1) == ((a3 * b2) * c0) * d1) by (nonlinear_arith);
    assert((b2 * a3) * (c1 * d0) == ((a3 * b2) * c1) * d0) by (nonlinear_arith);
    assert(m.blk_det() == m.det());
}

/// The view determines the matrix: two matrices with equal mathematical
/// views are the same value. With `from_array` and `to_array` this gives
/// the round trip: a matrix rebuilt from its own flat array is the matrix
/// itself.
pub proof fn lemma_matrix4x4_view_injective<T: SignedNumber>(a: Matrix4x4<T>, b: Matrix4x4<T>)
    requires
        a@ == b@,
    ensures
        a == b,
{
    crate::math::vector4::lemma_vector4_view_injective::<T>(a.mat@[0], b.mat@[0]);
    crate::math::vector4::lemma_vector4_view_injective::<T>(a.mat@[1], b.mat@[1]);
    crate::math::vector4::lemma_vector4_view_injective::<T>(a.mat@[2], b.mat@[2]);
    crate::math::vector4::lemma_vector4_view_injective::<T>(a.mat@[3], b.mat@[3]);
    assert(a.mat =~= b.mat);
}

/// A 4x4 matrix represented as an array of four `Vector4<T>` **rows**,
/// stored in row-major order. It supports addition, subtraction,
/// multiplication by a scalar, multiplication by another matrix, and
/// multiplication by a vector on either side.
#[derive(Debug, Clone, Copy, PartialEq)]
pub struct Matrix4x4<T: SignedNumber> {
    mat: [Vector4<T>; 4],
}

impl<T: SignedNumber> View for Matrix4x4<T> {
    type V = Mat4i;

    closed spec fn view(&self) -> Mat4i {
        Mat4i { r0: self.mat@[0]@, r1: self.mat@[1]@, r2: self.mat@[2]@, r3: self.mat@[3]@ }
    }
}

impl<T: SignedNumber> vstd::std_specs::ops::AddSpecImpl for Matrix4x4<T> {
    // The exact contract is the `ensures` of the `Add` impl below; nothing
    // is claimed through `add_spec`.
    open spec fn obeys_add_spec() -> bool {
        false
    }

    open spec fn add_req(self, rhs: Matrix4x4<T>) -> bool {
        mat4_in_range::<T>(self@.add(rhs@))
    }

    open spec fn add_spec(self, rhs: Matrix4x4<T>) -> Self::Output {
        self
    }
}

impl<T: SignedNumber> core::ops::Add for Matrix4x4<T> {
    type Output = Matrix4x4<T>;

    /// Componentwise matrix addition.
    fn add(self, rhs: Matrix4x4<T>) -> (r: Matrix4x4<T>)
        ensures
            r@ == self@.add(rhs@),
    {
        Matrix4x4 {
            mat: [
                self.mat[0] + rhs.mat[0],
                self.mat[1] + rhs.mat[1],
                self.mat[2] + rhs.mat[2],
                self.mat[3] + rhs.mat[3],
            ],
        }
    }
}

impl<T: SignedNumber> vstd::std_specs::ops::SubSpecImpl for Matrix4x4<T> {
    // The exact contract is the `ensures` of the `Sub` impl below.
    open spec fn obeys_sub_spec() -> bool {
        false
    }

    open spec fn sub_req(self, rhs: Matrix4x4<T>) -> bool {
        mat4_in_range::<T>(self@.sub(rhs@))
    }

    open spec fn sub_spec(self, rhs: Matrix4x4<T>) -> Self::Output {
        self
    }
}

impl<T: SignedNumber> core::ops::Sub for Matrix4x4<T> {
    type Output = Matrix4x4<T>;

    /// Componentwise matrix subtraction.
    fn sub(self, rhs: Matrix4x4<T>) -> (r: Matrix4x4<T>)
        ensures
            r@ == self@.sub(rhs@),
    {
        Matrix4x4 {
            mat: [
                self.mat[0] - rhs.mat[0],
                self.mat[1] - rhs.mat[1],
                self.mat[2] - rhs.mat[2],
                self.mat[3] - rhs.mat[3],
            ],
        }
    }
}

impl<T: SignedNumber> vstd::std_specs::ops::MulSpecImpl<T> for Matrix4x4<T> {
    // The exact contract is the `ensures` of the scalar `Mul` impl below.
    open spec fn obeys_mul_spec() -> bool {
        false
    }

    open spec fn mul_req(self, rhs: T) -> bool {
        mat4_in_range::<T>(self@.scale(rhs.as_int()))
    }

    open spec fn mul_spec(self, rhs: T) -> Self::Output {
        self
    }
}

/// Right-hand side scalar multiplication.
impl<T: SignedNumber> core::ops::Mul<T> for Matrix4x4<T> {
    type Output = Matrix4x4<T>;

    /// Multiplication of every entry by a scalar.
    fn mul(self, rhs: T) -> (r: Matrix4x4<T>)
        ensures
            r@ == self@.scale(rhs.as_int()),
    {
        Matrix4x4 {
            mat: [self.mat[0] * rhs, self.mat[1] * rhs, self.mat[2] * rhs, self.mat[3] * rhs],
        }
    }
}

impl<T: SignedNumber> vstd::std_specs::ops::MulSpecImpl<Matrix4x4<T>> for Matrix4x4<T> {
    // The exact contract is the `ensures` of the matrix `Mul` impl below.
    open spec fn obeys_mul_spec() -> bool {
        false
    }

    open spec fn mul_req(self, rhs: Matrix4x4<T>) -> bool {
        mat4_matmul_fits::<T>(self@, rhs@)
    }

    open spec fn mul_spec(self, rhs: Matrix4x4<T>) -> Self::Output {
        self
    }
}

/// Matrix multiplication.
impl<T: SignedNumber> core::ops::Mul<Matrix4x4<T>> for Matrix4x4<T> {
    type Output = Matrix4x4<T>;

    /// Standard row-by-column matrix product.
    fn mul(self, rhs: Matrix4x4<T>) -> (r: Matrix4x4<T>)
        ensures
            r@ == self@.matmul(rhs@),
    {
        proof {
            T::props();
        }
        let a = &self.mat;
        let b = &rhs.mat;
        Matrix4x4 {
            mat: [
                Vector4 {
                    x: a[0].x * b[0].x + a[0].y * b[1].x + a[0].z * b[2].x + a[0].w * b[3].x,
                    y: a[0].x * b[0].y + a[0].y * b[1].y + a[0].z * b[2].y + a[0].w * b[3].y,
                    z: a[0].x * b[0].z + a[0].y * b[1].z + a[0].z * b[2].z + a[0].w * b[3].z,
                    w: a[0].x * b[0].w + a[0].y * b[1].w + a[0].z * b[2].w + a[0].w * b[3].w,
                },
                Vector4 {
                    x: a[1].x * b[0].x + a[1].y * b[1].x + a[1].z * b[2].x + a[1].w * b[3].x,
                    y: a[1].x * b[0].y + a[1].y * b[1].y + a[1].z * b[2].y + a[1].w * b[3].y,
                    z: a[1].x * b[0].z + a[1].y * b[1].z + a[1].z * b[2].z + a[1].w * b[3].z,
                    w: a[1].x * b[0].w + a[1].y * b[1].w + a[1].z * b[2].w + a[1].w * b[3].w,
                },
                Vector4 {
                    x: a[2].x * b[0].x + a[2].y * b[1].x + a[2].z * b[2].x + a[2].w * b[3].x,
                    y: a[2].x * b[0].y + a[2].y * b[1].y + a[2].z * b[2].y + a[2].w * b[3].y,
                    z: a[2].x * b[0].z + a[2].y * b[1].z + a[2].z * b[2].z + a[2].w * b[3].z,
                    w: a[2].x * b[0].w + a[2].y * b[1].w + a[2].z * b[2].w + a[2].w * b[3].w,
                },
                Vector4 {
                    x: a[3].x * b[0].x + a[3].y * b[1].x + a[3].z * b[2].x + a[3].w * b[3].x,
                    y: a[3].x * b[0].y + a[3].y * b[1].y + a[3].z * b[2].y + a[3].w * b[3].y,
                    z: a[3].x * b[0].z + a[3].y * b[1].z + a[3].z * b[2].z + a[3].w * b[3].z,
                    w: a[3].x * b[0].w + a[3].y * b[1].w + a[3].z * b[2].w + a[3].w * b[3].w,
                },
            ],
        }
    }
}

impl<T: SignedNumber> vstd::std_specs::ops::MulSpecImpl<Vector4<T>> for Matrix4x4<T> {
    // The exact contract is the `ensures` of the vector `Mul` impl below.
    open spec fn obeys_mul_spec() -> bool {
        false
    }

    open spec fn mul_req(self, rhs: Vector4<T>) -> bool {
        mat4_mul_vec_fits::<T>(self@, rhs@)
    }

    open spec fn mul_spec(self, rhs: Vector4<T>) -> Self::Output {
        rhs
    }
}

/// Right-multiplication of a matrix by a vector.
impl<T: SignedNumber> core::ops::Mul<Vector4<T>> for Matrix4x4<T> {
    type Output = Vector4<T>;

    /// The matrix applied to a column vector.
    fn mul(self, rhs: Vector4<T>) -> (r: Vector4<T>)
        ensures
            r@ == self@.mul_vec(rhs@),
    {
        Vector4 {
            x: self.mat[0].dot(&rhs),
            y: self.mat[1].dot(&rhs),
            z: self.mat[2].dot(&rhs),
            w: self.mat[3].dot(&rhs),
        }
    }
}

impl<T: SignedNumber> vstd::std_specs::ops::MulSpecImpl<Matrix4x4<T>> for Vector4<T> {
    // The exact contract is the `ensures` of the row-vector `Mul` impl
    // below.
    open spec fn obeys_mul_spec() -> bool {
        false
    }

    open spec fn mul_req(self, rhs: Matrix4x4<T>) -> bool {
        mat4_vec_mul_fits::<T>(rhs@, self@)
    }

    open spec fn mul_spec(self, rhs: Matrix4x4<T>) -> Self::Output {
        self
    }
}

/// Left-multiplication of a vector by a matrix.
impl<T: SignedNumber> core::ops::Mul<Matrix4x4<T>> for Vector4<T> {
    type Output = Vector4<T>;

    /// A row vector applied to the matrix.
    fn mul(self, rhs: Matrix4x4<T>) -> (r: Vector4<T>)
        ensures
            r@ == rhs@.vec_mul(self@),
    {
        proof {
            T::props();
        }
        let b = &rhs.mat;
        Vector4 {
            x: self.x * b[0].x + self.y * b[1].x + self.z * b[2].x + self.w * b[3].x,
            y: self.x * b[0].y + self.y * b[1].y + self.z * b[2].y + self.w * b[3].y,
            z: self.x * b[0].z + self.y * b[1].z + self.z * b[2].z + self.w * b[3].z,
            w: self.x * b[0].w + self.y * b[1].w + self.z * b[2].w + self.w * b[3].w,
        }
    }
}

impl<T: SignedNumber> Default for Matrix4x4<T> {
    /// The default matrix is the zero matrix.
    fn default() -> (r: Matrix4x4<T>)
        ensures
            r@ == Mat4i::zero(),
    {
        Matrix4x4::zero()
    }
}

impl<T: SignedNumber> Matrix4x4<T> {
    /// Creates a new `Matrix4x4` with the given rows.
    pub fn new(rows: [Vector4<T>; 4]) -> (r: Self)
        ensures
            r@ == (Mat4i { r0: rows@[0]@, r1: rows@[1]@, r2: rows@[2]@, r3: rows@[3]@ }),
    {
        Self { mat: rows }
    }

    /// Creates a new `Matrix4x4` with all elements initialized to zero.
    pub fn zero() -> (r: Self)
        ensures
            r@ == Mat4i::zero(),
    {
        Self { mat: [Vector4::zero(), Vector4::zero(), Vector4::zero(), Vector4::zero()] }
    }

    /// Creates a new `Matrix4x4` with all elements initialized to one.
    pub fn one() -> (r: Self)
        ensures
            r@ == Mat4i::ones(),
    {
        Self { mat: [Vector4::one(), Vector4::one(), Vector4::one(), Vector4::one()] }
    }

    /// Creates a new `Matrix4x4` that represents the identity matrix.
    /// The identity matrix has ones on the diagonal and zeros elsewhere.
    pub fn identity() -> (r: Self)
        ensures
            r@ == Mat4i::identity(),
    {
        Self {
            mat: [
                Vector4::new(T::one(), T::zero(), T::zero(), T::zero()),
                Vector4::new(T::zero(), T::one(), T::zero(), T::zero()),
                Vector4::new(T::zero(), T::zero(), T::one(), T::zero()),
                Vector4::new(T::zero(), T::zero(), T::zero(), T::one()),
            ],
        }
    }

    /// Returns the row at the given position.
    pub fn index(&self, i: usize) -> (r: Vector4<T>)
        requires
            i < 4,
        ensures
            r@ == self@.row(i as int),
    {
        self.mat[i]
    }

    /// Replaces the row at the given position.
    pub fn set_row(&mut self, i: usize, row: Vector4<T>)
        requires
            i < 4,
        ensures
            final(self)@.row(i as int) == row@,
            forall|k: int| 0 <= k < 4 && k != i as int ==> final(self)@.row(k) == old(self)@.row(k),
    {
        self.mat[i] = row;
    }

    /// Returns the transpose of the matrix.
    /// The transpose is obtained by swapping rows and columns.
    pub fn transpose(&self) -> (r: Self)
        ensures
            r@ == self@.transpose(),
    {
        Self {
            mat: [
                Vector4::new(self.mat[0].x, self.mat[1].x, self.mat[2].x, self.mat[3].x),
                Vector4::new(self.mat[0].y, self.mat[1].y, self.mat[2].y, self.mat[3].y),
                Vector4::new(self.mat[0].z, self.mat[1].z, self.mat[2].z, self.mat[3].z),
                Vector4::new(self.mat[0].w, self.mat[1].w, self.mat[2].w, self.mat[3].w),
            ],
        }
    }

    /// Returns the determinant of the matrix, by the cofactor expansion
    /// along the first row with each 3-by-3 minor written out inline.
    pub fn determinant(&self) -> (r: T)
        requires
            mat4_det_fits::<T>(self@),
        ensures
            r.as_int() == self@.det(),
    {
        proof {
            T::props();
        }
        let m = &self.mat;
        m[0].x * (m[1].y * (m[2].z * m[3].w - m[2].w * m[3].z) - m[1].z * (m[2].y * m[3].w
            - m[2].w * m[3].y) + m[1].w * (m[2].y * m[3].z - m[2].z * m[3].y)) - m[0].y * (m[1].x
            * (m[2].z * m[3].w - m[2].w * m[3].z) - m[1].z * (m[2].x * m[3].w - m[2].w * m[3].x)
            + m[1].w * (m[2].x * m[3].z - m[2].z * m[3].x)) + m[0].z * (m[1].x * (m[2].y * m[3].w
            - m[2].w * m[3].y) - m[1].y * (m[2].x * m[3].w - m[2].w * m[3].x) + m[1].w * (m[2].x
            * m[3].y - m[2].y * m[3].x)) - m[0].w * (m[1].x * (m[2].y * m[3].z - m[2].z * m[3].y)
            - m[1].y * (m[2].x * m[3].z - m[2].z * m[3].x) + m[1].z * (m[2].x * m[3].y - m[2].y
            * m[3].x))
    }

    /// Returns the inverse of the matrix if it exists, by the closed-form
    /// block method: the leading 3-vectors of the columns give two cross
    /// products and two weighted differences, which are scaled by the
    /// reciprocal of the determinant (truncated to the scalar type) and
    /// recombined into the four rows. Returns `None` exactly when the
    /// determinant is zero.
    pub fn inverse(&self) -> (r: Option<Self>)
        requires
            mat4_inverse_fits::<T>(self@),
        ensures
            r is Some <==> self@.det() != 0,
            r matches Some(m) ==> Some(m@) == self@.inverse(),
    {
        proof {
            T::props();
            T::neg_props();
            lemma_det4_block(self@);
        }
        let col0 = Vector3::new(self.mat[0].x, self.mat[1].x, self.mat[2].x);
        let col1 = Vector3::new(self.mat[0].y, self.mat[1].y, self.mat[2].y);
        let col2 = Vector3::new(self.mat[0].z, self.mat[1].z, self.mat[2].z);
        let col3 = Vector3::new(self.mat[0].w, self.mat[1].w, self.mat[2].w);

        let x = self.mat[3].x;
        let y = self.mat[3].y;
        let z = self.mat[3].z;
        let w = self.mat[3].w;

        let s = col0.cross(&col1);
        let t = col2.cross(&col3);
        let u = col0 * y - col1 * x;
        let v = col2 * w - col3 * z;

        let determinant = s.dot(&v) + t.dot(&u);
        if determinant == T::zero() {
            return None;  // Matrix is singular, no inverse exists
        }
        let inv_det = T::one() / determinant;
        proof {
            lemma_trunc_recip(self@.blk_det());
            lemma_scale_unit_in_range::<T>(self@.blk_s(), inv_det.as_int());
            lemma_scale_unit_in_range::<T>(self@.blk_t(), inv_det.as_int());
            lemma_scale_unit_in_range::<T>(self@.blk_u(), inv_det.as_int());
            lemma_scale_unit_in_range::<T>(self@.blk_v(), inv_det.as_int());
        }
        let s = s * inv_det;
        let t = t * inv_det;
        let u = u * inv_det;
        let v = v * inv_det;

        let r0 = col1.cross(&v) + t * y;
        let r1 = v.cross(&col0) - t * x;
        let r2 = col3.cross(&u) + s * w;
        let r3 = u.cross(&col2) - s * z;

        Some(
            Self {
                mat: [
                    Vector4::from_vector3(&r0, col1.dot(&t).neg()),
                    Vector4::from_vector3(&r1, col0.dot(&t)),
                    Vector4::from_vector3(&r2, col3.dot(&s).neg()),
                    Vector4::from_vector3(&r3, col2.dot(&s)),
                ],
            },
        )
    }

    /// Returns the rows of the matrix as an array of `Vector4<T>`.
    pub fn rows(&self) -> (r: &[Vector4<T>; 4])
        ensures
            r@[0]@ == self@.r0,
            r@[1]@ == self@.r1,
            r@[2]@ == self@.r2,
            r@[3]@ == self@.r3,
    {
        &self.mat
    }


    /// Returns mutable access to the rows of the matrix as an array of
    /// `Vector4<T>`; the matrix afterwards holds whatever the caller leaves
    /// in the array.
    pub fn rows_mut(&mut self) -> (r: &mut [Vector4<T>; 4])
        ensures
            (*r)@[0]@ == old(self)@.r0,
            (*r)@[1]@ == old(self)@.r1,
            (*r)@[2]@ == old(self)@.r2,
            (*r)@[3]@ == old(self)@.r3,
            final(self)@ == (Mat4i {
                r0: (*final(r))@[0]@,
                r1: (*final(r))@[1]@,
                r2: (*final(r))@[2]@,
                r3: (*final(r))@[3]@,
            }),
    {
        &mut self.mat
    }

    /// Creates a `Matrix4x4` from a 2D array of rows.
    pub fn from_mat(mat: [[T; 4]; 4]) -> (r: Self)
        ensures
            r@ == (Mat4i {
                r0: Vec4i {
                    x: mat@[0]@[0].as_int(),
                    y: mat@[0]@[1].as_int(),
                    z: mat@[0]@[2].as_int(),
                    w: mat@[0]@[3].as_int(),
                },
                r1: Vec4i {
                    x: mat@[1]@[0].as_int(),
                    y: mat@[1]@[1].as_int(),
                    z: mat@[1]@[2].as_int(),
                    w: mat@[1]@[3].as_int(),
                },
                r2: Vec4i {
                    x: mat@[2]@[0].as_int(),
                    y: mat@[2]@[1].as_int(),
                    z: mat@[2]@[2].as_int(),
                    w: mat@[2]@[3].as_int(),
                },
                r3: Vec4i {
                    x: mat@[3]@[0].as_int(),
                    y: mat@[3]@[1].as_int(),
                    z: mat@[3]@[2].as_int(),
                    w: mat@[3]@[3].as_int(),
                },
            }),
    {
        Self {
            mat: [
                Vector4::new(mat[0][0], mat[0][1], mat[0][2], mat[0][3]),
                Vector4::new(mat[1][0], mat[1][1], mat[1][2], mat[1][3]),
                Vector4::new(mat[2][0], mat[2][1], mat[2][2], mat[2][3]),
                Vector4::new(mat[3][0], mat[3][1], mat[3][2], mat[3][3]),
            ],
        }
    }

    /// Converts the `Matrix4x4` to a 2D array of rows.
    pub fn to_mat(&self) -> (r: [[T; 4]; 4])
        ensures
            r@[0]@[0].as_int() == self@.r0.x,
            r@[0]@[1].as_int() == self@.r0.y,
            r@[0]@[2].as_int() == self@.r0.z,
            r@[0]@[3].as_int() == self@.r0.w,
            r@[1]@[0].as_int() == self@.r1.x,
            r@[1]@[1].as_int() == self@.r1.y,
            r@[1]@[2].as_int() == self@.r1.z,
            r@[1]@[3].as_int() == self@.r1.w,
            r@[2]@[0].as_int() == self@.r2.x,
            r@[2]@[1].as_int() == self@.r2.y,
            r@[2]@[2].as_int() == self@.r2.z,
            r@[2]@[3].as_int() == self@.r2.w,
            r@[3]@[0].as_int() == self@.r3.x,
            r@[3]@[1].as_int() == self@.r3.y,
            r@[3]@[2].as_int() == self@.r3.z,
            r@[3]@[3].as_int() == self@.r3.w,
    {
        [
            [self.mat[0].x, self.mat[0].y, self.mat[0].z, self.mat[0].w],
            [self.mat[1].x, self.mat[1].y, self.mat[1].z, self.mat[1].w],
            [self.mat[2].x, self.mat[2].y, self.mat[2].z, self.mat[2].w],
            [self.mat[3].x, self.mat[3].y, self.mat[3].z, self.mat[3].w],
        ]
    }

    /// Creates a `Matrix4x4` from a flat array of 16 elements.
    /// The elements are arranged in row-major order.
    pub fn from_array(arr: [T; 16]) -> (r: Self)
        ensures
            r@ == (Mat4i {
                r0: Vec4i {
                    x: arr@[0].as_int(),
                    y: arr@[1].as_int(),
                    z: arr@[2].as_int(),
                    w: arr@[3].as_int(),
                },
                r1: Vec4i {
                    x: arr@[4].as_int(),
                    y: arr@[5].as_int(),
                    z: arr@[6].as_int(),
                    w: arr@[7].as_int(),
                },
                r2: Vec4i {
                    x: arr@[8].as_int(),
                    y: arr@[9].as_int(),
                    z: arr@[10].as_int(),
                    w: arr@[11].as_int(),
                },
                r3: Vec4i {
                    x: arr@[12].as_int(),
                    y: arr@[13].as_int(),
                    z: arr@[14].as_int(),
                    w: arr@[15].as_int(),
                },
            }),
    {
        Self {
            mat: [
                Vector4::new(arr[0], arr[1], arr[2], arr[3]),
                Vector4::new(arr[4], arr[5], arr[6], arr[7]),
                Vector4::new(arr[8], arr[9], arr[10], arr[11]),
                Vector4::new(arr[12], arr[13], arr[14], arr[15]),
            ],
        }
    }

    /// Converts the `Matrix4x4` to a flat array of 16 elements.
    /// The elements are arranged in row-major order.
    pub fn to_array(&self) -> (r: [T; 16])
        ensures
            r@[0].as_int() == self@.r0.x,
            r@[1].as_int() == self@.r0.y,
            r@[2].as_int() == self@.r0.z,
            r@[3].as_int() == self@.r0.w,
            r@[4].as_int() == self@.r1.x,
            r@[5].as_int() == self@.r1.y,
            r@[6].as_int() == self@.r1.z,
            r@[7].as_int() == self@.r1.w,
            r@[8].as_int() == self@.r2.x,
            r@[9].as_int() == self@.r2.y,
            r@[10].as_int() == self@.r2.z,
            r@[11].as_int() == self@.r2.w,
            r@[12].as_int() == self@.r3.x,
            r@[13].as_int() == self@.r3.y,
            r@[14].as_int() == self@.r3.z,
            r@[15].as_int() == self@.r3.w,
    {
        [
            self.mat[0].x,
            self.mat[0].y,
            self.mat[0].z,
            self.mat[0].w,
            self.mat[1].x,
            self.mat[1].y,
            self.mat[1].z,
            self.mat[1].w,
            self.mat[2].x,
            self.mat[2].y,
            self.mat[2].z,
            self.mat[2].w,
            self.mat[3].x,
            self.mat[3].y,
            self.mat[3].z,
            self.mat[3].w,
        ]
    }

    /// Creates a `Matrix4x4` from the first 16 elements of a slice, in
    /// row-major order.
    pub fn from_slice(slice: &[T]) -> (r: Self)
        requires
            slice@.len() >= 16,
        ensures
            r@ == (Mat4i {
                r0: Vec4i {
                    x: slice@[0].as_int(),
                    y: slice@[1].as_int(),
                    z: slice@[2].as_int(),
                    w: slice@[3].as_int(),
                },
                r1: Vec4i {
                    x: slice@[4].as_int(),
                    y: slice@[5].as_int(),
                    z: slice@[6].as_int(),
                    w: slice@[7].as_int(),
                },
                r2: Vec4i {
                    x: slice@[8].as_int(),
                    y: slice@[9].as_int(),
                    z: slice@[10].as_int(),
                    w: slice@[11].as_int(),
                },
                r3: Vec4i {
                    x: slice@[12].as_int(),
                    y: slice@[13].as_int(),
                    z: slice@[14].as_int(),
                    w: slice@[15].as_int(),
                },
            }),
    {
        Self {
            mat: [
                Vector4::new(slice[0], slice[1], slice[2], slice[3]),
                Vector4::new(slice[4], slice[5], slice[6], slice[7]),
                Vector4::new(slice[8], slice[9], slice[10], slice[11]),
                Vector4::new(slice[12], slice[13], slice[14], slice[15]),
            ],
        }
    }

    /// In-place componentwise addition.
    pub fn add_assign(&mut self, rhs: Matrix4x4<T>)
        requires
            mat4_in_range::<T>(old(self)@.add(rhs@)),
        ensures
            final(self)@ == old(self)@.add(rhs@),
    {
        let r0 = self.mat[0] + rhs.mat[0];
        let r1 = self.mat[1] + rhs.mat[1];
        let r2 = self.mat[2] + rhs.mat[2];
        let r3 = self.mat[3] + rhs.mat[3];
        self.mat = [r0, r1, r2, r3];
    }

    /// In-place componentwise subtraction.
    pub fn sub_assign(&mut self, rhs: Matrix4x4<T>)
        requires
            mat4_in_range::<T>(old(self)@.sub(rhs@)),
        ensures
            final(self)@ == old(self)@.sub(rhs@),
    {
        let r0 = self.mat[0] - rhs.mat[0];
        let r1 = self.mat[1] - rhs.mat[1];
        let r2 = self.mat[2] - rhs.mat[2];
        let r3 = self.mat[3] - rhs.mat[3];
        self.mat = [r0, r1, r2, r3];
    }

    /// In-place multiplication of every entry by a scalar.
    pub fn mul_assign(&mut self, rhs: T)
        requires
            mat4_in_range::<T>(old(self)@.scale(rhs.as_int())),
        ensures
            final(self)@ == old(self)@.scale(rhs.as_int()),
    {
        let r0 = self.mat[0] * rhs;
        let r1 = self.mat[1] * rhs;
        let r2 = self.mat[2] * rhs;
        let r3 = self.mat[3] * rhs;
        self.mat = [r0, r1, r2, r3];
    }
}

} // verus!
