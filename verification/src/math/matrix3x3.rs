//! A 3-by-3 row-major matrix over any signed scalar, built on `Vector3`
//! rows, with determinant and the adjugate-method inverse.

use vstd::prelude::*;
use core::ops::Neg;
use crate::math::model::lemma_trunc_recip;
use crate::math::model::Mat3i;
use crate::math::model::Vec3i;
use crate::math::number::in_range;
use crate::math::number::Number;
use crate::math::number::SignedNumber;
use crate::math::vector3::vec3_cross_fits;
use crate::math::vector3::vec3_div_ok;
use crate::math::vector3::vec3_dot_fits;
use crate::math::vector3::vec3_in_range;
use crate::math::vector3::Vector3;

verus! {

/// Whether every entry of a model matrix fits in the scalar type `T`.
pub open spec fn mat3_in_range<T: Number>(m: Mat3i) -> bool {
    vec3_in_range::<T>(m.r0) && vec3_in_range::<T>(m.r1) && vec3_in_range::<T>(m.r2)
}

/// Whether every intermediate of the matrix product of `a` and `b` fits in
/// `T`: each entry is a row-by-column dot product.
pub open spec fn mat3_matmul_fits<T: Number>(a: Mat3i, b: Mat3i) -> bool {
    &&& vec3_dot_fits::<T>(a.r0, b.col(0))
    &&& vec3_dot_fits::<T>(a.r0, b.col(1))
    &&& vec3_dot_fits::<T>(a.r0, b.col(2))
    &&& vec3_dot_fits::<T>(a.r1, b.col(0))
    &&& vec3_dot_fits::<T>(a.r1, b.col(1))
    &&& vec3_dot_fits::<T>(a.r1, b.col(2))
    &&& vec3_dot_fits::<T>(a.r2, b.col(0))
    &&& vec3_dot_fits::<T>(a.r2, b.col(1))
    &&& vec3_dot_fits::<T>(a.r2, b.col(2))
}

/// Whether every intermediate of the product of matrix `m` with column
/// vector `v` fits in `T`.
pub open spec fn mat3_mul_vec_fits<T: Number>(m: Mat3i, v: Vec3i) -> bool {
    &&& vec3_dot_fits::<T>(m.r0, v)
    &&& vec3_dot_fits::<T>(m.r1, v)
    &&& vec3_dot_fits::<T>(m.r2, v)
}

/// Whether every intermediate of the product of row vector `v` with matrix
/// `m` fits in `T`.
pub open spec fn mat3_vec_mul_fits<T: Number>(m: Mat3i, v: Vec3i) -> bool {
    &&& vec3_dot_fits::<T>(v, m.col(0))
    &&& vec3_dot_fits::<T>(v, m.col(1))
    &&& vec3_dot_fits::<T>(v, m.col(2))
}

/// Whether every intermediate of the first-row cofactor expansion of the
/// determinant of `m` fits in `T`.
pub open spec fn mat3_det_fits<T: Number>(m: Mat3i) -> bool {
    &&& in_range::<T>(m.r1.y * m.r2.z)
    &&& in_range::<T>(m.r1.z * m.r2.y)
    &&& in_range::<T>(m.r1.y * m.r2.z - m.r1.z * m.r2.y)
    &&& in_range::<T>(m.r0.x * (m.r1.y * m.r2.z - m.r1.z * m.r2.y))
    &&& in_range::<T>(m.r1.x * m.r2.z)
    &&& in_range::<T>(m.r1.z * m.r2.x)
    &&& in_range::<T>(m.r1.x * m.r2.z - m.r1.z * m.r2.x)
    &&& in_range::<T>(m.r0.y * (m.r1.x * m.r2.z - m.r1.z * m.r2.x))
    &&& in_range::<T>(m.r1.x * m.r2.y)
    &&& in_range::<T>(m.r1.y * m.r2.x)
    &&& in_range::<T>(m.r1.x * m.r2.y - m.r1.y * m.r2.x)
    &&& in_range::<T>(m.r0.z * (m.r1.x * m.r2.y - m.r1.y * m.r2.x))
    &&& in_range::<T>(
        m.r0.x * (m.r1.y * m.r2.z - m.r1.z * m.r2.y) - m.r0.y * (m.r1.x * m.r2.z - m.r1.z
            * m.r2.x),
    )
    &&& in_range::<T>(m.det())
}

/// Whether every intermediate of the adjugate-method inverse of `m` fits in
/// `T`: the three column cross products, the determinant as the dot of the
/// last adjugate row with the last column, and, when the determinant is
/// minus one, the negation of every adjugate entry.
pub open spec fn mat3_inverse_fits<T: Number>(m: Mat3i) -> bool {
    &&& vec3_cross_fits::<T>(m.col(1), m.col(2))
    &&& vec3_cross_fits::<T>(m.col(2), m.col(0))
    &&& vec3_cross_fits::<T>(m.col(0), m.col(1))
    &&& vec3_dot_fits::<T>(m.adjugate_row(2), m.col(2))
    &&& (m.det() == -1 ==> vec3_in_range::<T>(m.adjugate_row(0).neg()) && vec3_in_range::<T>(
        m.adjugate_row(1).neg(),
    ) && vec3_in_range::<T>(m.adjugate_row(2).neg()))
}

/// The determinant computed by the adjugate method — the dot product of the
/// last adjugate row with the last column — equals the first-row cofactor
/// expansion.
pub proof fn lemma_det3_adjugate(m: Mat3i)
    ensures
        m.adjugate_row(2).dot(m.col(2)) == m.det(),
{
    let axx: int = m.r0.x;
    let axy: int = m.r0.y;
    let axz: int = m.r0.z;
    let ayx: int = m.r1.x;
    let ayy: int = m.r1.y;
    let ayz: int = m.r1.z;
    let azx: int = m.r2.x;
    let azy: int = m.r2.y;
    let azz: int = m.r2.z;
    assert(m.adjugate_row(2) == (Vec3i {
        x: ayx * azy - azx * ayy,
        y: azx * axy - axx * azy,
        z: axx * ayy - ayx * axy,
    }));
    assert((ayx * azy - azx * ayy) * axz == axz * ayx * azy - axz * ayy * azx) by (nonlinear_arith);
    assert((azx * axy - axx * azy) * ayz == axy * ayz * azx - axx * ayz * azy) by (nonlinear_arith);
    assert((axx * ayy - ayx * axy) * azz == axx * ayy * azz - axy * ayx * azz) by (nonlinear_arith);
    assert(axx * (ayy * azz - ayz * azy) == axx * ayy * azz - axx * ayz * azy) by (nonlinear_arith);
    assert(axy * (ayx * azz - ayz * azx) == axy * ayx * azz - axy * ayz * azx) by (nonlinear_arith);
    assert(axz * (ayx * azy - ayy * azx) == axz * ayx * azy - axz * ayy * azx) by (nonlinear_arith);
}

/// The view determines the matrix: two matrices with equal mathematical
/// views are the same value. With `from_array` and `to_array` this gives
/// the round trip: a matrix rebuilt from its own flat array is the matrix
/// itself.
pub proof fn lemma_matrix3x3_view_injective<T: SignedNumber>(a: Matrix3x3<T>, b: Matrix3x3<T>)
    requires
        a@ == b@,
    ensures
        a == b,
{
    crate::math::vector3::lemma_vector3_view_injective::<T>(a.mat@[0], b.mat@[0]);
    crate::math::vector3::lemma_vector3_view_injective::<T>(a.mat@[1], b.mat@[1]);
    crate::math::vector3::lemma_vector3_view_injective::<T>(a.mat@[2], b.mat@[2]);
    assert(a.mat =~= b.mat);
}

/// A 3x3 matrix represented as an array of three `Vector3<T>` **rows**.
/// It supports addition, subtraction, multiplication by a scalar,
/// multiplication by another matrix, and multiplication by a vector.
#[derive(Debug, Clone, Copy, PartialEq)]
pub struct Matrix3x3<T: SignedNumber> {
    mat: [Vector3<T>; 3],
}

impl<T: SignedNumber> View for Matrix3x3<T> {
    type V = Mat3i;

    closed spec fn view(&self) -> Mat3i {
        Mat3i { r0: self.mat@[0]@, r1: self.mat@[1]@, r2: self.mat@[2]@ }
    }
}

impl<T: SignedNumber> vstd::std_specs::ops::AddSpecImpl for Matrix3x3<T> {
    // The exact contract is the `ensures` of the `Add` impl below; nothing
    // is claimed through `add_spec`.
    open spec fn obeys_add_spec() -> bool {
        false
    }

    open spec fn add_req(self, rhs: Matrix3x3<T>) -> bool {
        mat3_in_range::<T>(self@.add(rhs@))
    }

    open spec fn add_spec(self, rhs: Matrix3x3<T>) -> Self::Output {
        self
    }
}

impl<T: SignedNumber> core::ops::Add for Matrix3x3<T> {
    type Output = Matrix3x3<T>;

    /// Componentwise matrix addition.
    fn add(self, rhs: Matrix3x3<T>) -> (r: Matrix3x3<T>)
        ensures
            r@ == self@.add(rhs@),
    {
        Matrix3x3 { mat: [self.mat[0] + rhs.mat[0], self.mat[1] + rhs.mat[1], self.mat[2] + rhs.mat[2]] }
    }
}

impl<T: SignedNumber> vstd::std_specs::ops::SubSpecImpl for Matrix3x3<T> {
    // The exact contract is the `ensures` of the `Sub` impl below.
    open spec fn obeys_sub_spec() -> bool {
        false
    }

    open spec fn sub_req(self, rhs: Matrix3x3<T>) -> bool {
        mat3_in_range::<T>(self@.sub(rhs@))
    }

    open spec fn sub_spec(self, rhs: Matrix3x3<T>) -> Self::Output {
        self
    }
}

impl<T: SignedNumber> core::ops::Sub for Matrix3x3<T> {
    type Output = Matrix3x3<T>;

    /// Componentwise matrix subtraction.
    fn sub(self, rhs: Matrix3x3<T>) -> (r: Matrix3x3<T>)
        ensures
            r@ == self@.sub(rhs@),
    {
        Matrix3x3 { mat: [self.mat[0] - rhs.mat[0], self.mat[1] - rhs.mat[1], self.mat[2] - rhs.mat[2]] }
    }
}

impl<T: SignedNumber> vstd::std_specs::ops::NegSpecImpl for Matrix3x3<T> {
    // The exact contract is the `ensures` of the `Neg` impl below.
    open spec fn obeys_neg_spec() -> bool {
        false
    }

    open spec fn neg_req(self) -> bool {
        mat3_in_range::<T>(self@.neg())
    }

    open spec fn neg_spec(self) -> Self::Output {
        self
    }
}

impl<T: SignedNumber> core::ops::Neg for Matrix3x3<T> {
    type Output = Matrix3x3<T>;

    /// Componentwise negation.
    fn neg(self) -> (r: Matrix3x3<T>)
        ensures
            r@ == self@.neg(),
    {
        Matrix3x3 { mat: [self.mat[0].neg(), self.mat[1].neg(), self.mat[2].neg()] }
    }
}

impl<T: SignedNumber> vstd::std_specs::ops::MulSpecImpl<T> for Matrix3x3<T> {
    // The exact contract is the `ensures` of the scalar `Mul` impl below.
    open spec fn obeys_mul_spec() -> bool {
        false
    }

    open spec fn mul_req(self, rhs: T) -> bool {
        mat3_in_range::<T>(self@.scale(rhs.as_int()))
    }

    open spec fn mul_spec(self, rhs: T) -> Self::Output {
        self
    }
}

/// Right-hand side scalar multiplication.
impl<T: SignedNumber> core::ops::Mul<T> for Matrix3x3<T> {
    type Output = Matrix3x3<T>;

    /// Multiplication of every entry by a scalar.
    fn mul(self, rhs: T) -> (r: Matrix3x3<T>)
        ensures
            r@ == self@.scale(rhs.as_int()),
    {
        Matrix3x3 { mat: [self.mat[0] * rhs, self.mat[1] * rhs, self.mat[2] * rhs] }
    }
}

impl<T: SignedNumber> vstd::std_specs::ops::MulSpecImpl<Matrix3x3<T>> for Matrix3x3<T> {
    // The exact contract is the `ensures` of the matrix `Mul` impl below.
    open spec fn obeys_mul_spec() -> bool {
        false
    }

    open spec fn mul_req(self, rhs: Matrix3x3<T>) -> bool {
        mat3_matmul_fits::<T>(self@, rhs@)
    }

    open spec fn mul_spec(self, rhs: Matrix3x3<T>) -> Self::Output {
        self
    }
}

/// Matrix multiplication.
impl<T: SignedNumber> core::ops::Mul<Matrix3x3<T>> for Matrix3x3<T> {
    type Output = Matrix3x3<T>;

    /// Standard row-by-column matrix product.
    fn mul(self, rhs: Matrix3x3<T>) -> (r: Matrix3x3<T>)
        ensures
            r@ == self@.matmul(rhs@),
    {
        proof {
            T::props();
        }
        Matrix3x3 {
            mat: [
                Vector3 {
                    x: self.mat[0].x * rhs.mat[0].x + self.mat[0].y * rhs.mat[1].x + self.mat[0].z
                        * rhs.mat[2].x,
                    y: self.mat[0].x * rhs.mat[0].y + self.mat[0].y * rhs.mat[1].y + self.mat[0].z
                        * rhs.mat[2].y,
                    z: self.mat[0].x * rhs.mat[0].z + self.mat[0].y * rhs.mat[1].z + self.mat[0].z
                        * rhs.mat[2].z,
                },
                Vector3 {
                    x: self.mat[1].x * rhs.mat[0].x + self.mat[1].y * rhs.mat[1].x + self.mat[1].z
                        * rhs.mat[2].x,
                    y: self.mat[1].x * rhs.mat[0].y + self.mat[1].y * rhs.mat[1].y + self.mat[1].z
                        * rhs.mat[2].y,
                    z: self.mat[1].x * rhs.mat[0].z + self.mat[1].y * rhs.mat[1].z + self.mat[1].z
                        * rhs.mat[2].z,
                },
                Vector3 {
                    x: self.mat[2].x * rhs.mat[0].x + self.mat[2].y * rhs.mat[1].x + self.mat[2].z
                        * rhs.mat[2].x,
                    y: self.mat[2].x * rhs.mat[0].y + self.mat[2].y * rhs.mat[1].y + self.mat[2].z
                        * rhs.mat[2].y,
                    z: self.mat[2].x * rhs.mat[0].z + self.mat[2].y * rhs.mat[1].z + self.mat[2].z
                        * rhs.mat[2].z,
                },
            ],
        }
    }
}

impl<T: SignedNumber> vstd::std_specs::ops::MulSpecImpl<Vector3<T>> for Matrix3x3<T> {
    // The exact contract is the `ensures` of the vector `Mul` impl below.
    open spec fn obeys_mul_spec() -> bool {
        false
    }

    open spec fn mul_req(self, rhs: Vector3<T>) -> bool {
        mat3_mul_vec_fits::<T>(self@, rhs@)
    }

    open spec fn mul_spec(self, rhs: Vector3<T>) -> Self::Output {
        rhs
    }
}

/// Right-hand side multiplication of a vector. Consider the vector as a column vector.
impl<T: SignedNumber> core::ops::Mul<Vector3<T>> for Matrix3x3<T> {
    type Output = Vector3<T>;

    /// The matrix applied to a column vector.
    fn mul(self, rhs: Vector3<T>) -> (r: Vector3<T>)
        ensures
            r@ == self@.mul_vec(rhs@),
    {
        Vector3 { x: self.mat[0].dot(&rhs), y: self.mat[1].dot(&rhs), z: self.mat[2].dot(&rhs) }
    }
}

impl<T: SignedNumber> vstd::std_specs::ops::MulSpecImpl<Matrix3x3<T>> for Vector3<T> {
    // The exact contract is the `ensures` of the row-vector `Mul` impl
    // below.
    open spec fn obeys_mul_spec() -> bool {
        false
    }

    open spec fn mul_req(self, rhs: Matrix3x3<T>) -> bool {
        mat3_vec_mul_fits::<T>(rhs@, self@)
    }

    open spec fn mul_spec(self, rhs: Matrix3x3<T>) -> Self::Output {
        self
    }
}

/// Left-hand side multiplication of a vector. Consider the vector as a row vector.
impl<T: SignedNumber> core::ops::Mul<Matrix3x3<T>> for Vector3<T> {
    type Output = Vector3<T>;

    /// A row vector applied to the matrix.
    fn mul(self, rhs: Matrix3x3<T>) -> (r: Vector3<T>)
        ensures
            r@ == rhs@.vec_mul(self@),
    {
        proof {
            T::props();
        }
        Vector3 {
            x: self.x * rhs.mat[0].x + self.y * rhs.mat[1].x + self.z * rhs.mat[2].x,
            y: self.x * rhs.mat[0].y + self.y * rhs.mat[1].y + self.z * rhs.mat[2].y,
            z: self.x * rhs.mat[0].z + self.y * rhs.mat[1].z + self.z * rhs.mat[2].z,
        }
    }
}

impl<T: SignedNumber> vstd::std_specs::ops::DivSpecImpl<T> for Matrix3x3<T> {
    // The exact contract is the `ensures` of the `Div` impl below.
    open spec fn obeys_div_spec() -> bool {
        false
    }

    open spec fn div_req(self, rhs: T) -> bool {
        vec3_div_ok::<T>(self@.r0, rhs.as_int()) && vec3_div_ok::<T>(self@.r1, rhs.as_int())
            && vec3_div_ok::<T>(self@.r2, rhs.as_int())
    }

    open spec fn div_spec(self, rhs: T) -> Self::Output {
        self
    }
}

/// Division by scalar.
impl<T: SignedNumber> core::ops::Div<T> for Matrix3x3<T> {
    type Output = Matrix3x3<T>;

    /// Division of every entry by a scalar, rounding toward zero.
    fn div(self, rhs: T) -> (r: Matrix3x3<T>)
        ensures
            r@ == self@.div_trunc(rhs.as_int()),
    {
        Matrix3x3 { mat: [self.mat[0] / rhs, self.mat[1] / rhs, self.mat[2] / rhs] }
    }
}

impl<T: SignedNumber> Default for Matrix3x3<T> {
    /// The default matrix is the zero matrix.
    fn default() -> (r: Matrix3x3<T>)
        ensures
            r@ == Mat3i::zero(),
    {
        Matrix3x3::zero()
    }
}

impl<T: SignedNumber> Matrix3x3<T> {
    /// Creates a new `Matrix3x3` with the given rows.
    pub fn new(rows: [Vector3<T>; 3]) -> (r: Self)
        ensures
            r@ == (Mat3i { r0: rows@[0]@, r1: rows@[1]@, r2: rows@[2]@ }),
    {
        Self { mat: rows }
    }

    /// Creates a new `Matrix3x3` with all elements initialized to zero.
    pub fn zero() -> (r: Self)
        ensures
            r@ == Mat3i::zero(),
    {
        Self { mat: [Vector3::zero(), Vector3::zero(), Vector3::zero()] }
    }

    /// Creates a new `Matrix3x3` with all elements initialized to one.
    pub fn one() -> (r: Self)
        ensures
            r@ == Mat3i::ones(),
    {
        Self { mat: [Vector3::one(), Vector3::one(), Vector3::one()] }
    }

    /// Creates a new `Matrix3x3` that represents the identity matrix.
    /// The identity matrix has ones on the diagonal and zeros elsewhere.
    pub fn identity() -> (r: Self)
        ensures
            r@ == Mat3i::identity(),
    {
        Self {
            mat: [
                Vector3::new(T::one(), T::zero(), T::zero()),
                Vector3::new(T::zero(), T::one(), T::zero()),
                Vector3::new(T::zero(), T::zero(), T::one()),
            ],
        }
    }

    /// Returns the row at the given position.
    pub fn index(&self, i: usize) -> (r: Vector3<T>)
        requires
            i < 3,
        ensures
            r@ == self@.row(i as int),
    {
        self.mat[i]
    }

    /// Replaces the row at the given position.
    pub fn set_row(&mut self, i: usize, row: Vector3<T>)
        requires
            i < 3,
        ensures
            final(self)@.row(i as int) == row@,
            forall|k: int| 0 <= k < 3 && k != i as int ==> final(self)@.row(k) == old(self)@.row(k),
    {
        self.mat[i] = row;
    }

    /// Returns the transpose of the matrix.
    /// The transpose of a matrix is obtained by swapping its rows and columns.
    pub fn transpose(&self) -> (r: Self)
        ensures
            r@ == self@.transpose(),
    {
        Self {
            mat: [
                Vector3::new(self.mat[0].x, self.mat[1].x, self.mat[2].x),
                Vector3::new(self.mat[0].y, self.mat[1].y, self.mat[2].y),
                Vector3::new(self.mat[0].z, self.mat[1].z, self.mat[2].z),
            ],
        }
    }

    /// Returns the determinant of the matrix, by the cofactor expansion
    /// along the first row.
    pub fn determinant(&self) -> (r: T)
        requires
            mat3_det_fits::<T>(self@),
        ensures
            r.as_int() == self@.det(),
    {
        proof {
            T::props();
        }
        self.mat[0].x * (self.mat[1].y * self.mat[2].z - self.mat[1].z * self.mat[2].y)
            - self.mat[0].y * (self.mat[1].x * self.mat[2].z - self.mat[1].z * self.mat[2].x)
            + self.mat[0].z * (self.mat[1].x * self.mat[2].y - self.mat[1].y * self.mat[2].x)
    }

    /// Returns the inverse of the matrix if it exists: the adjugate rows
    /// are the pairwise cross products of the columns, and each is scaled
    /// by the reciprocal of the determinant, truncated to the scalar type.
    /// Returns `None` exactly when the determinant is zero.
    pub fn inverse(&self) -> (r: Option<Self>)
        requires
            mat3_inverse_fits::<T>(self@),
        ensures
            r is Some <==> self@.det() != 0,
            r matches Some(m) ==> Some(m@) == self@.inverse(),
    {
        proof {
            T::props();
            lemma_det3_adjugate(self@);
        }
        let col0 = Vector3::new(self.mat[0].x, self.mat[1].x, self.mat[2].x);
        let col1 = Vector3::new(self.mat[0].y, self.mat[1].y, self.mat[2].y);
        let col2 = Vector3::new(self.mat[0].z, self.mat[1].z, self.mat[2].z);
        let cofactor_row0 = col1.cross(&col2);
        let cofactor_row1 = col2.cross(&col0);
        let cofactor_row2 = col0.cross(&col1);

        let determinant = cofactor_row2.dot(&col2);
        if determinant == T::zero() {
            return None;  // Matrix is singular, no inverse exists
        }
        let inv_det = T::one() / determinant;
        proof {
            lemma_trunc_recip(self@.det());
            crate::math::vector3::lemma_scale_unit_in_range::<T>(
                cofactor_row0@,
                inv_det.as_int(),
            );
            crate::math::vector3::lemma_scale_unit_in_range::<T>(
                cofactor_row1@,
                inv_det.as_int(),
            );
            crate::math::vector3::lemma_scale_unit_in_range::<T>(
                cofactor_row2@,
                inv_det.as_int(),
            );
        }
        Some(
            Self {
                mat: [cofactor_row0 * inv_det, cofactor_row1 * inv_det, cofactor_row2 * inv_det],
            },
        )
    }

    /// Returns the rows of the matrix as an array of `Vector3<T>`.
    pub fn rows(&self) -> (r: &[Vector3<T>; 3])
        ensures
            r@[0]@ == self@.r0,
            r@[1]@ == self@.r1,
            r@[2]@ == self@.r2,
    {
        &self.mat
    }


    /// Returns mutable access to the rows of the matrix as an array of
    /// `Vector3<T>`; the matrix afterwards holds whatever the caller leaves
    /// in the array.
    pub fn rows_mut(&mut self) -> (r: &mut [Vector3<T>; 3])
        ensures
            (*r)@[0]@ == old(self)@.r0,
            (*r)@[1]@ == old(self)@.r1,
            (*r)@[2]@ == old(self)@.r2,
            final(self)@ == (Mat3i {
                r0: (*final(r))@[0]@,
                r1: (*final(r))@[1]@,
                r2: (*final(r))@[2]@,
            }),
    {
        &mut self.mat
    }

    /// Creates a `Matrix3x3` from a 2D array of rows.
    pub fn from_mat(mat: [[T; 3]; 3]) -> (r: Self)
        ensures
            r@ == (Mat3i {
                r0: Vec3i {
                    x: mat@[0]@[0].as_int(),
                    y: mat@[0]@[1].as_int(),
                    z: mat@[0]@[2].as_int(),
                },
                r1: Vec3i {
                    x: mat@[1]@[0].as_int(),
                    y: mat@[1]@[1].as_int(),
                    z: mat@[1]@[2].as_int(),
                },
                r2: Vec3i {
                    x: mat@[2]@[0].as_int(),
                    y: mat@[2]@[1].as_int(),
                    z: mat@[2]@[2].as_int(),
                },
            }),
    {
        Self {
            mat: [
                Vector3::new(mat[0][0], mat[0][1], mat[0][2]),
                Vector3::new(mat[1][0], mat[1][1], mat[1][2]),
                Vector3::new(mat[2][0], mat[2][1], mat[2][2]),
            ],
        }
    }

    /// Converts the `Matrix3x3` to a 2D array of rows.
    pub fn to_mat(&self) -> (r: [[T; 3]; 3])
        ensures
            r@[0]@[0].as_int() == self@.r0.x,
            r@[0]@[1].as_int() == self@.r0.y,
            r@[0]@[2].as_int() == self@.r0.z,
            r@[1]@[0].as_int() == self@.r1.x,
            r@[1]@[1].as_int() == self@.r1.y,
            r@[1]@[2].as_int() == self@.r1.z,
            r@[2]@[0].as_int() == self@.r2.x,
            r@[2]@[1].as_int() == self@.r2.y,
            r@[2]@[2].as_int() == self@.r2.z,
    {
        [
            [self.mat[0].x, self.mat[0].y, self.mat[0].z],
            [self.mat[1].x, self.mat[1].y, self.mat[1].z],
            [self.mat[2].x, self.mat[2].y, self.mat[2].z],
        ]
    }

    /// Creates a `Matrix3x3` from a flat array of 9 elements.
    /// The elements are arranged in row-major order.
    pub fn from_array(arr: [T; 9]) -> (r: Self)
        ensures
            r@ == (Mat3i {
                r0: Vec3i { x: arr@[0].as_int(), y: arr@[1].as_int(), z: arr@[2].as_int() },
                r1: Vec3i { x: arr@[3].as_int(), y: arr@[4].as_int(), z: arr@[5].as_int() },
                r2: Vec3i { x: arr@[6].as_int(), y: arr@[7].as_int(), z: arr@[8].as_int() },
            }),
    {
        Self {
            mat: [
                Vector3::new(arr[0], arr[1], arr[2]),
                Vector3::new(arr[3], arr[4], arr[5]),
                Vector3::new(arr[6], arr[7], arr[8]),
            ],
        }
    }

    /// Converts the `Matrix3x3` to a flat array of 9 elements.
    /// The elements are arranged in row-major order.
    pub fn to_array(&self) -> (r: [T; 9])
        ensures
            r@[0].as_int() == self@.r0.x,
            r@[1].as_int() == self@.r0.y,
            r@[2].as_int() == self@.r0.z,
            r@[3].as_int() == self@.r1.x,
            r@[4].as_int() == self@.r1.y,
            r@[5].as_int() == self@.r1.z,
            r@[6].as_int() == self@.r2.x,
            r@[7].as_int() == self@.r2.y,
            r@[8].as_int() == self@.r2.z,
    {
        [
            self.mat[0].x,
            self.mat[0].y,
            self.mat[0].z,
            self.mat[1].x,
            self.mat[1].y,
            self.mat[1].z,
            self.mat[2].x,
            self.mat[2].y,
            self.mat[2].z,
        ]
    }

    /// Flattens the matrix into a single array of 9 elements in row-major order.
    /// Alias for `to_array()`.
    pub fn flatten(&self) -> (r: [T; 9])
        ensures
            r@[0].as_int() == self@.r0.x,
            r@[1].as_int() == self@.r0.y,
            r@[2].as_int() == self@.r0.z,
            r@[3].as_int() == self@.r1.x,
            r@[4].as_int() == self@.r1.y,
            r@[5].as_int() == self@.r1.z,
            r@[6].as_int() == self@.r2.x,
            r@[7].as_int() == self@.r2.y,
            r@[8].as_int() == self@.r2.z,
    {
        self.to_array()
    }

    /// Creates a `Matrix3x3` from the first 9 elements of a slice, in
    /// row-major order.
    pub fn from_slice(slice: &[T]) -> (r: Self)
        requires
            slice@.len() >= 9,
        ensures
            r@ == (Mat3i {
                r0: Vec3i { x: slice@[0].as_int(), y: slice@[1].as_int(), z: slice@[2].as_int() },
                r1: Vec3i { x: slice@[3].as_int(), y: slice@[4].as_int(), z: slice@[5].as_int() },
                r2: Vec3i { x: slice@[6].as_int(), y: slice@[7].as_int(), z: slice@[8].as_int() },
            }),
    {
        Self {
            mat: [
                Vector3::new(slice[0], slice[1], slice[2]),
                Vector3::new(slice[3], slice[4], slice[5]),
                Vector3::new(slice[6], slice[7], slice[8]),
            ],
        }
    }

    /// In-place componentwise addition.
    pub fn add_assign(&mut self, rhs: Matrix3x3<T>)
        requires
            mat3_in_range::<T>(old(self)@.add(rhs@)),
        ensures
            final(self)@ == old(self)@.add(rhs@),
    {
        let r0 = self.mat[0] + rhs.mat[0];
        let r1 = self.mat[1] + rhs.mat[1];
        let r2 = self.mat[2] + rhs.mat[2];
        self.mat = [r0, r1, r2];
    }

    /// In-place multiplication of every entry by a scalar.
    pub fn mul_assign(&mut self, rhs: T)
        requires
            mat3_in_range::<T>(old(self)@.scale(rhs.as_int())),
        ensures
            final(self)@ == old(self)@.scale(rhs.as_int()),
    {
        let r0 = self.mat[0] * rhs;
        let r1 = self.mat[1] * rhs;
        let r2 = self.mat[2] * rhs;
        self.mat = [r0, r1, r2];
    }

    /// In-place division of every entry by a scalar, rounding toward zero.
    pub fn div_assign(&mut self, rhs: T)
        requires
            vec3_div_ok::<T>(old(self)@.r0, rhs.as_int()),
            vec3_div_ok::<T>(old(self)@.r1, rhs.as_int()),
            vec3_div_ok::<T>(old(self)@.r2, rhs.as_int()),
        ensures
            final(self)@ == old(self)@.div_trunc(rhs.as_int()),
    {
        let r0 = self.mat[0] / rhs;
        let r1 = self.mat[1] / rhs;
        let r2 = self.mat[2] / rhs;
        self.mat = [r0, r1, r2];
    }
}

} // verus!
