//! The mathematical model the contracts speak of: vectors and matrices of
//! unbounded integers, with the algebraic operations written out exactly as
//! the executable code computes them.

use vstd::prelude::*;
use crate::math::number::abs_int;
use crate::math::number::trunc_div;

verus! {

/// A pair of mathematical integers: the model of a two-component vector.
pub struct Vec2i {
    pub x: int,
    pub y: int,
}

/// A triple of mathematical integers: the model of a three-component vector.
pub struct Vec3i {
    pub x: int,
    pub y: int,
    pub z: int,
}

/// A quadruple of mathematical integers: the model of a four-component vector.
pub struct Vec4i {
    pub x: int,
    pub y: int,
    pub z: int,
    pub w: int,
}

/// The sign of a component of a truncated unit vector: the quotient
/// `c / sqrt(ns)` rounded toward zero, which is `±1` exactly when `c`
/// carries the whole squared norm `ns`, and `0` otherwise.
pub open spec fn unit_part(c: int, ns: int) -> int {
    if c * c == ns {
        if c < 0 {
            -1
        } else {
            1
        }
    } else {
        0
    }
}

impl Vec2i {
    pub open spec fn zero() -> Vec2i {
        Vec2i { x: 0, y: 0 }
    }

    pub open spec fn ones() -> Vec2i {
        Vec2i { x: 1, y: 1 }
    }

    pub open spec fn index(self, i: int) -> int {
        if i == 0 {
            self.x
        } else {
            self.y
        }
    }

    pub open spec fn updated(self, i: int, v: int) -> Vec2i {
        if i == 0 {
            Vec2i { x: v, ..self }
        } else {
            Vec2i { y: v, ..self }
        }
    }

    pub open spec fn add(self, o: Vec2i) -> Vec2i {
        Vec2i { x: self.x + o.x, y: self.y + o.y }
    }

    pub open spec fn sub(self, o: Vec2i) -> Vec2i {
        Vec2i { x: self.x - o.x, y: self.y - o.y }
    }

    pub open spec fn neg(self) -> Vec2i {
        Vec2i { x: -self.x, y: -self.y }
    }

    pub open spec fn scale(self, k: int) -> Vec2i {
        Vec2i { x: self.x * k, y: self.y * k }
    }

    pub open spec fn div_trunc(self, k: int) -> Vec2i {
        Vec2i { x: trunc_div(self.x, k), y: trunc_div(self.y, k) }
    }

    pub open spec fn dot(self, o: Vec2i) -> int {
        self.x * o.x + self.y * o.y
    }

    pub open spec fn norm_sq(self) -> int {
        self.x * self.x + self.y * self.y
    }

    pub open spec fn taxicab(self, o: Vec2i) -> int {
        abs_int(self.x - o.x) + abs_int(self.y - o.y)
    }

    /// Normalization as the scalar types perform it: a no-op on the zero
    /// vector, and otherwise each component is the quotient by the length,
    /// truncated toward zero.
    pub open spec fn normalized(self) -> Vec2i {
        if self.norm_sq() == 0 {
            self
        } else {
            Vec2i {
                x: unit_part(self.x, self.norm_sq()),
                y: unit_part(self.y, self.norm_sq()),
            }
        }
    }
}

impl Vec3i {
    pub open spec fn zero() -> Vec3i {
        Vec3i { x: 0, y: 0, z: 0 }
    }

    pub open spec fn ones() -> Vec3i {
        Vec3i { x: 1, y: 1, z: 1 }
    }

    pub open spec fn index(self, i: int) -> int {
        if i == 0 {
            self.x
        } else if i == 1 {
            self.y
        } else {
            self.z
        }
    }

    pub open spec fn updated(self, i: int, v: int) -> Vec3i {
        if i == 0 {
            Vec3i { x: v, ..self }
        } else if i == 1 {
            Vec3i { y: v, ..self }
        } else {
            Vec3i { z: v, ..self }
        }
    }

    pub open spec fn add(self, o: Vec3i) -> Vec3i {
        Vec3i { x: self.x + o.x, y: self.y + o.y, z: self.z + o.z }
    }

    pub open spec fn sub(self, o: Vec3i) -> Vec3i {
        Vec3i { x: self.x - o.x, y: self.y - o.y, z: self.z - o.z }
    }

    pub open spec fn neg(self) -> Vec3i {
        Vec3i { x: -self.x, y: -self.y, z: -self.z }
    }

    pub open spec fn scale(self, k: int) -> Vec3i {
        Vec3i { x: self.x * k, y: self.y * k, z: self.z * k }
    }

    pub open spec fn div_trunc(self, k: int) -> Vec3i {
        Vec3i { x: trunc_div(self.x, k), y: trunc_div(self.y, k), z: trunc_div(self.z, k) }
    }

    pub open spec fn dot(self, o: Vec3i) -> int {
        self.x * o.x + self.y * o.y + self.z * o.z
    }

    /// The standard determinant expansion of the cross product.
    pub open spec fn cross(self, o: Vec3i) -> Vec3i {
        Vec3i {
            x: self.y * o.z - self.z * o.y,
            y: self.z * o.x - self.x * o.z,
            z: self.x * o.y - self.y * o.x,
        }
    }

    pub open spec fn norm_sq(self) -> int {
        self.x * self.x + self.y * self.y + self.z * self.z
    }

    pub open spec fn taxicab(self, o: Vec3i) -> int {
        abs_int(self.x - o.x) + abs_int(self.y - o.y) + abs_int(self.z - o.z)
    }

    /// Normalization as the scalar types perform it: a no-op on the zero
    /// vector, and otherwise each component is the quotient by the length,
    /// truncated toward zero.
    pub open spec fn normalized(self) -> Vec3i {
        if self.norm_sq() == 0 {
            self
        } else {
            Vec3i {
                x: unit_part(self.x, self.norm_sq()),
                y: unit_part(self.y, self.norm_sq()),
                z: unit_part(self.z, self.norm_sq()),
            }
        }
    }
}

impl Vec4i {
    pub open spec fn zero() -> Vec4i {
        Vec4i { x: 0, y: 0, z: 0, w: 0 }
    }

    pub open spec fn ones() -> Vec4i {
        Vec4i { x: 1, y: 1, z: 1, w: 1 }
    }

    pub open spec fn from_vec3(v: Vec3i, w: int) -> Vec4i {
        Vec4i { x: v.x, y: v.y, z: v.z, w: w }
    }

    pub open spec fn index(self, i: int) -> int {
        if i == 0 {
            self.x
        } else if i == 1 {
            self.y
        } else if i == 2 {
            self.z
        } else {
            self.w
        }
    }

    pub open spec fn updated(self, i: int, v: int) -> Vec4i {
        if i == 0 {
            Vec4i { x: v, ..self }
        } else if i == 1 {
            Vec4i { y: v, ..self }
        } else if i == 2 {
            Vec4i { z: v, ..self }
        } else {
            Vec4i { w: v, ..self }
        }
    }

    pub open spec fn add(self, o: Vec4i) -> Vec4i {
        Vec4i { x: self.x + o.x, y: self.y + o.y, z: self.z + o.z, w: self.w + o.w }
    }

    pub open spec fn sub(self, o: Vec4i) -> Vec4i {
        Vec4i { x: self.x - o.x, y: self.y - o.y, z: self.z - o.z, w: self.w - o.w }
    }

    pub open spec fn neg(self) -> Vec4i {
        Vec4i { x: -self.x, y: -self.y, z: -self.z, w: -self.w }
    }

    pub open spec fn scale(self, k: int) -> Vec4i {
        Vec4i { x: self.x * k, y: self.y * k, z: self.z * k, w: self.w * k }
    }

    pub open spec fn div_trunc(self, k: int) -> Vec4i {
        Vec4i {
            x: trunc_div(self.x, k),
            y: trunc_div(self.y, k),
            z: trunc_div(self.z, k),
            w: trunc_div(self.w, k),
        }
    }

    pub open spec fn dot(self, o: Vec4i) -> int {
        self.x * o.x + self.y * o.y + self.z * o.z + self.w * o.w
    }

    /// The triple that remains when component `j` is removed.
    pub open spec fn without(self, j: int) -> Vec3i {
        if j == 0 {
            Vec3i { x: self.y, y: self.z, z: self.w }
        } else if j == 1 {
            Vec3i { x: self.x, y: self.z, z: self.w }
        } else if j == 2 {
            Vec3i { x: self.x, y: self.y, z: self.w }
        } else {
            Vec3i { x: self.x, y: self.y, z: self.z }
        }
    }
}

/// The model of a 3-by-3 matrix: three integer row vectors.
pub struct Mat3i {
    pub r0: Vec3i,
    pub r1: Vec3i,
    pub r2: Vec3i,
}

impl Mat3i {
    pub open spec fn zero() -> Mat3i {
        Mat3i { r0: Vec3i::zero(), r1: Vec3i::zero(), r2: Vec3i::zero() }
    }

    pub open spec fn ones() -> Mat3i {
        Mat3i { r0: Vec3i::ones(), r1: Vec3i::ones(), r2: Vec3i::ones() }
    }

    pub open spec fn identity() -> Mat3i {
        Mat3i {
            r0: Vec3i { x: 1, y: 0, z: 0 },
            r1: Vec3i { x: 0, y: 1, z: 0 },
            r2: Vec3i { x: 0, y: 0, z: 1 },
        }
    }

    pub open spec fn row(self, i: int) -> Vec3i {
        if i == 0 {
            self.r0
        } else if i == 1 {
            self.r1
        } else {
            self.r2
        }
    }

    pub open spec fn col(self, j: int) -> Vec3i {
        Vec3i { x: self.r0.index(j), y: self.r1.index(j), z: self.r2.index(j) }
    }

    pub open spec fn entry(self, i: int, j: int) -> int {
        self.row(i).index(j)
    }

    pub open spec fn add(self, o: Mat3i) -> Mat3i {
        Mat3i { r0: self.r0.add(o.r0), r1: self.r1.add(o.r1), r2: self.r2.add(o.r2) }
    }

    pub open spec fn sub(self, o: Mat3i) -> Mat3i {
        Mat3i { r0: self.r0.sub(o.r0), r1: self.r1.sub(o.r1), r2: self.r2.sub(o.r2) }
    }

    pub open spec fn neg(self) -> Mat3i {
        Mat3i { r0: self.r0.neg(), r1: self.r1.neg(), r2: self.r2.neg() }
    }

    pub open spec fn scale(self, k: int) -> Mat3i {
        Mat3i { r0: self.r0.scale(k), r1: self.r1.scale(k), r2: self.r2.scale(k) }
    }

    pub open spec fn div_trunc(self, k: int) -> Mat3i {
        Mat3i { r0: self.r0.div_trunc(k), r1: self.r1.div_trunc(k), r2: self.r2.div_trunc(k) }
    }

    /// Row-by-column matrix product.
    pub open spec fn matmul(self, o: Mat3i) -> Mat3i {
        Mat3i {
            r0: Vec3i { x: self.r0.dot(o.col(0)), y: self.r0.dot(o.col(1)), z: self.r0.dot(o.col(2)) },
            r1: Vec3i { x: self.r1.dot(o.col(0)), y: self.r1.dot(o.col(1)), z: self.r1.dot(o.col(2)) },
            r2: Vec3i { x: self.r2.dot(o.col(0)), y: self.r2.dot(o.col(1)), z: self.r2.dot(o.col(2)) },
        }
    }

    /// The matrix applied to a column vector on its right.
    pub open spec fn mul_vec(self, v: Vec3i) -> Vec3i {
        Vec3i { x: self.r0.dot(v), y: self.r1.dot(v), z: self.r2.dot(v) }
    }

    /// A row vector applied to the matrix on its left.
    pub open spec fn vec_mul(self, v: Vec3i) -> Vec3i {
        Vec3i { x: v.dot(self.col(0)), y: v.dot(self.col(1)), z: v.dot(self.col(2)) }
    }

    pub open spec fn transpose(self) -> Mat3i {
        Mat3i { r0: self.col(0), r1: self.col(1), r2: self.col(2) }
    }

    /// The cofactor expansion of the determinant along the first row.
    pub open spec fn det(self) -> int {
        self.r0.x * (self.r1.y * self.r2.z - self.r1.z * self.r2.y) - self.r0.y * (
        self.r1.x * self.r2.z - self.r1.z * self.r2.x) + self.r0.z * (
        self.r1.x * self.r2.y - self.r1.y * self.r2.x)
    }

    /// The rows of the adjugate (transposed cofactor) matrix, obtained as
    /// pairwise cross products of the columns.
    pub open spec fn adjugate_row(self, i: int) -> Vec3i {
        if i == 0 {
            self.col(1).cross(self.col(2))
        } else if i == 1 {
            self.col(2).cross(self.col(0))
        } else {
            self.col(0).cross(self.col(1))
        }
    }

    /// The adjugate (transposed cofactor) matrix, assembled from the
    /// pairwise cross products of the columns.
    pub open spec fn adjugate(self) -> Mat3i {
        Mat3i { r0: self.adjugate_row(0), r1: self.adjugate_row(1), r2: self.adjugate_row(2) }
    }

    /// The inverse as the adjugate method computes it: each adjugate row is
    /// scaled by the reciprocal of the determinant, which is itself
    /// truncated to the scalar type (so it is `±1` or `0`).
    pub open spec fn inverse(self) -> Option<Mat3i> {
        if self.det() == 0 {
            None
        } else {
            Some(
                Mat3i {
                    r0: self.adjugate_row(0).scale(trunc_div(1, self.det())),
                    r1: self.adjugate_row(1).scale(trunc_div(1, self.det())),
                    r2: self.adjugate_row(2).scale(trunc_div(1, self.det())),
                },
            )
        }
    }
}

/// The model of a 4-by-4 matrix: four integer row vectors.
pub struct Mat4i {
    pub r0: Vec4i,
    pub r1: Vec4i,
    pub r2: Vec4i,
    pub r3: Vec4i,
}

impl Mat4i {
    pub open spec fn zero() -> Mat4i {
        Mat4i { r0: Vec4i::zero(), r1: Vec4i::zero(), r2: Vec4i::zero(), r3: Vec4i::zero() }
    }

    pub open spec fn ones() -> Mat4i {
        Mat4i { r0: Vec4i::ones(), r1: Vec4i::ones(), r2: Vec4i::ones(), r3: Vec4i::ones() }
    }

    pub open spec fn identity() -> Mat4i {
        Mat4i {
            r0: Vec4i { x: 1, y: 0, z: 0, w: 0 },
            r1: Vec4i { x: 0, y: 1, z: 0, w: 0 },
            r2: Vec4i { x: 0, y: 0, z: 1, w: 0 },
            r3: Vec4i { x: 0, y: 0, z: 0, w: 1 },
        }
    }

    pub open spec fn row(self, i: int) -> Vec4i {
        if i == 0 {
            self.r0
        } else if i == 1 {
            self.r1
        } else if i == 2 {
            self.r2
        } else {
            self.r3
        }
    }

    pub open spec fn col(self, j: int) -> Vec4i {
        Vec4i { x: self.r0.index(j), y: self.r1.index(j), z: self.r2.index(j), w: self.r3.index(j) }
    }

    pub open spec fn entry(self, i: int, j: int) -> int {
        self.row(i).index(j)
    }

    pub open spec fn add(self, o: Mat4i) -> Mat4i {
        Mat4i {
            r0: self.r0.add(o.r0),
            r1: self.r1.add(o.r1),
            r2: self.r2.add(o.r2),
            r3: self.r3.add(o.r3),
        }
    }

    pub open spec fn sub(self, o: Mat4i) -> Mat4i {
        Mat4i {
            r0: self.r0.sub(o.r0),
            r1: self.r1.sub(o.r1),
            r2: self.r2.sub(o.r2),
            r3: self.r3.sub(o.r3),
        }
    }

    pub open spec fn scale(self, k: int) -> Mat4i {
        Mat4i {
            r0: self.r0.scale(k),
            r1: self.r1.scale(k),
            r2: self.r2.scale(k),
            r3: self.r3.scale(k),
        }
    }

    /// Row-by-column matrix product.
    pub open spec fn matmul(self, o: Mat4i) -> Mat4i {
        Mat4i {
            r0: Vec4i {
                x: self.r0.dot(o.col(0)),
                y: self.r0.dot(o.col(1)),
                z: self.r0.dot(o.col(2)),
                w: self.r0.dot(o.col(3)),
            },
            r1: Vec4i {
                x: self.r1.dot(o.col(0)),
                y: self.r1.dot(o.col(1)),
                z: self.r1.dot(o.col(2)),
                w: self.r1.dot(o.col(3)),
            },
            r2: Vec4i {
                x: self.r2.dot(o.col(0)),
                y: self.r2.dot(o.col(1)),
                z: self.r2.dot(o.col(2)),
                w: self.r2.dot(o.col(3)),
            },
            r3: Vec4i {
                x: self.r3.dot(o.col(0)),
                y: self.r3.dot(o.col(1)),
                z: self.r3.dot(o.col(2)),
                w: self.r3.dot(o.col(3)),
            },
        }
    }

    /// The matrix applied to a column vector on its right.
    pub open spec fn mul_vec(self, v: Vec4i) -> Vec4i {
        Vec4i { x: self.r0.dot(v), y: self.r1.dot(v), z: self.r2.dot(v), w: self.r3.dot(v) }
    }

    /// A row vector applied to the matrix on its left.
    pub open spec fn vec_mul(self, v: Vec4i) -> Vec4i {
        Vec4i { x: v.dot(self.col(0)), y: v.dot(self.col(1)), z: v.dot(self.col(2)), w: v.dot(self.col(3)) }
    }

    pub open spec fn transpose(self) -> Mat4i {
        Mat4i { r0: self.col(0), r1: self.col(1), r2: self.col(2), r3: self.col(3) }
    }

    /// The 3-by-3 matrix that remains when the first row and column `j` are
    /// removed.
    pub open spec fn minor(self, j: int) -> Mat3i {
        Mat3i { r0: self.r1.without(j), r1: self.r2.without(j), r2: self.r3.without(j) }
    }

    /// The cofactor expansion of the determinant along the first row, each
    /// 3-by-3 minor computed by its own first-row expansion.
    pub open spec fn det(self) -> int {
        self.r0.x * self.minor(0).det() - self.r0.y * self.minor(1).det() + self.r0.z
            * self.minor(2).det() - self.r0.w * self.minor(3).det()
    }

    /// The top three entries of column `j`, used by the block inversion
    /// method as a working 3-vector.
    pub open spec fn col3(self, j: int) -> Vec3i {
        Vec3i { x: self.r0.index(j), y: self.r1.index(j), z: self.r2.index(j) }
    }

    /// First intermediate of the block inversion: the cross product of the
    /// leading 3-vectors of columns 0 and 1.
    pub open spec fn blk_s(self) -> Vec3i {
        self.col3(0).cross(self.col3(1))
    }

    /// Second intermediate: the cross product of the leading 3-vectors of
    /// columns 2 and 3.
    pub open spec fn blk_t(self) -> Vec3i {
        self.col3(2).cross(self.col3(3))
    }

    /// Third intermediate: columns 0 and 1 weighted by the last-row scalars.
    pub open spec fn blk_u(self) -> Vec3i {
        self.col3(0).scale(self.r3.y).sub(self.col3(1).scale(self.r3.x))
    }

    /// Fourth intermediate: columns 2 and 3 weighted by the last-row scalars.
    pub open spec fn blk_v(self) -> Vec3i {
        self.col3(2).scale(self.r3.w).sub(self.col3(3).scale(self.r3.z))
    }

    /// The determinant as the block method computes it.
    pub open spec fn blk_det(self) -> int {
        self.blk_s().dot(self.blk_v()) + self.blk_t().dot(self.blk_u())
    }

    /// The block method's rows before scaling: the adjugate of the matrix,
    /// assembled from the four intermediates.
    pub open spec fn blk_adjugate(self) -> Mat4i {
        Mat4i {
            r0: Vec4i::from_vec3(
                self.col3(1).cross(self.blk_v()).add(self.blk_t().scale(self.r3.y)),
                -self.col3(1).dot(self.blk_t()),
            ),
            r1: Vec4i::from_vec3(
                self.blk_v().cross(self.col3(0)).sub(self.blk_t().scale(self.r3.x)),
                self.col3(0).dot(self.blk_t()),
            ),
            r2: Vec4i::from_vec3(
                self.col3(3).cross(self.blk_u()).add(self.blk_s().scale(self.r3.w)),
                -self.col3(3).dot(self.blk_s()),
            ),
            r3: Vec4i::from_vec3(
                self.blk_u().cross(self.col3(2)).sub(self.blk_s().scale(self.r3.z)),
                self.col3(2).dot(self.blk_s()),
            ),
        }
    }

    /// The inverse as the block method computes it: the four intermediates
    /// are scaled by the truncated reciprocal of the determinant and
    /// recombined into the four rows.
    pub open spec fn inverse(self) -> Option<Mat4i> {
        if self.blk_det() == 0 {
            None
        } else {
            let d = trunc_div(1, self.blk_det());
            let s = self.blk_s().scale(d);
            let t = self.blk_t().scale(d);
            let u = self.blk_u().scale(d);
            let v = self.blk_v().scale(d);
            Some(
                Mat4i {
                    r0: Vec4i::from_vec3(
                        self.col3(1).cross(v).add(t.scale(self.r3.y)),
                        -self.col3(1).dot(t),
                    ),
                    r1: Vec4i::from_vec3(
                        v.cross(self.col3(0)).sub(t.scale(self.r3.x)),
                        self.col3(0).dot(t),
                    ),
                    r2: Vec4i::from_vec3(
                        self.col3(3).cross(u).add(s.scale(self.r3.w)),
                        -self.col3(3).dot(s),
                    ),
                    r3: Vec4i::from_vec3(
                        u.cross(self.col3(2)).sub(s.scale(self.r3.z)),
                        self.col3(2).dot(s),
                    ),
                },
            )
        }
    }
}

/// Every square of an integer is non-negative.
pub proof fn lemma_square_nonneg(a: int)
    by (nonlinear_arith)
    ensures
        0 <= a * a,
{
}

/// Distributing a factor over a two-term difference of products.
pub proof fn lemma_mul_diff2(k: int, a: int, b: int, c: int, d: int)
    by (nonlinear_arith)
    ensures
        k * (a * b - c * d) == (k * a) * b - (k * c) * d,
{
}

/// Distributing a factor over a six-term signed sum.
pub proof fn lemma_distribute6(k: int, x1: int, x2: int, x3: int, x4: int, x5: int, x6: int)
    by (nonlinear_arith)
    ensures
        k * (x1 - x2 - x3 + x4 + x5 - x6) == k * x1 - k * x2 - k * x3 + k * x4 + k * x5 - k * x6,
{
}

/// Distributing a factor over a six-term sum.
pub proof fn lemma_distribute6_plus(k: int, x1: int, x2: int, x3: int, x4: int, x5: int, x6: int)
    by (nonlinear_arith)
    ensures
        k * (x1 + x2 + x3 + x4 + x5 + x6) == k * x1 + k * x2 + k * x3 + k * x4 + k * x5 + k * x6,
{
}

/// Reassociating a factor into a left-nested triple product.
pub proof fn lemma_mul3_assoc(k: int, p: int, q: int, r: int)
    by (nonlinear_arith)
    ensures
        k * ((p * q) * r) == ((k * p) * q) * r,
{
}

/// Multiplying out a product of two differences.
pub proof fn lemma_bin_mul(a: int, b: int, c: int, d: int)
    by (nonlinear_arith)
    ensures
        (a - b) * (c - d) == (a * c - a * d) - (b * c - b * d),
{
}

/// The first-row cofactor expansion of a 3-by-3 determinant, written out as
/// six signed triple products.
pub proof fn lemma_det3_canonical(m: Mat3i)
    ensures
        m.det() == ((m.r0.x * m.r1.y) * m.r2.z) - ((m.r0.x * m.r1.z) * m.r2.y) - ((m.r0.y
            * m.r1.x) * m.r2.z) + ((m.r0.y * m.r1.z) * m.r2.x) + ((m.r0.z * m.r1.x) * m.r2.y) - ((
        m.r0.z * m.r1.y) * m.r2.x),
{
    lemma_mul_diff2(m.r0.x, m.r1.y, m.r2.z, m.r1.z, m.r2.y);
    lemma_mul_diff2(m.r0.y, m.r1.x, m.r2.z, m.r1.z, m.r2.x);
    lemma_mul_diff2(m.r0.z, m.r1.x, m.r2.y, m.r1.y, m.r2.x);
}

/// Multiplying by a unit or by zero is negation, identity or annihilation.
pub proof fn lemma_mul_unit(c: int, q: int)
    by (nonlinear_arith)
    requires
        q == 1 || q == -1 || q == 0,
    ensures
        c * q == if q == 1 {
            c
        } else if q == -1 {
            -c
        } else {
            0int
        },
{
}

/// The truncated reciprocal of a non-zero integer is its sign when the
/// integer is a unit, and zero otherwise.
pub proof fn lemma_trunc_recip(d: int)
    by (nonlinear_arith)
    requires
        d != 0,
    ensures
        trunc_div(1, d) == if d == 1 {
            1int
        } else if d == -1 {
            -1int
        } else {
            0int
        },
{
}

} // verus!
