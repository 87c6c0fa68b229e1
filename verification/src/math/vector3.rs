//! A three-component vector over any `Number` scalar, with the cross
//! product the matrix routines build on.

use vstd::prelude::*;
use core::ops::Neg;
use crate::math::model::Vec3i;
use crate::math::number::abs_int;
use crate::math::number::div_ok;
use crate::math::number::in_range;
use crate::math::number::Number;
use crate::math::number::SignedNumber;

verus! {

/// Whether every component of a model vector fits in the scalar type `T`.
pub open spec fn vec3_in_range<T: Number>(v: Vec3i) -> bool {
    in_range::<T>(v.x) && in_range::<T>(v.y) && in_range::<T>(v.z)
}

/// Whether every intermediate of a dot product of `a` and `b` fits in `T`.
pub open spec fn vec3_dot_fits<T: Number>(a: Vec3i, b: Vec3i) -> bool {
    &&& in_range::<T>(a.x * b.x)
    &&& in_range::<T>(a.y * b.y)
    &&& in_range::<T>(a.z * b.z)
    &&& in_range::<T>(a.x * b.x + a.y * b.y)
    &&& in_range::<T>(a.dot(b))
}

/// Whether every intermediate of the squared norm of `v` fits in `T`.
pub open spec fn vec3_norm_sq_fits<T: Number>(v: Vec3i) -> bool {
    vec3_dot_fits::<T>(v, v)
}

/// Whether every intermediate of the cross product of `a` and `b` fits in
/// `T`.
pub open spec fn vec3_cross_fits<T: Number>(a: Vec3i, b: Vec3i) -> bool {
    &&& in_range::<T>(a.y * b.z)
    &&& in_range::<T>(a.z * b.y)
    &&& in_range::<T>(a.y * b.z - a.z * b.y)
    &&& in_range::<T>(a.z * b.x)
    &&& in_range::<T>(a.x * b.z)
    &&& in_range::<T>(a.z * b.x - a.x * b.z)
    &&& in_range::<T>(a.x * b.y)
    &&& in_range::<T>(a.y * b.x)
    &&& in_range::<T>(a.x * b.y - a.y * b.x)
}

/// Whether every intermediate of the taxicab distance of `a` and `b` fits
/// in `T`.
pub open spec fn vec3_taxicab_fits<T: Number>(a: Vec3i, b: Vec3i) -> bool {
    &&& in_range::<T>(a.x - b.x)
    &&& in_range::<T>(a.y - b.y)
    &&& in_range::<T>(a.z - b.z)
    &&& abs_int(a.x - b.x) <= T::max_val()
    &&& abs_int(a.y - b.y) <= T::max_val()
    &&& abs_int(a.z - b.z) <= T::max_val()
    &&& in_range::<T>(abs_int(a.x - b.x) + abs_int(a.y - b.y))
    &&& in_range::<T>(a.taxicab(b))
}

/// Whether dividing every component of `v` by the scalar `k` is defined
/// and free of overflow in `T`.
pub open spec fn vec3_div_ok<T: Number>(v: Vec3i, k: int) -> bool {
    div_ok::<T>(v.x, k) && div_ok::<T>(v.y, k) && div_ok::<T>(v.z, k)
}

/// The view determines the vector: two vectors with equal mathematical
/// views are the same value. With the constructors' contracts this gives
/// the round trip: a vector rebuilt from its own components is the vector
/// itself.
pub proof fn lemma_vector3_view_injective<T: Number>(a: Vector3<T>, b: Vector3<T>)
    requires
        a@ == b@,
    ensures
        a == b,
{
    T::props();
}

/// Scaling a vector by a unit or by zero stays within the scalar type, as
/// long as the negation does where the factor is minus one.
pub proof fn lemma_scale_unit_in_range<T: Number>(v: Vec3i, q: int)
    requires
        q == 1 || q == -1 || q == 0,
        vec3_in_range::<T>(v),
        q == -1 ==> vec3_in_range::<T>(v.neg()),
    ensures
        vec3_in_range::<T>(v.scale(q)),
{
    T::props();
    crate::math::model::lemma_mul_unit(v.x, q);
    crate::math::model::lemma_mul_unit(v.y, q);
    crate::math::model::lemma_mul_unit(v.z, q);
}

/// An ordered triple of scalars.
#[derive(Debug, Clone, Copy, PartialEq, PartialOrd)]
pub struct Vector3<T: Number> {
    pub x: T,
    pub y: T,
    pub z: T,
}

impl<T: Number> View for Vector3<T> {
    type V = Vec3i;

    open spec fn view(&self) -> Vec3i {
        Vec3i { x: self.x.as_int(), y: self.y.as_int(), z: self.z.as_int() }
    }
}

impl<T: Number> vstd::std_specs::ops::AddSpecImpl for Vector3<T> {
    // The exact contract is the `ensures` of the `Add` impl below; nothing
    // is claimed through `add_spec`.
    open spec fn obeys_add_spec() -> bool {
        false
    }

    open spec fn add_req(self, rhs: Vector3<T>) -> bool {
        vec3_in_range::<T>(self@.add(rhs@))
    }

    open spec fn add_spec(self, rhs: Vector3<T>) -> Self::Output {
        self
    }
}

impl<T: Number> core::ops::Add for Vector3<T> {
    type Output = Vector3<T>;

    /// Componentwise vector addition.
    fn add(self, rhs: Vector3<T>) -> (r: Vector3<T>)
        ensures
            r@ == self@.add(rhs@),
    {
        proof {
            T::props();
        }
        Vector3 { x: self.x + rhs.x, y: self.y + rhs.y, z: self.z + rhs.z }
    }
}

impl<T: Number> vstd::std_specs::ops::SubSpecImpl for Vector3<T> {
    // The exact contract is the `ensures` of the `Sub` impl below.
    open spec fn obeys_sub_spec() -> bool {
        false
    }

    open spec fn sub_req(self, rhs: Vector3<T>) -> bool {
        vec3_in_range::<T>(self@.sub(rhs@))
    }

    open spec fn sub_spec(self, rhs: Vector3<T>) -> Self::Output {
        self
    }
}

impl<T: Number> core::ops::Sub for Vector3<T> {
    type Output = Vector3<T>;

    /// Componentwise vector subtraction.
    fn sub(self, rhs: Vector3<T>) -> (r: Vector3<T>)
        ensures
            r@ == self@.sub(rhs@),
    {
        proof {
            T::props();
        }
        Vector3 { x: self.x - rhs.x, y: self.y - rhs.y, z: self.z - rhs.z }
    }
}

impl<T: SignedNumber> vstd::std_specs::ops::NegSpecImpl for Vector3<T> {
    // The exact contract is the `ensures` of the `Neg` impl below.
    open spec fn obeys_neg_spec() -> bool {
        false
    }

    open spec fn neg_req(self) -> bool {
        vec3_in_range::<T>(self@.neg())
    }

    open spec fn neg_spec(self) -> Self::Output {
        self
    }
}

impl<T: SignedNumber> core::ops::Neg for Vector3<T> {
    type Output = Vector3<T>;

    /// Componentwise negation.
    fn neg(self) -> (r: Vector3<T>)
        ensures
            r@ == self@.neg(),
    {
        proof {
            T::props();
            T::neg_props();
        }
        Vector3 { x: self.x.neg(), y: self.y.neg(), z: self.z.neg() }
    }
}

impl<T: Number> vstd::std_specs::ops::MulSpecImpl<T> for Vector3<T> {
    // The exact contract is the `ensures` of the `Mul` impl below.
    open spec fn obeys_mul_spec() -> bool {
        false
    }

    open spec fn mul_req(self, rhs: T) -> bool {
        vec3_in_range::<T>(self@.scale(rhs.as_int()))
    }

    open spec fn mul_spec(self, rhs: T) -> Self::Output {
        self
    }
}

impl<T: Number> core::ops::Mul<T> for Vector3<T> {
    type Output = Vector3<T>;

    /// Multiplication of every component by a scalar.
    fn mul(self, rhs: T) -> (r: Vector3<T>)
        ensures
            r@ == self@.scale(rhs.as_int()),
    {
        proof {
            T::props();
        }
        Vector3 { x: self.x * rhs, y: self.y * rhs, z: self.z * rhs }
    }
}

impl<T: Number> vstd::std_specs::ops::DivSpecImpl<T> for Vector3<T> {
    // The exact contract is the `ensures` of the `Div` impl below.
    open spec fn obeys_div_spec() -> bool {
        false
    }

    open spec fn div_req(self, rhs: T) -> bool {
        vec3_div_ok::<T>(self@, rhs.as_int())
    }

    open spec fn div_spec(self, rhs: T) -> Self::Output {
        self
    }
}

impl<T: Number> core::ops::Div<T> for Vector3<T> {
    type Output = Vector3<T>;

    /// Division of every component by a scalar, rounding toward zero.
    fn div(self, rhs: T) -> (r: Vector3<T>)
        ensures
            r@ == self@.div_trunc(rhs.as_int()),
    {
        proof {
            T::props();
        }
        Vector3 { x: self.x / rhs, y: self.y / rhs, z: self.z / rhs }
    }
}

impl<T: Number> Default for Vector3<T> {
    /// The default vector is the zero vector.
    fn default() -> (r: Vector3<T>)
        ensures
            r@ == Vec3i::zero(),
    {
        Vector3::zero()
    }
}

impl<T: Number> Vector3<T> {
    /// Creates a new `Vector3` with the given x, y, and z components.
    pub fn new(x: T, y: T, z: T) -> (r: Self)
        ensures
            r@ == (Vec3i { x: x.as_int(), y: y.as_int(), z: z.as_int() }),
    {
        Self { x, y, z }
    }

    /// Returns a zero vector.
    pub fn zero() -> (r: Self)
        ensures
            r@ == Vec3i::zero(),
    {
        Self { x: T::zero(), y: T::zero(), z: T::zero() }
    }

    /// Returns a vector with all components set to one.
    pub fn one() -> (r: Self)
        ensures
            r@ == Vec3i::ones(),
    {
        Self { x: T::one(), y: T::one(), z: T::one() }
    }

    /// Returns the component at the given position, x first.
    pub fn index(&self, i: usize) -> (r: T)
        requires
            i < 3,
        ensures
            r.as_int() == self@.index(i as int),
    {
        if i == 0 {
            self.x
        } else if i == 1 {
            self.y
        } else {
            self.z
        }
    }

    /// Replaces the component at the given position, x first.
    pub fn set_index(&mut self, i: usize, v: T)
        requires
            i < 3,
        ensures
            final(self)@ == old(self)@.updated(i as int, v.as_int()),
    {
        if i == 0 {
            self.x = v;
        } else if i == 1 {
            self.y = v;
        } else {
            self.z = v;
        }
    }

    /// Returns the squared norm of the vector.
    /// This is useful for avoiding the square root operation when comparing distances.
    pub fn norm_squared(&self) -> (r: T)
        requires
            vec3_norm_sq_fits::<T>(self@),
        ensures
            r.as_int() == self@.norm_sq(),
    {
        proof {
            T::props();
        }
        let x = self.x;
        let y = self.y;
        let z = self.z;
        x * x + y * y + z * z
    }

    /// Returns the dot product of this vector with another vector.
    pub fn dot(&self, other: &Self) -> (r: T)
        requires
            vec3_dot_fits::<T>(self@, other@),
        ensures
            r.as_int() == self@.dot(other@),
    {
        proof {
            T::props();
        }
        self.x * other.x + self.y * other.y + self.z * other.z
    }

    /// Returns the cross product of this vector with another vector, by the
    /// standard determinant expansion.
    pub fn cross(&self, other: &Self) -> (r: Self)
        requires
            vec3_cross_fits::<T>(self@, other@),
        ensures
            r@ == self@.cross(other@),
    {
        proof {
            T::props();
        }
        Self {
            x: self.y * other.z - self.z * other.y,
            y: self.z * other.x - self.x * other.z,
            z: self.x * other.y - self.y * other.x,
        }
    }

    /// Returns the taxicab distance (Manhattan distance) to another vector.
    pub fn taxicab_distance(&self, other: &Self) -> (r: T)
        requires
            vec3_taxicab_fits::<T>(self@, other@),
        ensures
            r.as_int() == self@.taxicab(other@),
    {
        proof {
            T::props();
        }
        T::abs(self.x - other.x) + T::abs(self.y - other.y) + T::abs(self.z - other.z)
    }

    /// Returns a normalized version of the vector: every component is
    /// divided by the vector's length and truncated back to the scalar
    /// type, so a component whose square is less than the squared norm
    /// becomes zero. If the vector is zero, it returns the vector itself.
    pub fn normalize(&self) -> (r: Self)
        requires
            vec3_norm_sq_fits::<T>(self@),
        ensures
            r@ == self@.normalized(),
    {
        proof {
            T::props();
            crate::math::model::lemma_square_nonneg(self@.x);
            crate::math::model::lemma_square_nonneg(self@.y);
            crate::math::model::lemma_square_nonneg(self@.z);
        }
        let x = self.x;
        let y = self.y;
        let z = self.z;
        let ns = x * x + y * y + z * z;
        let zero = T::zero();
        if ns == zero {
            return *self;
        }
        let one = T::one();
        let rx = if x * x == ns {
            if x < zero {
                zero - one
            } else {
                one
            }
        } else {
            zero
        };
        let ry = if y * y == ns {
            if y < zero {
                zero - one
            } else {
                one
            }
        } else {
            zero
        };
        let rz = if z * z == ns {
            if z < zero {
                zero - one
            } else {
                one
            }
        } else {
            zero
        };
        Self { x: rx, y: ry, z: rz }
    }

    /// In-place componentwise addition.
    pub fn add_assign(&mut self, rhs: Vector3<T>)
        requires
            vec3_in_range::<T>(old(self)@.add(rhs@)),
        ensures
            final(self)@ == old(self)@.add(rhs@),
    {
        proof {
            T::props();
        }
        self.x = self.x + rhs.x;
        self.y = self.y + rhs.y;
        self.z = self.z + rhs.z;
    }

    /// In-place componentwise subtraction.
    pub fn sub_assign(&mut self, rhs: Vector3<T>)
        requires
            vec3_in_range::<T>(old(self)@.sub(rhs@)),
        ensures
            final(self)@ == old(self)@.sub(rhs@),
    {
        proof {
            T::props();
        }
        self.x = self.x - rhs.x;
        self.y = self.y - rhs.y;
        self.z = self.z - rhs.z;
    }

    /// In-place multiplication of every component by a scalar.
    pub fn mul_assign(&mut self, rhs: T)
        requires
            vec3_in_range::<T>(old(self)@.scale(rhs.as_int())),
        ensures
            final(self)@ == old(self)@.scale(rhs.as_int()),
    {
        proof {
            T::props();
        }
        self.x = self.x * rhs;
        self.y = self.y * rhs;
        self.z = self.z * rhs;
    }

    /// In-place division of every component by a scalar, rounding toward
    /// zero.
    pub fn div_assign(&mut self, rhs: T)
        requires
            vec3_div_ok::<T>(old(self)@, rhs.as_int()),
        ensures
            final(self)@ == old(self)@.div_trunc(rhs.as_int()),
    {
        proof {
            T::props();
        }
        self.x = self.x / rhs;
        self.y = self.y / rhs;
        self.z = self.z / rhs;
    }
}

} // verus!
