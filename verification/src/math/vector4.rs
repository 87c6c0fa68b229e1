//! A four-component vector over any `Number` scalar, used both as a
//! free-standing value and as the homogeneous extension of a `Vector3`.

use vstd::prelude::*;
use core::ops::Neg;
use crate::math::model::Vec4i;
use crate::math::number::div_ok;
use crate::math::number::in_range;
use crate::math::number::Number;
use crate::math::number::SignedNumber;
use crate::math::vector3::Vector3;

verus! {

/// Whether every component of a model vector fits in the scalar type `T`.
pub open spec fn vec4_in_range<T: Number>(v: Vec4i) -> bool {
    in_range::<T>(v.x) && in_range::<T>(v.y) && in_range::<T>(v.z) && in_range::<T>(v.w)
}

/// Whether every intermediate of a dot product of `a` and `b` fits in `T`.
pub open spec fn vec4_dot_fits<T: Number>(a: Vec4i, b: Vec4i) -> bool {
    &&& in_range::<T>(a.x * b.x)
    &&& in_range::<T>(a.y * b.y)
    &&& in_range::<T>(a.z * b.z)
    &&& in_range::<T>(a.w * b.w)
    &&& in_range::<T>(a.x * b.x + a.y * b.y)
    &&& in_range::<T>(a.x * b.x + a.y * b.y + a.z * b.z)
    &&& in_range::<T>(a.dot(b))
}

/// Whether dividing every component of `v` by the scalar `k` is defined
/// and free of overflow in `T`.
pub open spec fn vec4_div_ok<T: Number>(v: Vec4i, k: int) -> bool {
    div_ok::<T>(v.x, k) && div_ok::<T>(v.y, k) && div_ok::<T>(v.z, k) && div_ok::<T>(v.w, k)
}

/// The view determines the vector: two vectors with equal mathematical
/// views are the same value. With `from_array` and `to_array` this gives
/// the round trip: a vector rebuilt from its own array is the vector
/// itself.
pub proof fn lemma_vector4_view_injective<T: Number>(a: Vector4<T>, b: Vector4<T>)
    requires
        a@ == b@,
    ensures
        a == b,
{
    T::props();
}

/// An ordered quadruple of scalars.
#[derive(Debug, Clone, Copy, PartialEq, PartialOrd)]
pub struct Vector4<T: Number> {
    pub x: T,
    pub y: T,
    pub z: T,
    pub w: T,
}

impl<T: Number> View for Vector4<T> {
    type V = Vec4i;

    open spec fn view(&self) -> Vec4i {
        Vec4i { x: self.x.as_int(), y: self.y.as_int(), z: self.z.as_int(), w: self.w.as_int() }
    }
}

impl<T: Number> vstd::std_specs::ops::AddSpecImpl for Vector4<T> {
    // The exact contract is the `ensures` of the `Add` impl below; nothing
    // is claimed through `add_spec`.
    open spec fn obeys_add_spec() -> bool {
        false
    }

    open spec fn add_req(self, rhs: Vector4<T>) -> bool {
        vec4_in_range::<T>(self@.add(rhs@))
    }

    open spec fn add_spec(self, rhs: Vector4<T>) -> Self::Output {
        self
    }
}

impl<T: Number> core::ops::Add for Vector4<T> {
    type Output = Vector4<T>;

    /// Componentwise vector addition.
    fn add(self, rhs: Vector4<T>) -> (r: Vector4<T>)
        ensures
            r@ == self@.add(rhs@),
    {
        proof {
            T::props();
        }
        Vector4 { x: self.x + rhs.x, y: self.y + rhs.y, z: self.z + rhs.z, w: self.w + rhs.w }
    }
}

impl<T: Number> vstd::std_specs::ops::SubSpecImpl for Vector4<T> {
    // The exact contract is the `ensures` of the `Sub` impl below.
    open spec fn obeys_sub_spec() -> bool {
        false
    }

    open spec fn sub_req(self, rhs: Vector4<T>) -> bool {
        vec4_in_range::<T>(self@.sub(rhs@))
    }

    open spec fn sub_spec(self, rhs: Vector4<T>) -> Self::Output {
        self
    }
}

impl<T: Number> core::ops::Sub for Vector4<T> {
    type Output = Vector4<T>;

    /// Componentwise vector subtraction.
    fn sub(self, rhs: Vector4<T>) -> (r: Vector4<T>)
        ensures
            r@ == self@.sub(rhs@),
    {
        proof {
            T::props();
        }
        Vector4 { x: self.x - rhs.x, y: self.y - rhs.y, z: self.z - rhs.z, w: self.w - rhs.w }
    }
}

impl<T: SignedNumber> vstd::std_specs::ops::NegSpecImpl for Vector4<T> {
    // The exact contract is the `ensures` of the `Neg` impl below.
    open spec fn obeys_neg_spec() -> bool {
        false
    }

    open spec fn neg_req(self) -> bool {
        vec4_in_range::<T>(self@.neg())
    }

    open spec fn neg_spec(self) -> Self::Output {
        self
    }
}

impl<T: SignedNumber> core::ops::Neg for Vector4<T> {
    type Output = Vector4<T>;

    /// Componentwise negation.
    fn neg(self) -> (r: Vector4<T>)
        ensures
            r@ == self@.neg(),
    {
        proof {
            T::props();
            T::neg_props();
        }
        Vector4 { x: self.x.neg(), y: self.y.neg(), z: self.z.neg(), w: self.w.neg() }
    }
}

impl<T: Number> vstd::std_specs::ops::MulSpecImpl<T> for Vector4<T> {
    // The exact contract is the `ensures` of the `Mul` impl below.
    open spec fn obeys_mul_spec() -> bool {
        false
    }

    open spec fn mul_req(self, rhs: T) -> bool {
        vec4_in_range::<T>(self@.scale(rhs.as_int()))
    }

    open spec fn mul_spec(self, rhs: T) -> Self::Output {
        self
    }
}

impl<T: Number> core::ops::Mul<T> for Vector4<T> {
    type Output = Vector4<T>;

    /// Multiplication of every component by a scalar.
    fn mul(self, rhs: T) -> (r: Vector4<T>)
        ensures
            r@ == self@.scale(rhs.as_int()),
    {
        proof {
            T::props();
        }
        Vector4 { x: self.x * rhs, y: self.y * rhs, z: self.z * rhs, w: self.w * rhs }
    }
}

impl<T: Number> vstd::std_specs::ops::DivSpecImpl<T> for Vector4<T> {
    // The exact contract is the `ensures` of the `Div` impl below.
    open spec fn obeys_div_spec() -> bool {
        false
    }

    open spec fn div_req(self, rhs: T) -> bool {
        vec4_div_ok::<T>(self@, rhs.as_int())
    }

    open spec fn div_spec(self, rhs: T) -> Self::Output {
        self
    }
}

impl<T: Number> core::ops::Div<T> for Vector4<T> {
    type Output = Vector4<T>;

    /// Division of every component by a scalar, rounding toward zero.
    fn div(self, rhs: T) -> (r: Vector4<T>)
        ensures
            r@ == self@.div_trunc(rhs.as_int()),
    {
        proof {
            T::props();
        }
        Vector4 { x: self.x / rhs, y: self.y / rhs, z: self.z / rhs, w: self.w / rhs }
    }
}

impl<T: Number> Default for Vector4<T> {
    /// The default vector is the zero vector.
    fn default() -> (r: Vector4<T>)
        ensures
            r@ == Vec4i::zero(),
    {
        Vector4::zero()
    }
}

impl<T: Number> Vector4<T> {
    /// Creates a new vector with the specified components.
    pub fn new(x: T, y: T, z: T, w: T) -> (r: Self)
        ensures
            r@ == (Vec4i { x: x.as_int(), y: y.as_int(), z: z.as_int(), w: w.as_int() }),
    {
        Self { x, y, z, w }
    }

    /// Creates a new vector with all components set to zero.
    pub fn zero() -> (r: Self)
        ensures
            r@ == Vec4i::zero(),
    {
        Self { x: T::zero(), y: T::zero(), z: T::zero(), w: T::zero() }
    }

    /// Creates a new vector with all components set to one.
    pub fn one() -> (r: Self)
        ensures
            r@ == Vec4i::ones(),
    {
        Self { x: T::one(), y: T::one(), z: T::one(), w: T::one() }
    }

    /// Converts a `Vector3` to a `Vector4` by adding the `w` component.
    pub fn from_vector3(vector: &Vector3<T>, w: T) -> (r: Self)
        ensures
            r@ == Vec4i::from_vec3(vector@, w.as_int()),
    {
        Self { x: vector.x, y: vector.y, z: vector.z, w }
    }

    /// Returns the component at the given position, x first.
    pub fn index(&self, i: usize) -> (r: T)
        requires
            i < 4,
        ensures
            r.as_int() == self@.index(i as int),
    {
        if i == 0 {
            self.x
        } else if i == 1 {
            self.y
        } else if i == 2 {
            self.z
        } else {
            self.w
        }
    }

    /// Replaces the component at the given position, x first.
    pub fn set_index(&mut self, i: usize, v: T)
        requires
            i < 4,
        ensures
            final(self)@ == old(self)@.updated(i as int, v.as_int()),
    {
        if i == 0 {
            self.x = v;
        } else if i == 1 {
            self.y = v;
        } else if i == 2 {
            self.z = v;
        } else {
            self.w = v;
        }
    }

    /// Returns the dot product of this vector with another vector.
    pub fn dot(&self, rhs: &Self) -> (r: T)
        requires
            vec4_dot_fits::<T>(self@, rhs@),
        ensures
            r.as_int() == self@.dot(rhs@),
    {
        proof {
            T::props();
        }
        self.x * rhs.x + self.y * rhs.y + self.z * rhs.z + self.w * rhs.w
    }

    /// Creates a vector from an array of four components, x first.
    pub fn from_array(arr: [T; 4]) -> (r: Self)
        ensures
            r@ == (Vec4i {
                x: arr@[0].as_int(),
                y: arr@[1].as_int(),
                z: arr@[2].as_int(),
                w: arr@[3].as_int(),
            }),
    {
        Self { x: arr[0], y: arr[1], z: arr[2], w: arr[3] }
    }

    /// Returns the components as an array, x first.
    pub fn to_array(&self) -> (r: [T; 4])
        ensures
            r@ == seq![self.x, self.y, self.z, self.w],
    {
        [self.x, self.y, self.z, self.w]
    }

    /// Creates a vector from the first four elements of a slice, x first.
    pub fn from_slice(slice: &[T]) -> (r: Self)
        requires
            slice@.len() >= 4,
        ensures
            r@ == (Vec4i {
                x: slice@[0].as_int(),
                y: slice@[1].as_int(),
                z: slice@[2].as_int(),
                w: slice@[3].as_int(),
            }),
    {
        Self { x: slice[0], y: slice[1], z: slice[2], w: slice[3] }
    }

    /// In-place componentwise addition.
    pub fn add_assign(&mut self, rhs: Vector4<T>)
        requires
            vec4_in_range::<T>(old(self)@.add(rhs@)),
        ensures
            final(self)@ == old(self)@.add(rhs@),
    {
        proof {
            T::props();
        }
        self.x = self.x + rhs.x;
        self.y = self.y + rhs.y;
        self.z = self.z + rhs.z;
        self.w = self.w + rhs.w;
    }

    /// In-place componentwise subtraction.
    pub fn sub_assign(&mut self, rhs: Vector4<T>)
        requires
            vec4_in_range::<T>(old(self)@.sub(rhs@)),
        ensures
            final(self)@ == old(self)@.sub(rhs@),
    {
        proof {
            T::props();
        }
        self.x = self.x - rhs.x;
        self.y = self.y - rhs.y;
        self.z = self.z - rhs.z;
        self.w = self.w - rhs.w;
    }

    /// In-place multiplication of every component by a scalar.
    pub fn mul_assign(&mut self, rhs: T)
        requires
            vec4_in_range::<T>(old(self)@.scale(rhs.as_int())),
        ensures
            final(self)@ == old(self)@.scale(rhs.as_int()),
    {
        proof {
            T::props();
        }
        self.x = self.x * rhs;
        self.y = self.y * rhs;
        self.z = self.z * rhs;
        self.w = self.w * rhs;
    }

    /// In-place division of every component by a scalar, rounding toward
    /// zero.
    pub fn div_assign(&mut self, rhs: T)
        requires
            vec4_div_ok::<T>(old(self)@, rhs.as_int()),
        ensures
            final(self)@ == old(self)@.div_trunc(rhs.as_int()),
    {
        proof {
            T::props();
        }
        self.x = self.x / rhs;
        self.y = self.y / rhs;
        self.z = self.z / rhs;
        self.w = self.w / rhs;
    }
}

} // verus!
