//! A two-component vector over any `Number` scalar.

use vstd::prelude::*;
use core::ops::Neg;
use crate::math::model::Vec2i;
use crate::math::number::abs_int;
use crate::math::number::div_ok;
use crate::math::number::in_range;
use crate::math::number::Number;
use crate::math::number::SignedNumber;

verus! {

/// Whether every component of a model vector fits in the scalar type `T`.
pub open spec fn vec2_in_range<T: Number>(v: Vec2i) -> bool {
    in_range::<T>(v.x) && in_range::<T>(v.y)
}

/// Whether every intermediate of a dot product of `a` and `b` fits in `T`.
pub open spec fn vec2_dot_fits<T: Number>(a: Vec2i, b: Vec2i) -> bool {
    &&& in_range::<T>(a.x * b.x)
    &&& in_range::<T>(a.y * b.y)
    &&& in_range::<T>(a.dot(b))
}

/// Whether every intermediate of the squared norm of `v` fits in `T`.
pub open spec fn vec2_norm_sq_fits<T: Number>(v: Vec2i) -> bool {
    vec2_dot_fits::<T>(v, v)
}

/// Whether every intermediate of the taxicab distance of `a` and `b` fits
/// in `T`.
pub open spec fn vec2_taxicab_fits<T: Number>(a: Vec2i, b: Vec2i) -> bool {
    &&& in_range::<T>(a.x - b.x)
    &&& in_range::<T>(a.y - b.y)
    &&& abs_int(a.x - b.x) <= T::max_val()
    &&& abs_int(a.y - b.y) <= T::max_val()
    &&& in_range::<T>(a.taxicab(b))
}

/// Whether dividing every component of `v` by the scalar `k` is defined
/// and free of overflow in `T`.
pub open spec fn vec2_div_ok<T: Number>(v: Vec2i, k: int) -> bool {
    div_ok::<T>(v.x, k) && div_ok::<T>(v.y, k)
}

/// The view determines the vector: two vectors with equal mathematical
/// views are the same value. With the constructors' contracts this gives
/// the round trip: a vector rebuilt from its own components is the vector
/// itself.
pub proof fn lemma_vector2_view_injective<T: Number>(a: Vector2<T>, b: Vector2<T>)
    requires
        a@ == b@,
    ensures
        a == b,
{
    T::props();
}

/// An ordered pair of scalars.
#[derive(Debug, Clone, Copy, PartialEq, PartialOrd)]
pub struct Vector2<T: Number> {
    pub x: T,
    pub y: T,
}

impl<T: Number> View for Vector2<T> {
    type V = Vec2i;

    open spec fn view(&self) -> Vec2i {
        Vec2i { x: self.x.as_int(), y: self.y.as_int() }
    }
}

impl<T: Number> vstd::std_specs::ops::AddSpecImpl for Vector2<T> {
    // The exact contract is the `ensures` of the `Add` impl below; nothing
    // is claimed through `add_spec`.
    open spec fn obeys_add_spec() -> bool {
        false
    }

    open spec fn add_req(self, rhs: Vector2<T>) -> bool {
        vec2_in_range::<T>(self@.add(rhs@))
    }

    open spec fn add_spec(self, rhs: Vector2<T>) -> Self::Output {
        self
    }
}

impl<T: Number> core::ops::Add for Vector2<T> {
    type Output = Vector2<T>;

    /// Componentwise vector addition.
    fn add(self, rhs: Vector2<T>) -> (r: Vector2<T>)
        ensures
            r@ == self@.add(rhs@),
    {
        proof {
            T::props();
        }
        Vector2 { x: self.x + rhs.x, y: self.y + rhs.y }
    }
}

impl<T: Number> vstd::std_specs::ops::SubSpecImpl for Vector2<T> {
    // The exact contract is the `ensures` of the `Sub` impl below.
    open spec fn obeys_sub_spec() -> bool {
        false
    }

    open spec fn sub_req(self, rhs: Vector2<T>) -> bool {
        vec2_in_range::<T>(self@.sub(rhs@))
    }

    open spec fn sub_spec(self, rhs: Vector2<T>) -> Self::Output {
        self
    }
}

impl<T: Number> core::ops::Sub for Vector2<T> {
    type Output = Vector2<T>;

    /// Componentwise vector subtraction.
    fn sub(self, rhs: Vector2<T>) -> (r: Vector2<T>)
        ensures
            r@ == self@.sub(rhs@),
    {
        proof {
            T::props();
        }
        Vector2 { x: self.x - rhs.x, y: self.y - rhs.y }
    }
}

impl<T: SignedNumber> vstd::std_specs::ops::NegSpecImpl for Vector2<T> {
    // The exact contract is the `ensures` of the `Neg` impl below.
    open spec fn obeys_neg_spec() -> bool {
        false
    }

    open spec fn neg_req(self) -> bool {
        vec2_in_range::<T>(self@.neg())
    }

    open spec fn neg_spec(self) -> Self::Output {
        self
    }
}

impl<T: SignedNumber> core::ops::Neg for Vector2<T> {
    type Output = Vector2<T>;

    /// Componentwise negation.
    fn neg(self) -> (r: Vector2<T>)
        ensures
            r@ == self@.neg(),
    {
        proof {
            T::props();
            T::neg_props();
        }
        Vector2 { x: self.x.neg(), y: self.y.neg() }
    }
}

impl<T: Number> vstd::std_specs::ops::MulSpecImpl<T> for Vector2<T> {
    // The exact contract is the `ensures` of the `Mul` impl below.
    open spec fn obeys_mul_spec() -> bool {
        false
    }

    open spec fn mul_req(self, rhs: T) -> bool {
        vec2_in_range::<T>(self@.scale(rhs.as_int()))
    }

    open spec fn mul_spec(self, rhs: T) -> Self::Output {
        self
    }
}

impl<T: Number> core::ops::Mul<T> for Vector2<T> {
    type Output = Vector2<T>;

    /// Multiplication of every component by a scalar.
    fn mul(self, rhs: T) -> (r: Vector2<T>)
        ensures
            r@ == self@.scale(rhs.as_int()),
    {
        proof {
            T::props();
        }
        Vector2 { x: self.x * rhs, y: self.y * rhs }
    }
}

impl<T: Number> vstd::std_specs::ops::DivSpecImpl<T> for Vector2<T> {
    // The exact contract is the `ensures` of the `Div` impl below.
    open spec fn obeys_div_spec() -> bool {
        false
    }

    open spec fn div_req(self, rhs: T) -> bool {
        vec2_div_ok::<T>(self@, rhs.as_int())
    }

    open spec fn div_spec(self, rhs: T) -> Self::Output {
        self
    }
}

impl<T: Number> core::ops::Div<T> for Vector2<T> {
    type Output = Vector2<T>;

    /// Division of every component by a scalar, rounding toward zero.
    fn div(self, rhs: T) -> (r: Vector2<T>)
        ensures
            r@ == self@.div_trunc(rhs.as_int()),
    {
        proof {
            T::props();
        }
        Vector2 { x: self.x / rhs, y: self.y / rhs }
    }
}

impl<T: Number> Default for Vector2<T> {
    /// The default vector is the zero vector.
    fn default() -> (r: Vector2<T>)
        ensures
            r@ == Vec2i::zero(),
    {
        Vector2::zero()
    }
}

impl<T: Number> Vector2<T> {
    /// Creates a new `Vector2` with the given x and y components.
    pub fn new(x: T, y: T) -> (r: Self)
        ensures
            r@ == (Vec2i { x: x.as_int(), y: y.as_int() }),
    {
        Self { x, y }
    }

    /// Returns a `Vector2` with both components set to zero.
    pub fn zero() -> (r: Self)
        ensures
            r@ == Vec2i::zero(),
    {
        Self { x: T::zero(), y: T::zero() }
    }

    /// Returns a `Vector2` with both components set to one.
    pub fn one() -> (r: Self)
        ensures
            r@ == Vec2i::ones(),
    {
        Self { x: T::one(), y: T::one() }
    }

    /// Returns the component at the given position, x first.
    pub fn index(&self, i: usize) -> (r: T)
        requires
            i < 2,
        ensures
            r.as_int() == self@.index(i as int),
    {
        if i == 0 {
            self.x
        } else {
            self.y
        }
    }

    /// Replaces the component at the given position, x first.
    pub fn set_index(&mut self, i: usize, v: T)
        requires
            i < 2,
        ensures
            final(self)@ == old(self)@.updated(i as int, v.as_int()),
    {
        if i == 0 {
            self.x = v;
        } else {
            self.y = v;
        }
    }

    /// Returns the squared norm of the vector.
    /// This is useful for avoiding the square root operation when comparing distances.
    pub fn norm_squared(&self) -> (r: T)
        requires
            vec2_norm_sq_fits::<T>(self@),
        ensures
            r.as_int() == self@.norm_sq(),
    {
        proof {
            T::props();
        }
        let x = self.x;
        let y = self.y;
        x * x + y * y
    }

    /// Returns the dot product of this vector with another vector.
    pub fn dot(&self, other: Vector2<T>) -> (r: T)
        requires
            vec2_dot_fits::<T>(self@, other@),
        ensures
            r.as_int() == self@.dot(other@),
    {
        proof {
            T::props();
        }
        self.x * other.x + self.y * other.y
    }

    /// Returns the taxicab distance (Manhattan distance) to another vector.
    pub fn taxicab_distance(&self, other: Vector2<T>) -> (r: T)
        requires
            vec2_taxicab_fits::<T>(self@, other@),
        ensures
            r.as_int() == self@.taxicab(other@),
    {
        proof {
            T::props();
        }
        T::abs(self.x - other.x) + T::abs(self.y - other.y)
    }

    /// Returns a normalized version of the vector: every component is
    /// divided by the vector's length and truncated back to the scalar
    /// type, so a component whose square is less than the squared norm
    /// becomes zero. If the vector is zero, it returns the original vector.
    pub fn normalize(&self) -> (r: Self)
        requires
            vec2_norm_sq_fits::<T>(self@),
        ensures
            r@ == self@.normalized(),
    {
        proof {
            T::props();
            crate::math::model::lemma_square_nonneg(self@.x);
            crate::math::model::lemma_square_nonneg(self@.y);
        }
        let x = self.x;
        let y = self.y;
        let ns = x * x + y * y;
        let zero = T::zero();
        if ns == zero {
            return *self;
        }
        let one = T::one();
        let rx = if x * x == ns {
            if x < zero {
                zero - one
            } else {
                one
            }
        } else {
            zero
        };
        let ry = if y * y == ns {
            if y < zero {
                zero - one
            } else {
                one
            }
        } else {
            zero
        };
        Self { x: rx, y: ry }
    }

    /// In-place componentwise addition.
    pub fn add_assign(&mut self, rhs: Vector2<T>)
        requires
            vec2_in_range::<T>(old(self)@.add(rhs@)),
        ensures
            final(self)@ == old(self)@.add(rhs@),
    {
        proof {
            T::props();
        }
        self.x = self.x + rhs.x;
        self.y = self.y + rhs.y;
    }

    /// In-place componentwise subtraction.
    pub fn sub_assign(&mut self, rhs: Vector2<T>)
        requires
            vec2_in_range::<T>(old(self)@.sub(rhs@)),
        ensures
            final(self)@ == old(self)@.sub(rhs@),
    {
        proof {
            T::props();
        }
        self.x = self.x - rhs.x;
        self.y = self.y - rhs.y;
    }

    /// In-place multiplication of every component by a scalar.
    pub fn mul_assign(&mut self, rhs: T)
        requires
            vec2_in_range::<T>(old(self)@.scale(rhs.as_int())),
        ensures
            final(self)@ == old(self)@.scale(rhs.as_int()),
    {
        proof {
            T::props();
        }
        self.x = self.x * rhs;
        self.y = self.y * rhs;
    }

    /// In-place division of every component by a scalar, rounding toward
    /// zero.
    pub fn div_assign(&mut self, rhs: T)
        requires
            vec2_div_ok::<T>(old(self)@, rhs.as_int()),
        ensures
            final(self)@ == old(self)@.div_trunc(rhs.as_int()),
    {
        proof {
            T::props();
        }
        self.x = self.x / rhs;
        self.y = self.y / rhs;
    }
}

} // verus!
