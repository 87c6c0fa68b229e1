//! A width-and-height pair, convertible from a `Vector2`.

use vstd::prelude::*;
use crate::math::number::Number;
use crate::math::vector2::Vector2;

verus! {

/// A two-dimensional extent: a width and a height.
#[derive(Debug, Clone, Copy, PartialEq, PartialOrd)]
pub struct Size<T: Number> {
    pub width: T,
    pub height: T,
}

impl<T: Number> vstd::std_specs::convert::FromSpecImpl<Vector2<T>> for Size<T> {
    open spec fn obeys_from_spec() -> bool {
        true
    }

    open spec fn from_spec(point: Vector2<T>) -> Size<T> {
        Size { width: point.x, height: point.y }
    }
}

impl<T: Number> From<Vector2<T>> for Size<T> {
    /// A point read as an extent: x becomes the width, y the height.
    fn from(point: Vector2<T>) -> (r: Self)
        ensures
            r == (Size { width: point.x, height: point.y }),
    {
        Self { width: point.x, height: point.y }
    }
}

impl<T: Number> Default for Size<T> {
    /// The default size is empty: zero width and zero height.
    fn default() -> (r: Size<T>)
        ensures
            r.width.as_int() == 0,
            r.height.as_int() == 0,
    {
        Size { width: T::zero(), height: T::zero() }
    }
}

} // verus!
