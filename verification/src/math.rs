//! The mathematical core: scalar abstraction, vector and matrix value types.

use vstd::prelude::*;

pub mod interval;
pub mod laws;
pub mod matrix3x3;
pub mod matrix4x4;
pub mod model;
pub mod number;
pub mod size;
pub mod vector2;
pub mod vector3;
pub mod vector4;

pub use self::interval::CircularInterval;
pub use self::matrix3x3::Matrix3x3;
pub use self::matrix4x4::Matrix4x4;
pub use self::number::Number;
pub use self::number::SignedNumber;
pub use self::size::Size;
pub use self::vector2::Vector2;
pub use self::vector3::Vector3;
pub use self::vector4::Vector4;

verus! {

/// A compass direction on a two-dimensional grid.
#[derive(Debug, Clone, Copy, PartialEq, Eq, PartialOrd, Ord)]
pub enum Direction {
    North,
    East,
    South,
    West,
}

} // verus!
