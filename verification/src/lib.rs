//! A small linear-algebra library: vectors, matrices and the scalar
//! abstraction they are generic over, with verified contracts for every
//! operation.

pub mod math;
