//! Small verified building blocks: integer arithmetic on `i32`, the largest
//! element of a slice, string reversal, and short routines over owned and
//! borrowed values.

pub mod arith;
pub mod ownership;
pub mod slices;
pub mod text;
