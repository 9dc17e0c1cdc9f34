//! Mathematical value types: dimension-typed vectors, colors, matrices.

pub mod color;
pub mod matrix;
pub mod vector;
