//! Dense linear algebra over integer scalar kinds: vectors and row-major
//! matrices with elementwise, scalar-broadcast and product operations, each
//! specified against a mathematical model.

pub mod element;
pub mod laws;
pub mod matrix;
pub mod matrix_ops;
pub mod ops;
pub mod vectors;
