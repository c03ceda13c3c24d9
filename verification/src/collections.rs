//! Coordinate-keyed sparse collections: the operand and output surface the
//! operator appliers work against.

pub mod sparse_matrix;
pub mod sparse_vector;
