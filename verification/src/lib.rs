//! A typed operator-application layer for sparse linear algebra over
//! generalized semiring algebra.
//!
//! Callers build strongly-typed, immutable operator objects once (element-wise
//! combine, matrix-matrix and matrix-vector multiply, column extraction, unary
//! map), then apply them repeatedly against sparse collections with optional
//! output masking and accumulation.

pub mod collections;
pub mod context;
pub mod error;
pub mod index;
pub mod operators;
