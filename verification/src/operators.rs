//! The operator-construction and application framework.
//!
//! Algebraic objects (binary operators, monoids, semirings, unary operators,
//! accumulators, execution options, masks) are compiled into immutable
//! operator values at construction time; appliers bind them once and expose
//! repeatable `apply` / `apply_with_mask` entry points.

pub mod apply;
pub mod binary_operator;
pub mod element_wise_addition;
pub mod element_wise_multiplication;
pub mod extract;
pub mod mask;
pub mod monoid;
pub mod multiplication;
pub mod options;
pub mod semantics;
pub mod semiring;
pub mod unary_operator;
