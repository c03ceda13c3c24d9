//! Unary operators over the `i64` evaluation domain.

use vstd::prelude::*;

verus! {

/// The unary functions an operator can compile to.
#[derive(Clone, Copy, Debug, PartialEq, Eq, Structural)]
pub enum UnaryFunction {
    /// The value, unchanged.
    Identity,
    /// The constant one, regardless of the value.
    One,
    /// One where the value casts to false, zero where it casts to true.
    LogicalNegation,
    /// The wrapping additive inverse.
    AdditiveInverse,
}

/// What a unary function evaluates to on one domain value.
pub open spec fn apply_unary_function(function: UnaryFunction, value: i64) -> i64 {
    match function {
        UnaryFunction::Identity => value,
        UnaryFunction::One => 1,
        UnaryFunction::LogicalNegation => if value == 0 {
            1
        } else {
            0
        },
        UnaryFunction::AdditiveInverse => vstd::wrapping::i64_specs::wrapping_sub(0, value),
    }
}

/// Evaluates a unary function on one domain value.
pub fn evaluate_unary_function(function: UnaryFunction, value: i64) -> (result: i64)
    ensures
        result == apply_unary_function(function, value),
{
    match function {
        UnaryFunction::Identity => value,
        UnaryFunction::One => 1,
        UnaryFunction::LogicalNegation => if value == 0 {
            1
        } else {
            0
        },
        UnaryFunction::AdditiveInverse => 0i64.wrapping_sub(value),
    }
}

/// A typed algebraic object that compiles to one unary function at
/// construction time.
pub trait UnaryOperator {
    /// The function this operator compiles to.
    spec fn spec_unary_function(&self) -> UnaryFunction;

    /// Compiles the operator into its unary function.
    fn unary_function(&self) -> (function: UnaryFunction)
        ensures
            function == self.spec_unary_function(),
    ;
}

/// The unary operator mapping every value to itself.
#[derive(Clone, Copy, Debug)]
pub struct Identity {}

impl Identity {
    pub fn new() -> Identity {
        Identity {}
    }
}

impl UnaryOperator for Identity {
    open spec fn spec_unary_function(&self) -> UnaryFunction {
        UnaryFunction::Identity
    }

    fn unary_function(&self) -> (function: UnaryFunction) {
        UnaryFunction::Identity
    }
}

/// The unary operator mapping every value to one.
#[derive(Clone, Copy, Debug)]
pub struct One {}

impl One {
    pub fn new() -> One {
        One {}
    }
}

impl UnaryOperator for One {
    open spec fn spec_unary_function(&self) -> UnaryFunction {
        UnaryFunction::One
    }

    fn unary_function(&self) -> (function: UnaryFunction) {
        UnaryFunction::One
    }
}

/// The unary operator negating a value read as a boolean.
#[derive(Clone, Copy, Debug)]
pub struct LogicalNegation {}

impl LogicalNegation {
    pub fn new() -> LogicalNegation {
        LogicalNegation {}
    }
}

impl UnaryOperator for LogicalNegation {
    open spec fn spec_unary_function(&self) -> UnaryFunction {
        UnaryFunction::LogicalNegation
    }

    fn unary_function(&self) -> (function: UnaryFunction) {
        UnaryFunction::LogicalNegation
    }
}

/// The unary operator mapping every value to its wrapping additive inverse.
#[derive(Clone, Copy, Debug)]
pub struct AdditiveInverse {}

impl AdditiveInverse {
    pub fn new() -> AdditiveInverse {
        AdditiveInverse {}
    }
}

impl UnaryOperator for AdditiveInverse {
    open spec fn spec_unary_function(&self) -> UnaryFunction {
        UnaryFunction::AdditiveInverse
    }

    fn unary_function(&self) -> (function: UnaryFunction) {
        UnaryFunction::AdditiveInverse
    }
}

} // verus!
