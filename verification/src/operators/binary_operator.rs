//! Binary operators over the `i64` evaluation domain, and accumulators.
//!
//! Arithmetic is modular 64-bit ("wrapping"), the behaviour of two's
//! complement kernels; the spec side reuses vstd's wrapping specifications.
//!
//! An accumulator is a binary operator used specially: the `Assignment`
//! variant overwrites the output entry, while any other variant combines the
//! pre-existing output value with the newly computed value.

use vstd::prelude::*;

verus! {

/// The binary functions an operator can compile to.
#[derive(Clone, Copy, Debug, PartialEq, Eq, Structural)]
pub enum BinaryFunction {
    /// The left argument, unchanged.
    First,
    /// The right argument, unchanged.
    Second,
    /// Wrapping addition.
    Plus,
    /// Wrapping subtraction.
    Minus,
    /// Wrapping multiplication.
    Times,
}

/// What a binary function evaluates to on two domain values.
pub open spec fn apply_binary_function(function: BinaryFunction, left: i64, right: i64) -> i64 {
    match function {
        BinaryFunction::First => left,
        BinaryFunction::Second => right,
        BinaryFunction::Plus => vstd::wrapping::i64_specs::wrapping_add(left, right),
        BinaryFunction::Minus => vstd::wrapping::i64_specs::wrapping_sub(left, right),
        BinaryFunction::Times => vstd::wrapping::i64_specs::wrapping_mul(left, right),
    }
}

/// Evaluates a binary function on two domain values.
pub fn evaluate_binary_function(function: BinaryFunction, left: i64, right: i64) -> (result: i64)
    ensures
        result == apply_binary_function(function, left, right),
{
    match function {
        BinaryFunction::First => left,
        BinaryFunction::Second => right,
        BinaryFunction::Plus => left.wrapping_add(right),
        BinaryFunction::Minus => left.wrapping_sub(right),
        BinaryFunction::Times => left.wrapping_mul(right),
    }
}

/// A typed algebraic object that compiles to one binary function at
/// construction time.
pub trait BinaryOperator {
    /// The function this operator compiles to.
    spec fn spec_binary_function(&self) -> BinaryFunction;

    /// Compiles the operator into its binary function.
    fn binary_function(&self) -> (function: BinaryFunction)
        ensures
            function == self.spec_binary_function(),
    ;
}

/// How results are written into an output entry: overwrite, or combine with
/// the pre-existing value through a binary function.
#[derive(Clone, Copy, Debug, PartialEq, Eq, Structural)]
pub enum AccumulatorFunction {
    /// Discard the prior output value and store the new one.
    Assignment,
    /// Store `combine(existing_value, new_value)`.
    Binary(BinaryFunction),
}

/// A typed algebraic object that compiles to one accumulator function at
/// construction time.
pub trait AccumulatorBinaryOperator {
    /// The accumulator function this operator compiles to.
    spec fn spec_accumulator_function(&self) -> AccumulatorFunction;

    /// Compiles the operator into its accumulator function.
    fn accumulator_function(&self) -> (function: AccumulatorFunction)
        ensures
            function == self.spec_accumulator_function(),
    ;
}

/// The binary operator returning its first argument.
#[derive(Clone, Copy, Debug)]
pub struct First {}

impl First {
    pub fn new() -> First {
        First {}
    }
}

impl BinaryOperator for First {
    open spec fn spec_binary_function(&self) -> BinaryFunction {
        BinaryFunction::First
    }

    fn binary_function(&self) -> (function: BinaryFunction) {
        BinaryFunction::First
    }
}

impl AccumulatorBinaryOperator for First {
    open spec fn spec_accumulator_function(&self) -> AccumulatorFunction {
        AccumulatorFunction::Binary(BinaryFunction::First)
    }

    fn accumulator_function(&self) -> (function: AccumulatorFunction) {
        AccumulatorFunction::Binary(BinaryFunction::First)
    }
}

/// The binary operator returning its second argument.
#[derive(Clone, Copy, Debug)]
pub struct Second {}

impl Second {
    pub fn new() -> Second {
        Second {}
    }
}

impl BinaryOperator for Second {
    open spec fn spec_binary_function(&self) -> BinaryFunction {
        BinaryFunction::Second
    }

    fn binary_function(&self) -> (function: BinaryFunction) {
        BinaryFunction::Second
    }
}

impl AccumulatorBinaryOperator for Second {
    open spec fn spec_accumulator_function(&self) -> AccumulatorFunction {
        AccumulatorFunction::Binary(BinaryFunction::Second)
    }

    fn accumulator_function(&self) -> (function: AccumulatorFunction) {
        AccumulatorFunction::Binary(BinaryFunction::Second)
    }
}

/// The wrapping addition operator.
#[derive(Clone, Copy, Debug)]
pub struct Plus {}

impl Plus {
    pub fn new() -> Plus {
        Plus {}
    }
}

impl BinaryOperator for Plus {
    open spec fn spec_binary_function(&self) -> BinaryFunction {
        BinaryFunction::Plus
    }

    fn binary_function(&self) -> (function: BinaryFunction) {
        BinaryFunction::Plus
    }
}

impl AccumulatorBinaryOperator for Plus {
    open spec fn spec_accumulator_function(&self) -> AccumulatorFunction {
        AccumulatorFunction::Binary(BinaryFunction::Plus)
    }

    fn accumulator_function(&self) -> (function: AccumulatorFunction) {
        AccumulatorFunction::Binary(BinaryFunction::Plus)
    }
}

/// The wrapping subtraction operator.
#[derive(Clone, Copy, Debug)]
pub struct Minus {}

impl Minus {
    pub fn new() -> Minus {
        Minus {}
    }
}

impl BinaryOperator for Minus {
    open spec fn spec_binary_function(&self) -> BinaryFunction {
        BinaryFunction::Minus
    }

    fn binary_function(&self) -> (function: BinaryFunction) {
        BinaryFunction::Minus
    }
}

impl AccumulatorBinaryOperator for Minus {
    open spec fn spec_accumulator_function(&self) -> AccumulatorFunction {
        AccumulatorFunction::Binary(BinaryFunction::Minus)
    }

    fn accumulator_function(&self) -> (function: AccumulatorFunction) {
        AccumulatorFunction::Binary(BinaryFunction::Minus)
    }
}

/// The wrapping multiplication operator.
#[derive(Clone, Copy, Debug)]
pub struct Times {}

impl Times {
    pub fn new() -> Times {
        Times {}
    }
}

impl BinaryOperator for Times {
    open spec fn spec_binary_function(&self) -> BinaryFunction {
        BinaryFunction::Times
    }

    fn binary_function(&self) -> (function: BinaryFunction) {
        BinaryFunction::Times
    }
}

impl AccumulatorBinaryOperator for Times {
    open spec fn spec_accumulator_function(&self) -> AccumulatorFunction {
        AccumulatorFunction::Binary(BinaryFunction::Times)
    }

    fn accumulator_function(&self) -> (function: AccumulatorFunction) {
        AccumulatorFunction::Binary(BinaryFunction::Times)
    }
}

/// The default accumulator: overwrite the output entry.
#[derive(Clone, Copy, Debug)]
pub struct Assignment {}

impl Assignment {
    pub fn new() -> Assignment {
        Assignment {}
    }
}

impl AccumulatorBinaryOperator for Assignment {
    open spec fn spec_accumulator_function(&self) -> AccumulatorFunction {
        AccumulatorFunction::Assignment
    }

    fn accumulator_function(&self) -> (function: AccumulatorFunction) {
        AccumulatorFunction::Assignment
    }
}

} // verus!
