//! Semirings: a pair of associative operations ("add", "multiply") replacing
//! ordinary `+`,`*` in generalized matrix multiplication.

use vstd::prelude::*;

use crate::operators::binary_operator::BinaryFunction;

verus! {

/// A typed algebraic object that compiles to one "add" and one "multiply"
/// function at construction time.
pub trait Semiring {
    /// The "add" side this semiring compiles to.
    spec fn spec_addition_function(&self) -> BinaryFunction;

    /// The "multiply" side this semiring compiles to.
    spec fn spec_multiplication_function(&self) -> BinaryFunction;

    /// Compiles the semiring's "add" side.
    fn addition_function(&self) -> (function: BinaryFunction)
        ensures
            function == self.spec_addition_function(),
    ;

    /// Compiles the semiring's "multiply" side.
    fn multiplication_function(&self) -> (function: BinaryFunction)
        ensures
            function == self.spec_multiplication_function(),
    ;
}

/// The ordinary arithmetic semiring: add with `Plus`, multiply with `Times`.
#[derive(Clone, Copy, Debug)]
pub struct PlusTimes {}

impl PlusTimes {
    pub fn new() -> PlusTimes {
        PlusTimes {}
    }
}

impl Semiring for PlusTimes {
    open spec fn spec_addition_function(&self) -> BinaryFunction {
        BinaryFunction::Plus
    }

    open spec fn spec_multiplication_function(&self) -> BinaryFunction {
        BinaryFunction::Times
    }

    fn addition_function(&self) -> (function: BinaryFunction) {
        BinaryFunction::Plus
    }

    fn multiplication_function(&self) -> (function: BinaryFunction) {
        BinaryFunction::Times
    }
}

} // verus!
