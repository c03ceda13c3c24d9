//! Monoids: single associative, identity-having operations used as the "add"
//! side of element-wise combination.

use vstd::prelude::*;

use crate::operators::binary_operator::BinaryFunction;

verus! {

/// A typed algebraic object that compiles to one associative,
/// identity-having binary function at construction time.
pub trait Monoid {
    /// The function this monoid compiles to.
    spec fn spec_monoid_function(&self) -> BinaryFunction;

    /// Compiles the monoid into its binary function.
    fn monoid_function(&self) -> (function: BinaryFunction)
        ensures
            function == self.spec_monoid_function(),
    ;
}

/// The additive monoid, with identity zero.
#[derive(Clone, Copy, Debug)]
pub struct Plus {}

impl Plus {
    pub fn new() -> Plus {
        Plus {}
    }
}

impl Monoid for Plus {
    open spec fn spec_monoid_function(&self) -> BinaryFunction {
        BinaryFunction::Plus
    }

    fn monoid_function(&self) -> (function: BinaryFunction) {
        BinaryFunction::Plus
    }
}

/// The multiplicative monoid, with identity one.
#[derive(Clone, Copy, Debug)]
pub struct Times {}

impl Times {
    pub fn new() -> Times {
        Times {}
    }
}

impl Monoid for Times {
    open spec fn spec_monoid_function(&self) -> BinaryFunction {
        BinaryFunction::Times
    }

    fn monoid_function(&self) -> (function: BinaryFunction) {
        BinaryFunction::Times
    }
}

} // verus!
