//! The failure taxonomy of the library.
//!
//! Every fallible operation reports one of these structured errors; no call
//! aborts the process or silently truncates a result.

use vstd::prelude::*;

verus! {

/// The kinds of failure an operation can report.
#[derive(Clone, Copy, Debug, PartialEq, Eq, Structural)]
pub enum SparseLinearAlgebraError {
    /// Execution could not be set up in the requested mode.
    InitializationError,
    /// An operand's value domain is incompatible with the operator.
    DomainMismatch,
    /// An operand's, mask's or output's dimensions do not agree.
    DimensionMismatch,
    /// A coordinate lies outside a collection's dimensions.
    IndexOutOfBounds,
    /// A handle was used before it was initialized, or after it was released.
    InvalidOrUninitializedHandle,
    /// A collection could not be allocated.
    OutOfMemory,
}

} // verus!
