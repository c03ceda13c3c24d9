//! The execution context: the shared gateway every operation runs under.
//!
//! A `Context` is created once by an explicit init call and then cloned
//! cheaply wherever it is needed. It is immutable after construction, which is
//! what makes it freely shareable across threads without synchronization.

use vstd::prelude::*;

use crate::error::SparseLinearAlgebraError;

verus! {

/// The execution mode selected at initialization.
#[derive(Clone, Copy, Debug, PartialEq, Eq, Structural)]
pub enum Mode {
    /// Synchronous execution with immediate error detection.
    Blocking,
    /// Execution that may defer work; errors may surface at a later call.
    NonBlocking,
}

/// The gateway to execution. Holds the initialization mode; exposes no
/// mutable surface after construction.
#[derive(Clone, Copy, Debug)]
pub struct Context {
    initialization_mode: Mode,
}

impl Context {
    /// The mode this context was initialized with.
    pub closed spec fn spec_mode(&self) -> Mode {
        self.initialization_mode
    }

    /// Initializes a ready-to-use context in the requested mode.
    pub fn init_ready(mode: Mode) -> (result: Result<Context, SparseLinearAlgebraError>)
        ensures
            result matches Ok(context) && context.spec_mode() == mode,
    {
        Ok(Context { initialization_mode: mode })
    }

    /// The mode this context was initialized with.
    pub fn mode(&self) -> (mode: Mode)
        ensures
            mode == self.spec_mode(),
    {
        self.initialization_mode
    }
}

} // verus!
