//! Operator options: the fixed execution configuration an applier is built
//! with, compiled once and reused for every call.

use vstd::prelude::*;

verus! {

/// The execution configuration of one applier.
///
/// The default is: no transpose, merge (not replace) into the existing
/// output, and use mask values as given (neither structural interpretation
/// nor complement). The transpose flags affect matrix operands only.
#[derive(Clone, Copy, Debug, PartialEq, Eq, Structural)]
pub struct OperatorOptions {
    /// Clear every output entry outside the written coordinates instead of
    /// merging into the existing output.
    pub clear_output_before_use: bool,
    /// Select a coordinate whenever the mask stores it, regardless of the
    /// stored value.
    pub use_mask_structure_of_stored_values_as_mask: bool,
    /// Invert the mask's selection predicate.
    pub use_mask_complement: bool,
    /// Transpose the first matrix operand before the operation.
    pub transpose_input0: bool,
    /// Transpose the second matrix operand before the operation.
    pub transpose_input1: bool,
}

impl OperatorOptions {
    /// Compiles an execution configuration from explicit flags.
    pub fn new(
        clear_output_before_use: bool,
        use_mask_structure_of_stored_values_as_mask: bool,
        use_mask_complement: bool,
        transpose_input0: bool,
        transpose_input1: bool,
    ) -> (options: OperatorOptions)
        ensures
            options == (OperatorOptions {
                clear_output_before_use,
                use_mask_structure_of_stored_values_as_mask,
                use_mask_complement,
                transpose_input0,
                transpose_input1,
            }),
    {
        OperatorOptions {
            clear_output_before_use,
            use_mask_structure_of_stored_values_as_mask,
            use_mask_complement,
            transpose_input0,
            transpose_input1,
        }
    }

    /// The default configuration: no transpose, merge into the existing
    /// output, use mask values as given.
    pub fn new_default() -> (options: OperatorOptions)
        ensures
            options == (OperatorOptions {
                clear_output_before_use: false,
                use_mask_structure_of_stored_values_as_mask: false,
                use_mask_complement: false,
                transpose_input0: false,
                transpose_input1: false,
            }),
    {
        OperatorOptions {
            clear_output_before_use: false,
            use_mask_structure_of_stored_values_as_mask: false,
            use_mask_complement: false,
            transpose_input0: false,
            transpose_input1: false,
        }
    }
}

} // verus!
