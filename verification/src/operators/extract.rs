//! Column extraction: given a source matrix, a target column index and a
//! row-index selector, produce a vector whose `i`-th entry equals the
//! source's entry at `(selector[i], target_column)`, written through the
//! accumulator and restricted by the mask.

use vstd::prelude::*;

use crate::collections::sparse_matrix::SparseMatrix;
use crate::collections::sparse_vector::SparseVector;
use crate::error::SparseLinearAlgebraError;
use crate::index::{selector_in_bounds, selector_index, selector_length, ElementIndex,
    ElementIndexSelector};
use crate::operators::binary_operator::AccumulatorBinaryOperator;
use crate::operators::mask::{evaluate_entry_selected, mask_coordinate_selected, VectorMask};
use crate::operators::options::OperatorOptions;
use crate::operators::semantics::{evaluate_written_entry, written_entry};

verus! {

/// The column extraction applier. The accumulator, mask and options are
/// bound per call.
#[derive(Clone, Copy, Debug)]
pub struct MatrixColumnExtractor {}

impl MatrixColumnExtractor {
    pub fn new() -> (extractor: MatrixColumnExtractor) {
        MatrixColumnExtractor {}
    }
}

pub trait ExtractMatrixColumn {
    /// Extracts the selected rows of one column of the source matrix (as
    /// transposed by the options) into the output vector, through the
    /// accumulator and under the mask.
    ///
    /// Fails with `DimensionMismatch`, leaving the output unchanged, iff
    /// the output's dimension differs from the number of selected indices,
    /// or the mask's dimension differs from the output's. Otherwise fails
    /// with `IndexOutOfBounds`, leaving the output unchanged, iff the
    /// column index reaches past the column width or a selected row index
    /// reaches past the row height.
    fn apply<Accumulator: AccumulatorBinaryOperator, Mask: VectorMask>(
        &self,
        matrix_to_extract_from: &SparseMatrix,
        column_index_to_extract: &ElementIndex,
        indices_to_extract: &ElementIndexSelector,
        accumulator: &Accumulator,
        column_vector: &mut SparseVector,
        mask: &Mask,
        options: &OperatorOptions,
    ) -> (result: Result<(), SparseLinearAlgebraError>)
        requires
            matrix_to_extract_from.wf(),
        ensures
            ({
                let effective_height = matrix_to_extract_from.spec_effective_row_height(
                    options.transpose_input0,
                );
                let effective_width = matrix_to_extract_from.spec_effective_column_width(
                    options.transpose_input0,
                );
                let dimensions_compatible = old(column_vector).spec_length() == selector_length(
                    *indices_to_extract,
                    effective_height,
                ) && (mask.spec_select_all() || mask.spec_mask_length() == old(
                    column_vector,
                ).spec_length());
                let indices_in_bounds = (*column_index_to_extract as nat) < effective_width
                    && selector_in_bounds(*indices_to_extract, effective_height);
                &&& (result is Ok) == (dimensions_compatible && indices_in_bounds)
                &&& !dimensions_compatible ==> (result matches Err(error) && error
                    == SparseLinearAlgebraError::DimensionMismatch)
                &&& dimensions_compatible && !indices_in_bounds ==> (result matches Err(error)
                    && error == SparseLinearAlgebraError::IndexOutOfBounds)
                &&& result is Err ==> *final (column_vector) == *old(column_vector)
                &&& result is Ok ==> final (column_vector).spec_length() == old(
                    column_vector,
                ).spec_length() && final (column_vector).spec_context() == old(
                    column_vector,
                ).spec_context() && forall|i: int|
                    0 <= i < old(column_vector).spec_length() ==> final (
                    column_vector).spec_entry(i) == written_entry(
                        old(column_vector).spec_entry(i),
                        matrix_to_extract_from.spec_transposed_entry(
                            options.transpose_input0,
                            selector_index(*indices_to_extract, i),
                            *column_index_to_extract as int,
                        ),
                        mask_coordinate_selected(mask, *options, i),
                        options.clear_output_before_use,
                        accumulator.spec_accumulator_function(),
                    )
            }),
    ;
}

impl ExtractMatrixColumn for MatrixColumnExtractor {
    fn apply<Accumulator: AccumulatorBinaryOperator, Mask: VectorMask>(
        &self,
        matrix_to_extract_from: &SparseMatrix,
        column_index_to_extract: &ElementIndex,
        indices_to_extract: &ElementIndexSelector,
        accumulator: &Accumulator,
        column_vector: &mut SparseVector,
        mask: &Mask,
        options: &OperatorOptions,
    ) -> (result: Result<(), SparseLinearAlgebraError>) {
        let transpose = options.transpose_input0;
        let effective_height = matrix_to_extract_from.effective_row_height(transpose);
        let effective_width = matrix_to_extract_from.effective_column_width(transpose);
        let number_of_indices_to_extract: usize = match indices_to_extract {
            ElementIndexSelector::All => effective_height,
            ElementIndexSelector::Index(indices) => indices.len(),
        };
        let length = column_vector.length();
        if length != number_of_indices_to_extract {
            return Err(SparseLinearAlgebraError::DimensionMismatch);
        }
        let select_all = mask.mask_select_all();
        if !select_all && mask.mask_length() != length {
            return Err(SparseLinearAlgebraError::DimensionMismatch);
        }
        if *column_index_to_extract >= effective_width {
            return Err(SparseLinearAlgebraError::IndexOutOfBounds);
        }
        match indices_to_extract {
            ElementIndexSelector::All => {},
            ElementIndexSelector::Index(indices) => {
                let mut position: usize = 0;
                while position < indices.len()
                    invariant
                        *indices_to_extract == ElementIndexSelector::Index(*indices),
                        position <= indices@.len(),
                        transpose == options.transpose_input0,
                        effective_height as nat
                            == matrix_to_extract_from.spec_effective_row_height(transpose),
                        effective_width as nat
                            == matrix_to_extract_from.spec_effective_column_width(transpose),
                        (*column_index_to_extract as nat) < effective_width as nat,
                        length as nat == column_vector.spec_length(),
                        length == indices@.len(),
                        select_all == mask.spec_select_all(),
                        !select_all ==> mask.spec_mask_length() == column_vector.spec_length(),
                        forall|i: int| 0 <= i < position ==> (#[trigger] indices@[i] as nat)
                            < effective_height as nat,
                    decreases indices@.len() - position,
                {
                    if indices[position] >= effective_height {
                        proof {
                            assert(indices@[position as int] as nat >= effective_height as nat);
                            assert(!selector_in_bounds(
                                *indices_to_extract,
                                effective_height as nat,
                            ));
                        }
                        return Err(SparseLinearAlgebraError::IndexOutOfBounds);
                    }
                    position = position + 1;
                }
            },
        }
        let structural = options.use_mask_structure_of_stored_values_as_mask;
        let complement = options.use_mask_complement;
        let replace = options.clear_output_before_use;
        let accumulator_function = accumulator.accumulator_function();
        let mut new_values: Vec<Option<i64>> = Vec::new();
        let mut index: usize = 0;
        while index < length
            invariant
                matrix_to_extract_from.wf(),
                transpose == options.transpose_input0,
                effective_height as nat == matrix_to_extract_from.spec_effective_row_height(
                    transpose,
                ),
                effective_width as nat == matrix_to_extract_from.spec_effective_column_width(
                    transpose,
                ),
                (*column_index_to_extract as nat) < effective_width as nat,
                selector_in_bounds(*indices_to_extract, effective_height as nat),
                length as nat == column_vector.spec_length(),
                length as nat == selector_length(*indices_to_extract, effective_height as nat),
                select_all == mask.spec_select_all(),
                !select_all ==> mask.spec_mask_length() == column_vector.spec_length(),
                structural == options.use_mask_structure_of_stored_values_as_mask,
                complement == options.use_mask_complement,
                replace == options.clear_output_before_use,
                accumulator_function == accumulator.spec_accumulator_function(),
                index <= length,
                new_values@.len() == index as nat,
                forall|i: int| 0 <= i < index ==> new_values@[i] == written_entry(
                    column_vector.spec_entry(i),
                    matrix_to_extract_from.spec_transposed_entry(
                        options.transpose_input0,
                        selector_index(*indices_to_extract, i),
                        *column_index_to_extract as int,
                    ),
                    mask_coordinate_selected(mask, *options, i),
                    options.clear_output_before_use,
                    accumulator.spec_accumulator_function(),
                ),
            decreases length - index,
        {
            let row_index: usize = match indices_to_extract {
                ElementIndexSelector::All => index,
                ElementIndexSelector::Index(indices) => indices[index],
            };
            let computed = matrix_to_extract_from.effective_entry(
                transpose,
                row_index,
                *column_index_to_extract,
            );
            let prior = column_vector.stored_entry(index);
            let selected = if select_all {
                true
            } else {
                evaluate_entry_selected(mask.mask_entry(index), structural, complement)
            };
            new_values.push(
                evaluate_written_entry(prior, computed, selected, replace, accumulator_function),
            );
            index = index + 1;
        }
        column_vector.assign_values(new_values);
        Ok(())
    }
}

} // verus!
