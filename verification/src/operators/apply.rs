//! The unary map applier: every stored coordinate of the input appears in
//! the intermediate result with the unary operator applied to its value,
//! written through the accumulator and restricted by the mask.

use vstd::prelude::*;

use crate::collections::sparse_matrix::SparseMatrix;
use crate::collections::sparse_vector::SparseVector;
use crate::error::SparseLinearAlgebraError;
use crate::operators::binary_operator::{AccumulatorBinaryOperator, AccumulatorFunction};
use crate::operators::mask::{
    evaluate_entry_selected, mask_coordinate_selected, mask_matrix_coordinate_selected,
    MatrixMask, SelectEntireMatrix, SelectEntireVector, VectorMask,
};
use crate::operators::options::OperatorOptions;
use crate::operators::semantics::{
    evaluate_unary_entry, evaluate_written_entry, unary_entry, written_entry,
};
use crate::operators::unary_operator::{UnaryFunction, UnaryOperator};

verus! {

/// Computes one unary map over a vector into the output, through the
/// accumulator and under the mask. Fails with `DimensionMismatch`, leaving
/// the output unchanged, iff the argument's or the mask's dimension differs
/// from the output's.
fn apply_unary_operator_to_vector<Mask: VectorMask>(
    unary_operator: UnaryFunction,
    accumulator: AccumulatorFunction,
    options: OperatorOptions,
    mask: &Mask,
    argument: &SparseVector,
    product: &mut SparseVector,
) -> (result: Result<(), SparseLinearAlgebraError>)
    ensures
        (result is Ok) == (argument.spec_length() == old(product).spec_length() && (
        mask.spec_select_all() || mask.spec_mask_length() == old(product).spec_length())),
        result matches Err(error) ==> error == SparseLinearAlgebraError::DimensionMismatch
            && *final (product) == *old(product),
        result is Ok ==> final (product).spec_length() == old(product).spec_length() && final (
        product).spec_context() == old(product).spec_context() && forall|i: int|
            0 <= i < old(product).spec_length() ==> final (product).spec_entry(i) == written_entry(
                old(product).spec_entry(i),
                unary_entry(unary_operator, argument.spec_entry(i)),
                mask_coordinate_selected(mask, options, i),
                options.clear_output_before_use,
                accumulator,
            ),
{
    let length = product.length();
    if argument.length() != length {
        return Err(SparseLinearAlgebraError::DimensionMismatch);
    }
    let select_all = mask.mask_select_all();
    if !select_all && mask.mask_length() != length {
        return Err(SparseLinearAlgebraError::DimensionMismatch);
    }
    let structural = options.use_mask_structure_of_stored_values_as_mask;
    let complement = options.use_mask_complement;
    let replace = options.clear_output_before_use;
    let mut new_values: Vec<Option<i64>> = Vec::new();
    let mut index: usize = 0;
    while index < length
        invariant
            length as nat == product.spec_length(),
            argument.spec_length() == product.spec_length(),
            select_all == mask.spec_select_all(),
            !select_all ==> mask.spec_mask_length() == product.spec_length(),
            structural == options.use_mask_structure_of_stored_values_as_mask,
            complement == options.use_mask_complement,
            replace == options.clear_output_before_use,
            index <= length,
            new_values@.len() == index as nat,
            forall|i: int| 0 <= i < index ==> new_values@[i] == written_entry(
                product.spec_entry(i),
                unary_entry(unary_operator, argument.spec_entry(i)),
                mask_coordinate_selected(mask, options, i),
                options.clear_output_before_use,
                accumulator,
            ),
        decreases length - index,
    {
        let prior = product.stored_entry(index);
        let computed = evaluate_unary_entry(unary_operator, argument.stored_entry(index));
        let selected = if select_all {
            true
        } else {
            evaluate_entry_selected(mask.mask_entry(index), structural, complement)
        };
        new_values.push(evaluate_written_entry(prior, computed, selected, replace, accumulator));
        index = index + 1;
    }
    product.assign_values(new_values);
    Ok(())
}

/// Computes one unary map over a matrix into the output, through the
/// accumulator and under the mask. Fails with `DimensionMismatch`, leaving
/// the output unchanged, iff the argument's dimensions (as transposed by
/// the options) or the mask's dimensions differ from the output's.
fn apply_unary_operator_to_matrix<Mask: MatrixMask>(
    unary_operator: UnaryFunction,
    accumulator: AccumulatorFunction,
    options: OperatorOptions,
    mask: &Mask,
    argument: &SparseMatrix,
    product: &mut SparseMatrix,
) -> (result: Result<(), SparseLinearAlgebraError>)
    requires
        argument.wf(),
        old(product).wf(),
        mask.spec_mask_well_formed(),
    ensures
        (result is Ok) == (argument.spec_effective_row_height(options.transpose_input0) == old(
            product,
        ).spec_row_height() && argument.spec_effective_column_width(options.transpose_input0)
            == old(product).spec_column_width() && (mask.spec_select_all() || (
        mask.spec_mask_row_height() == old(product).spec_row_height()
            && mask.spec_mask_column_width() == old(product).spec_column_width()))),
        result matches Err(error) ==> error == SparseLinearAlgebraError::DimensionMismatch
            && *final (product) == *old(product),
        result is Ok ==> final (product).wf() && final (product).spec_row_height() == old(
            product,
        ).spec_row_height() && final (product).spec_column_width() == old(
            product,
        ).spec_column_width() && final (product).spec_context() == old(product).spec_context()
            && forall|r: int, c: int|
            0 <= r < old(product).spec_row_height() && 0 <= c < old(product).spec_column_width()
                ==> final (product).spec_entry(r, c) == written_entry(
                old(product).spec_entry(r, c),
                unary_entry(
                    unary_operator,
                    argument.spec_transposed_entry(options.transpose_input0, r, c),
                ),
                mask_matrix_coordinate_selected(mask, options, r, c),
                options.clear_output_before_use,
                accumulator,
            ),
{
    let height = product.row_height();
    let width = product.column_width();
    if argument.effective_row_height(options.transpose_input0) != height
        || argument.effective_column_width(options.transpose_input0) != width {
        return Err(SparseLinearAlgebraError::DimensionMismatch);
    }
    let select_all = mask.mask_select_all();
    if !select_all && (mask.mask_row_height() != height || mask.mask_column_width() != width) {
        return Err(SparseLinearAlgebraError::DimensionMismatch);
    }
    let structural = options.use_mask_structure_of_stored_values_as_mask;
    let complement = options.use_mask_complement;
    let replace = options.clear_output_before_use;
    let mut new_rows: Vec<Vec<Option<i64>>> = Vec::new();
    let mut row: usize = 0;
    while row < height
        invariant
            argument.wf(),
            product.wf(),
            mask.spec_mask_well_formed(),
            height as nat == product.spec_row_height(),
            width as nat == product.spec_column_width(),
            argument.spec_effective_row_height(options.transpose_input0) == height as nat,
            argument.spec_effective_column_width(options.transpose_input0) == width as nat,
            select_all == mask.spec_select_all(),
            !select_all ==> mask.spec_mask_row_height() == height as nat
                && mask.spec_mask_column_width() == width as nat,
            structural == options.use_mask_structure_of_stored_values_as_mask,
            complement == options.use_mask_complement,
            replace == options.clear_output_before_use,
            row <= height,
            new_rows@.len() == row as nat,
            forall|r: int| 0 <= r < row ==> (#[trigger] new_rows@[r])@.len() == width as nat,
            forall|r: int, c: int|
                0 <= r < row && 0 <= c < width ==> #[trigger] new_rows@[r]@[c] == written_entry(
                    product.spec_entry(r, c),
                    unary_entry(
                        unary_operator,
                        argument.spec_transposed_entry(options.transpose_input0, r, c),
                    ),
                    mask_matrix_coordinate_selected(mask, options, r, c),
                    options.clear_output_before_use,
                    accumulator,
                ),
        decreases height - row,
    {
        let mut new_row: Vec<Option<i64>> = Vec::new();
        let mut column: usize = 0;
        while column < width
            invariant
                argument.wf(),
                product.wf(),
                mask.spec_mask_well_formed(),
                height as nat == product.spec_row_height(),
                width as nat == product.spec_column_width(),
                argument.spec_effective_row_height(options.transpose_input0) == height as nat,
                argument.spec_effective_column_width(options.transpose_input0) == width as nat,
                select_all == mask.spec_select_all(),
                !select_all ==> mask.spec_mask_row_height() == height as nat
                    && mask.spec_mask_column_width() == width as nat,
                structural == options.use_mask_structure_of_stored_values_as_mask,
                complement == options.use_mask_complement,
                replace == options.clear_output_before_use,
                row < height,
                column <= width,
                new_row@.len() == column as nat,
                forall|c: int| 0 <= c < column ==> #[trigger] new_row@[c] == written_entry(
                    product.spec_entry(row as int, c),
                    unary_entry(
                        unary_operator,
                        argument.spec_transposed_entry(options.transpose_input0, row as int, c),
                    ),
                    mask_matrix_coordinate_selected(mask, options, row as int, c),
                    options.clear_output_before_use,
                    accumulator,
                ),
            decreases width - column,
        {
            let prior = product.stored_entry(row, column);
            let computed = evaluate_unary_entry(
                unary_operator,
                argument.effective_entry(options.transpose_input0, row, column),
            );
            let selected = if select_all {
                true
            } else {
                evaluate_entry_selected(
                    mask.mask_matrix_entry(row, column),
                    structural,
                    complement,
                )
            };
            new_row.push(evaluate_written_entry(prior, computed, selected, replace, accumulator));
            column = column + 1;
        }
        new_rows.push(new_row);
        row = row + 1;
    }
    product.assign_rows(new_rows);
    proof {
        assert forall|r: int, c: int|
            0 <= r < old(product).spec_row_height() && 0 <= c < old(
                product,
            ).spec_column_width() implies product.spec_entry(r, c) == written_entry(
            old(product).spec_entry(r, c),
            unary_entry(
                unary_operator,
                argument.spec_transposed_entry(options.transpose_input0, r, c),
            ),
            mask_matrix_coordinate_selected(mask, options, r, c),
            options.clear_output_before_use,
            accumulator,
        ) by {
            assert(product.spec_rows()[r] == new_rows@[r]@);
            assert(new_rows@[r]@[c] == written_entry(
                old(product).spec_entry(r, c),
                unary_entry(
                    unary_operator,
                    argument.spec_transposed_entry(options.transpose_input0, r, c),
                ),
                mask_matrix_coordinate_selected(mask, options, r, c),
                options.clear_output_before_use,
                accumulator,
            ));
        };
    }
    Ok(())
}

/// The unary map applier: binds one unary operator, accumulator and option
/// set, immutable after construction.
#[derive(Clone, Copy, Debug)]
pub struct UnaryOperatorApplier {
    unary_operator: UnaryFunction,
    accumulator: AccumulatorFunction,
    options: OperatorOptions,
}

impl UnaryOperatorApplier {
    pub fn new<Operator: UnaryOperator, Accumulator: AccumulatorBinaryOperator>(
        unary_operator: &Operator,
        options: &OperatorOptions,
        accumulator: &Accumulator,
    ) -> (applier: UnaryOperatorApplier)
        ensures
            applier.spec_unary_function() == unary_operator.spec_unary_function(),
            applier.spec_accumulator_function() == accumulator.spec_accumulator_function(),
            applier.spec_options() == *options,
    {
        UnaryOperatorApplier {
            unary_operator: unary_operator.unary_function(),
            accumulator: accumulator.accumulator_function(),
            options: *options,
        }
    }
}

pub trait ApplyUnaryOperator {
    /// The unary function the applier was built with.
    spec fn spec_unary_function(&self) -> UnaryFunction;

    /// The accumulator the applier was built with.
    spec fn spec_accumulator_function(&self) -> AccumulatorFunction;

    /// The options the applier was built with.
    spec fn spec_options(&self) -> OperatorOptions;

    /// Applies the unary map over a vector, writing every coordinate of the
    /// output. Fails with `DimensionMismatch`, leaving the output
    /// unchanged, iff the argument's dimension differs from the output's.
    fn apply_to_vector(
        &self,
        argument: &SparseVector,
        product: &mut SparseVector,
    ) -> (result: Result<(), SparseLinearAlgebraError>)
        ensures
            (result is Ok) == (argument.spec_length() == old(product).spec_length()),
            result matches Err(error) ==> error == SparseLinearAlgebraError::DimensionMismatch
                && *final (product) == *old(product),
            result is Ok ==> final (product).spec_length() == old(product).spec_length()
                && final (product).spec_context() == old(product).spec_context() && forall|
                i: int,
            |
                0 <= i < old(product).spec_length() ==> final (product).spec_entry(i)
                    == written_entry(
                    old(product).spec_entry(i),
                    unary_entry(self.spec_unary_function(), argument.spec_entry(i)),
                    true,
                    self.spec_options().clear_output_before_use,
                    self.spec_accumulator_function(),
                ),
    ;

    /// Applies the unary map over a vector, restricted by the mask. Fails
    /// with `DimensionMismatch`, leaving the output unchanged, iff the
    /// argument's or the mask's dimension differs from the output's.
    fn apply_to_vector_with_mask(
        &self,
        argument: &SparseVector,
        product: &mut SparseVector,
        mask: &SparseVector,
    ) -> (result: Result<(), SparseLinearAlgebraError>)
        ensures
            (result is Ok) == (argument.spec_length() == old(product).spec_length()
                && mask.spec_length() == old(product).spec_length()),
            result matches Err(error) ==> error == SparseLinearAlgebraError::DimensionMismatch
                && *final (product) == *old(product),
            result is Ok ==> final (product).spec_length() == old(product).spec_length()
                && final (product).spec_context() == old(product).spec_context() && forall|
                i: int,
            |
                0 <= i < old(product).spec_length() ==> final (product).spec_entry(i)
                    == written_entry(
                    old(product).spec_entry(i),
                    unary_entry(self.spec_unary_function(), argument.spec_entry(i)),
                    mask_coordinate_selected(mask, self.spec_options(), i),
                    self.spec_options().clear_output_before_use,
                    self.spec_accumulator_function(),
                ),
    ;

    /// Applies the unary map over a matrix, writing every coordinate of the
    /// output. Fails with `DimensionMismatch`, leaving the output
    /// unchanged, iff the argument's dimensions (as transposed by the
    /// options) differ from the output's.
    fn apply_to_matrix(
        &self,
        argument: &SparseMatrix,
        product: &mut SparseMatrix,
    ) -> (result: Result<(), SparseLinearAlgebraError>)
        requires
            argument.wf(),
            old(product).wf(),
        ensures
            (result is Ok) == (argument.spec_effective_row_height(
                self.spec_options().transpose_input0,
            ) == old(product).spec_row_height() && argument.spec_effective_column_width(
                self.spec_options().transpose_input0,
            ) == old(product).spec_column_width()),
            result matches Err(error) ==> error == SparseLinearAlgebraError::DimensionMismatch
                && *final (product) == *old(product),
            result is Ok ==> final (product).wf() && final (product).spec_row_height() == old(
                product,
            ).spec_row_height() && final (product).spec_column_width() == old(
                product,
            ).spec_column_width() && final (product).spec_context() == old(
                product,
            ).spec_context() && forall|r: int, c: int|
                0 <= r < old(product).spec_row_height() && 0 <= c < old(
                    product,
                ).spec_column_width() ==> final (product).spec_entry(r, c) == written_entry(
                    old(product).spec_entry(r, c),
                    unary_entry(
                        self.spec_unary_function(),
                        argument.spec_transposed_entry(
                            self.spec_options().transpose_input0,
                            r,
                            c,
                        ),
                    ),
                    true,
                    self.spec_options().clear_output_before_use,
                    self.spec_accumulator_function(),
                ),
    ;

    /// Applies the unary map over a matrix, restricted by the mask. Fails
    /// with `DimensionMismatch`, leaving the output unchanged, iff the
    /// argument's dimensions (as transposed by the options) or the mask's
    /// dimensions differ from the output's.
    fn apply_to_matrix_with_mask(
        &self,
        argument: &SparseMatrix,
        product: &mut SparseMatrix,
        mask: &SparseMatrix,
    ) -> (result: Result<(), SparseLinearAlgebraError>)
        requires
            argument.wf(),
            old(product).wf(),
            mask.wf(),
        ensures
            (result is Ok) == (argument.spec_effective_row_height(
                self.spec_options().transpose_input0,
            ) == old(product).spec_row_height() && argument.spec_effective_column_width(
                self.spec_options().transpose_input0,
            ) == old(product).spec_column_width() && mask.spec_row_height() == old(
                product,
            ).spec_row_height() && mask.spec_column_width() == old(
                product,
            ).spec_column_width()),
            result matches Err(error) ==> error == SparseLinearAlgebraError::DimensionMismatch
                && *final (product) == *old(product),
            result is Ok ==> final (product).wf() && final (product).spec_row_height() == old(
                product,
            ).spec_row_height() && final (product).spec_column_width() == old(
                product,
            ).spec_column_width() && final (product).spec_context() == old(
                product,
            ).spec_context() && forall|r: int, c: int|
                0 <= r < old(product).spec_row_height() && 0 <= c < old(
                    product,
                ).spec_column_width() ==> final (product).spec_entry(r, c) == written_entry(
                    old(product).spec_entry(r, c),
                    unary_entry(
                        self.spec_unary_function(),
                        argument.spec_transposed_entry(
                            self.spec_options().transpose_input0,
                            r,
                            c,
                        ),
                    ),
                    mask_matrix_coordinate_selected(mask, self.spec_options(), r, c),
                    self.spec_options().clear_output_before_use,
                    self.spec_accumulator_function(),
                ),
    ;
}

impl ApplyUnaryOperator for UnaryOperatorApplier {
    closed spec fn spec_unary_function(&self) -> UnaryFunction {
        self.unary_operator
    }

    closed spec fn spec_accumulator_function(&self) -> AccumulatorFunction {
        self.accumulator
    }

    closed spec fn spec_options(&self) -> OperatorOptions {
        self.options
    }

    fn apply_to_vector(
        &self,
        argument: &SparseVector,
        product: &mut SparseVector,
    ) -> (result: Result<(), SparseLinearAlgebraError>) {
        let select_all = SelectEntireVector::new(&product.context());
        apply_unary_operator_to_vector(
            self.unary_operator,
            self.accumulator,
            self.options,
            &select_all,
            argument,
            product,
        )
    }

    fn apply_to_vector_with_mask(
        &self,
        argument: &SparseVector,
        product: &mut SparseVector,
        mask: &SparseVector,
    ) -> (result: Result<(), SparseLinearAlgebraError>) {
        apply_unary_operator_to_vector(
            self.unary_operator,
            self.accumulator,
            self.options,
            mask,
            argument,
            product,
        )
    }

    fn apply_to_matrix(
        &self,
        argument: &SparseMatrix,
        product: &mut SparseMatrix,
    ) -> (result: Result<(), SparseLinearAlgebraError>) {
        let select_all = SelectEntireMatrix::new(&product.context());
        apply_unary_operator_to_matrix(
            self.unary_operator,
            self.accumulator,
            self.options,
            &select_all,
            argument,
            product,
        )
    }

    fn apply_to_matrix_with_mask(
        &self,
        argument: &SparseMatrix,
        product: &mut SparseMatrix,
        mask: &SparseMatrix,
    ) -> (result: Result<(), SparseLinearAlgebraError>) {
        apply_unary_operator_to_matrix(
            self.unary_operator,
            self.accumulator,
            self.options,
            mask,
            argument,
            product,
        )
    }
}

} // verus!
