//! Element-wise multiplication appliers: combination over the intersection
//! of the two operands' stored coordinates.
//!
//! A coordinate present in only one operand is dropped entirely; a
//! coordinate present in both combines them through the chosen binary
//! operator, monoid operation, or semiring "multiply" side. The result is
//! written through the accumulator, restricted by the mask. The options'
//! transpose flags apply to either operand before the combination.

use vstd::prelude::*;

use crate::collections::sparse_matrix::SparseMatrix;
use crate::error::SparseLinearAlgebraError;
use crate::operators::binary_operator::{
    AccumulatorBinaryOperator, AccumulatorFunction, BinaryFunction, BinaryOperator,
};
use crate::operators::mask::{
    evaluate_entry_selected, mask_matrix_coordinate_selected, MatrixMask, SelectEntireMatrix,
};
use crate::operators::monoid::Monoid;
use crate::operators::options::OperatorOptions;
use crate::operators::semantics::{
    element_wise_intersection_entry, evaluate_element_wise_intersection_entry,
    evaluate_written_entry, written_entry,
};
use crate::operators::semiring::Semiring;

verus! {

/// Whether the operands (as transposed by the options), output and mask of
/// one element-wise matrix operation agree in dimension.
pub open spec fn element_wise_matrix_dimensions_compatible<Mask: MatrixMask>(
    options: OperatorOptions,
    mask: &Mask,
    multiplier: SparseMatrix,
    multiplicant: SparseMatrix,
    product: SparseMatrix,
) -> bool {
    &&& multiplier.spec_effective_row_height(options.transpose_input0)
        == product.spec_row_height()
    &&& multiplier.spec_effective_column_width(options.transpose_input0)
        == product.spec_column_width()
    &&& multiplicant.spec_effective_row_height(options.transpose_input1)
        == product.spec_row_height()
    &&& multiplicant.spec_effective_column_width(options.transpose_input1)
        == product.spec_column_width()
    &&& (mask.spec_select_all() || (mask.spec_mask_row_height() == product.spec_row_height()
        && mask.spec_mask_column_width() == product.spec_column_width()))
}

/// Computes one element-wise intersection combination over two matrices
/// into the output, through the accumulator and under the mask. Fails with
/// `DimensionMismatch`, leaving the output unchanged, iff an operand's or
/// the mask's dimensions differ from the output's.
fn apply_element_wise_matrix_multiplication<Mask: MatrixMask>(
    multiplication: BinaryFunction,
    accumulator: AccumulatorFunction,
    options: OperatorOptions,
    mask: &Mask,
    multiplier: &SparseMatrix,
    multiplicant: &SparseMatrix,
    product: &mut SparseMatrix,
) -> (result: Result<(), SparseLinearAlgebraError>)
    requires
        multiplier.wf(),
        multiplicant.wf(),
        old(product).wf(),
        mask.spec_mask_well_formed(),
    ensures
        (result is Ok) == element_wise_matrix_dimensions_compatible(
            options,
            mask,
            *multiplier,
            *multiplicant,
            *old(product),
        ),
        result matches Err(error) ==> error == SparseLinearAlgebraError::DimensionMismatch
            && *final (product) == *old(product),
        result is Ok ==> final (product).wf() && final (product).spec_row_height() == old(
            product,
        ).spec_row_height() && final (product).spec_column_width() == old(
            product,
        ).spec_column_width() && final (product).spec_context() == old(product).spec_context()
            && forall|r: int, c: int|
            0 <= r < old(product).spec_row_height() && 0 <= c < old(product).spec_column_width()
                ==> final (product).spec_entry(r, c) == written_entry(
                old(product).spec_entry(r, c),
                element_wise_intersection_entry(
                    multiplication,
                    multiplier.spec_transposed_entry(options.transpose_input0, r, c),
                    multiplicant.spec_transposed_entry(options.transpose_input1, r, c),
                ),
                mask_matrix_coordinate_selected(mask, options, r, c),
                options.clear_output_before_use,
                accumulator,
            ),
{
    let height = product.row_height();
    let width = product.column_width();
    if multiplier.effective_row_height(options.transpose_input0) != height
        || multiplier.effective_column_width(options.transpose_input0) != width
        || multiplicant.effective_row_height(options.transpose_input1) != height
        || multiplicant.effective_column_width(options.transpose_input1) != width {
        return Err(SparseLinearAlgebraError::DimensionMismatch);
    }
    let select_all = mask.mask_select_all();
    if !select_all && (mask.mask_row_height() != height || mask.mask_column_width() != width) {
        return Err(SparseLinearAlgebraError::DimensionMismatch);
    }
    let structural = options.use_mask_structure_of_stored_values_as_mask;
    let complement = options.use_mask_complement;
    let replace = options.clear_output_before_use;
    let mut new_rows: Vec<Vec<Option<i64>>> = Vec::new();
    let mut row: usize = 0;
    while row < height
        invariant
            multiplier.wf(),
            multiplicant.wf(),
            product.wf(),
            mask.spec_mask_well_formed(),
            height as nat == product.spec_row_height(),
            width as nat == product.spec_column_width(),
            multiplier.spec_effective_row_height(options.transpose_input0) == height as nat,
            multiplier.spec_effective_column_width(options.transpose_input0) == width as nat,
            multiplicant.spec_effective_row_height(options.transpose_input1) == height as nat,
            multiplicant.spec_effective_column_width(options.transpose_input1) == width as nat,
            select_all == mask.spec_select_all(),
            !select_all ==> mask.spec_mask_row_height() == height as nat
                && mask.spec_mask_column_width() == width as nat,
            structural == options.use_mask_structure_of_stored_values_as_mask,
            complement == options.use_mask_complement,
            replace == options.clear_output_before_use,
            row <= height,
            new_rows@.len() == row as nat,
            forall|r: int| 0 <= r < row ==> (#[trigger] new_rows@[r])@.len() == width as nat,
            forall|r: int, c: int|
                0 <= r < row && 0 <= c < width ==> #[trigger] new_rows@[r]@[c] == written_entry(
                    product.spec_entry(r, c),
                    element_wise_intersection_entry(
                        multiplication,
                        multiplier.spec_transposed_entry(options.transpose_input0, r, c),
                        multiplicant.spec_transposed_entry(options.transpose_input1, r, c),
                    ),
                    mask_matrix_coordinate_selected(mask, options, r, c),
                    options.clear_output_before_use,
                    accumulator,
                ),
        decreases height - row,
    {
        let mut new_row: Vec<Option<i64>> = Vec::new();
        let mut column: usize = 0;
        while column < width
            invariant
                multiplier.wf(),
                multiplicant.wf(),
                product.wf(),
                mask.spec_mask_well_formed(),
                height as nat == product.spec_row_height(),
                width as nat == product.spec_column_width(),
                multiplier.spec_effective_row_height(options.transpose_input0) == height as nat,
                multiplier.spec_effective_column_width(options.transpose_input0) == width as nat,
                multiplicant.spec_effective_row_height(options.transpose_input1)
                    == height as nat,
                multiplicant.spec_effective_column_width(options.transpose_input1)
                    == width as nat,
                select_all == mask.spec_select_all(),
                !select_all ==> mask.spec_mask_row_height() == height as nat
                    && mask.spec_mask_column_width() == width as nat,
                structural == options.use_mask_structure_of_stored_values_as_mask,
                complement == options.use_mask_complement,
                replace == options.clear_output_before_use,
                row < height,
                column <= width,
                new_row@.len() == column as nat,
                forall|c: int| 0 <= c < column ==> #[trigger] new_row@[c] == written_entry(
                    product.spec_entry(row as int, c),
                    element_wise_intersection_entry(
                        multiplication,
                        multiplier.spec_transposed_entry(options.transpose_input0, row as int, c),
                        multiplicant.spec_transposed_entry(
                            options.transpose_input1,
                            row as int,
                            c,
                        ),
                    ),
                    mask_matrix_coordinate_selected(mask, options, row as int, c),
                    options.clear_output_before_use,
                    accumulator,
                ),
            decreases width - column,
        {
            let prior = product.stored_entry(row, column);
            let computed = evaluate_element_wise_intersection_entry(
                multiplication,
                multiplier.effective_entry(options.transpose_input0, row, column),
                multiplicant.effective_entry(options.transpose_input1, row, column),
            );
            let selected = if select_all {
                true
            } else {
                evaluate_entry_selected(
                    mask.mask_matrix_entry(row, column),
                    structural,
                    complement,
                )
            };
            new_row.push(evaluate_written_entry(prior, computed, selected, replace, accumulator));
            column = column + 1;
        }
        new_rows.push(new_row);
        row = row + 1;
    }
    product.assign_rows(new_rows);
    proof {
        assert forall|r: int, c: int|
            0 <= r < old(product).spec_row_height() && 0 <= c < old(
                product,
            ).spec_column_width() implies product.spec_entry(r, c) == written_entry(
            old(product).spec_entry(r, c),
            element_wise_intersection_entry(
                multiplication,
                multiplier.spec_transposed_entry(options.transpose_input0, r, c),
                multiplicant.spec_transposed_entry(options.transpose_input1, r, c),
            ),
            mask_matrix_coordinate_selected(mask, options, r, c),
            options.clear_output_before_use,
            accumulator,
        ) by {
            assert(product.spec_rows()[r] == new_rows@[r]@);
            assert(new_rows@[r]@[c] == written_entry(
                old(product).spec_entry(r, c),
                element_wise_intersection_entry(
                    multiplication,
                    multiplier.spec_transposed_entry(options.transpose_input0, r, c),
                    multiplicant.spec_transposed_entry(options.transpose_input1, r, c),
                ),
                mask_matrix_coordinate_selected(mask, options, r, c),
                options.clear_output_before_use,
                accumulator,
            ));
        };
    }
    Ok(())
}

/// The element-wise matrix multiplication applier built from a semiring:
/// its "multiply" side combines coordinates stored by both operands.
#[derive(Clone, Copy, Debug)]
pub struct ElementWiseMatrixMultiplicationSemiringOperator {
    multiplication_operator: BinaryFunction,
    accumulator: AccumulatorFunction,
    options: OperatorOptions,
}

impl ElementWiseMatrixMultiplicationSemiringOperator {
    pub fn new<Multiplication: Semiring, Accumulator: AccumulatorBinaryOperator>(
        multiplication_operator: &Multiplication,
        options: &OperatorOptions,
        accumulator: &Accumulator,
    ) -> (applier: ElementWiseMatrixMultiplicationSemiringOperator)
        ensures
            applier.spec_multiplication_function()
                == multiplication_operator.spec_multiplication_function(),
            applier.spec_accumulator_function() == accumulator.spec_accumulator_function(),
            applier.spec_options() == *options,
    {
        ElementWiseMatrixMultiplicationSemiringOperator {
            multiplication_operator: multiplication_operator.multiplication_function(),
            accumulator: accumulator.accumulator_function(),
            options: *options,
        }
    }
}

pub trait ApplyElementWiseMatrixMultiplicationSemiring {
    /// The algebraic multiply the applier was built with.
    spec fn spec_multiplication_function(&self) -> BinaryFunction;

    /// The accumulator the applier was built with.
    spec fn spec_accumulator_function(&self) -> AccumulatorFunction;

    /// The options the applier was built with.
    spec fn spec_options(&self) -> OperatorOptions;

    /// Applies the element-wise multiplication, writing every coordinate of
    /// the output. Fails with `DimensionMismatch`, leaving the output
    /// unchanged, iff an operand's dimensions (as transposed by the
    /// options) differ from the output's.
    fn apply(
        &self,
        multiplier: &SparseMatrix,
        multiplicant: &SparseMatrix,
        product: &mut SparseMatrix,
    ) -> (result: Result<(), SparseLinearAlgebraError>)
        requires
            multiplier.wf(),
            multiplicant.wf(),
            old(product).wf(),
        ensures
            (result is Ok) == (multiplier.spec_effective_row_height(
                self.spec_options().transpose_input0,
            ) == old(product).spec_row_height() && multiplier.spec_effective_column_width(
                self.spec_options().transpose_input0,
            ) == old(product).spec_column_width() && multiplicant.spec_effective_row_height(
                self.spec_options().transpose_input1,
            ) == old(product).spec_row_height() && multiplicant.spec_effective_column_width(
                self.spec_options().transpose_input1,
            ) == old(product).spec_column_width()),
            result matches Err(error) ==> error == SparseLinearAlgebraError::DimensionMismatch
                && *final (product) == *old(product),
            result is Ok ==> final (product).wf() && final (product).spec_row_height() == old(
                product,
            ).spec_row_height() && final (product).spec_column_width() == old(
                product,
            ).spec_column_width() && final (product).spec_context() == old(
                product,
            ).spec_context() && forall|r: int, c: int|
                0 <= r < old(product).spec_row_height() && 0 <= c < old(
                    product,
                ).spec_column_width() ==> final (product).spec_entry(r, c) == written_entry(
                    old(product).spec_entry(r, c),
                    element_wise_intersection_entry(
                        self.spec_multiplication_function(),
                        multiplier.spec_transposed_entry(
                            self.spec_options().transpose_input0,
                            r,
                            c,
                        ),
                        multiplicant.spec_transposed_entry(
                            self.spec_options().transpose_input1,
                            r,
                            c,
                        ),
                    ),
                    true,
                    self.spec_options().clear_output_before_use,
                    self.spec_accumulator_function(),
                ),
    ;

    /// Applies the element-wise multiplication, restricted by the mask.
    /// Fails with `DimensionMismatch`, leaving the output unchanged, iff an
    /// operand's dimensions (as transposed by the options) or the mask's
    /// dimensions differ from the output's.
    fn apply_with_mask(
        &self,
        mask: &SparseMatrix,
        multiplier: &SparseMatrix,
        multiplicant: &SparseMatrix,
        product: &mut SparseMatrix,
    ) -> (result: Result<(), SparseLinearAlgebraError>)
        requires
            mask.wf(),
            multiplier.wf(),
            multiplicant.wf(),
            old(product).wf(),
        ensures
            (result is Ok) == (multiplier.spec_effective_row_height(
                self.spec_options().transpose_input0,
            ) == old(product).spec_row_height() && multiplier.spec_effective_column_width(
                self.spec_options().transpose_input0,
            ) == old(product).spec_column_width() && multiplicant.spec_effective_row_height(
                self.spec_options().transpose_input1,
            ) == old(product).spec_row_height() && multiplicant.spec_effective_column_width(
                self.spec_options().transpose_input1,
            ) == old(product).spec_column_width() && mask.spec_row_height() == old(
                product,
            ).spec_row_height() && mask.spec_column_width() == old(
                product,
            ).spec_column_width()),
            result matches Err(error) ==> error == SparseLinearAlgebraError::DimensionMismatch
                && *final (product) == *old(product),
            result is Ok ==> final (product).wf() && final (product).spec_row_height() == old(
                product,
            ).spec_row_height() && final (product).spec_column_width() == old(
                product,
            ).spec_column_width() && final (product).spec_context() == old(
                product,
            ).spec_context() && forall|r: int, c: int|
                0 <= r < old(product).spec_row_height() && 0 <= c < old(
                    product,
                ).spec_column_width() ==> final (product).spec_entry(r, c) == written_entry(
                    old(product).spec_entry(r, c),
                    element_wise_intersection_entry(
                        self.spec_multiplication_function(),
                        multiplier.spec_transposed_entry(
                            self.spec_options().transpose_input0,
                            r,
                            c,
                        ),
                        multiplicant.spec_transposed_entry(
                            self.spec_options().transpose_input1,
                            r,
                            c,
                        ),
                    ),
                    mask_matrix_coordinate_selected(mask, self.spec_options(), r, c),
                    self.spec_options().clear_output_before_use,
                    self.spec_accumulator_function(),
                ),
    ;
}

impl ApplyElementWiseMatrixMultiplicationSemiring
    for ElementWiseMatrixMultiplicationSemiringOperator {
    closed spec fn spec_multiplication_function(&self) -> BinaryFunction {
        self.multiplication_operator
    }

    closed spec fn spec_accumulator_function(&self) -> AccumulatorFunction {
        self.accumulator
    }

    closed spec fn spec_options(&self) -> OperatorOptions {
        self.options
    }

    fn apply(
        &self,
        multiplier: &SparseMatrix,
        multiplicant: &SparseMatrix,
        product: &mut SparseMatrix,
    ) -> (result: Result<(), SparseLinearAlgebraError>) {
        let select_all = SelectEntireMatrix::new(&product.context());
        apply_element_wise_matrix_multiplication(
            self.multiplication_operator,
            self.accumulator,
            self.options,
            &select_all,
            multiplier,
            multiplicant,
            product,
        )
    }

    fn apply_with_mask(
        &self,
        mask: &SparseMatrix,
        multiplier: &SparseMatrix,
        multiplicant: &SparseMatrix,
        product: &mut SparseMatrix,
    ) -> (result: Result<(), SparseLinearAlgebraError>) {
        apply_element_wise_matrix_multiplication(
            self.multiplication_operator,
            self.accumulator,
            self.options,
            mask,
            multiplier,
            multiplicant,
            product,
        )
    }
}

/// The element-wise matrix multiplication applier built from a monoid: its
/// operation combines coordinates stored by both operands.
#[derive(Clone, Copy, Debug)]
pub struct ElementWiseMatrixMultiplicationMonoidOperator {
    multiplication_operator: BinaryFunction,
    accumulator: AccumulatorFunction,
    options: OperatorOptions,
}

impl ElementWiseMatrixMultiplicationMonoidOperator {
    pub fn new<Multiplication: Monoid, Accumulator: AccumulatorBinaryOperator>(
        multiplication_operator: &Multiplication,
        options: &OperatorOptions,
        accumulator: &Accumulator,
    ) -> (applier: ElementWiseMatrixMultiplicationMonoidOperator)
        ensures
            applier.spec_multiplication_function()
                == multiplication_operator.spec_monoid_function(),
            applier.spec_accumulator_function() == accumulator.spec_accumulator_function(),
            applier.spec_options() == *options,
    {
        ElementWiseMatrixMultiplicationMonoidOperator {
            multiplication_operator: multiplication_operator.monoid_function(),
            accumulator: accumulator.accumulator_function(),
            options: *options,
        }
    }
}

pub trait ApplyElementWiseMatrixMultiplicationMonoidOperator {
    /// The algebraic multiply the applier was built with.
    spec fn spec_multiplication_function(&self) -> BinaryFunction;

    /// The accumulator the applier was built with.
    spec fn spec_accumulator_function(&self) -> AccumulatorFunction;

    /// The options the applier was built with.
    spec fn spec_options(&self) -> OperatorOptions;

    /// Applies the element-wise multiplication, writing every coordinate of
    /// the output. Fails with `DimensionMismatch`, leaving the output
    /// unchanged, iff an operand's dimensions (as transposed by the
    /// options) differ from the output's.
    fn apply(
        &self,
        multiplier: &SparseMatrix,
        multiplicant: &SparseMatrix,
        product: &mut SparseMatrix,
    ) -> (result: Result<(), SparseLinearAlgebraError>)
        requires
            multiplier.wf(),
            multiplicant.wf(),
            old(product).wf(),
        ensures
            (result is Ok) == (multiplier.spec_effective_row_height(
                self.spec_options().transpose_input0,
            ) == old(product).spec_row_height() && multiplier.spec_effective_column_width(
                self.spec_options().transpose_input0,
            ) == old(product).spec_column_width() && multiplicant.spec_effective_row_height(
                self.spec_options().transpose_input1,
            ) == old(product).spec_row_height() && multiplicant.spec_effective_column_width(
                self.spec_options().transpose_input1,
            ) == old(product).spec_column_width()),
            result matches Err(error) ==> error == SparseLinearAlgebraError::DimensionMismatch
                && *final (product) == *old(product),
            result is Ok ==> final (product).wf() && final (product).spec_row_height() == old(
                product,
            ).spec_row_height() && final (product).spec_column_width() == old(
                product,
            ).spec_column_width() && final (product).spec_context() == old(
                product,
            ).spec_context() && forall|r: int, c: int|
                0 <= r < old(product).spec_row_height() && 0 <= c < old(
                    product,
                ).spec_column_width() ==> final (product).spec_entry(r, c) == written_entry(
                    old(product).spec_entry(r, c),
                    element_wise_intersection_entry(
                        self.spec_multiplication_function(),
                        multiplier.spec_transposed_entry(
                            self.spec_options().transpose_input0,
                            r,
                            c,
                        ),
                        multiplicant.spec_transposed_entry(
                            self.spec_options().transpose_input1,
                            r,
                            c,
                        ),
                    ),
                    true,
                    self.spec_options().clear_output_before_use,
                    self.spec_accumulator_function(),
                ),
    ;

    /// Applies the element-wise multiplication, restricted by the mask.
    /// Fails with `DimensionMismatch`, leaving the output unchanged, iff an
    /// operand's dimensions (as transposed by the options) or the mask's
    /// dimensions differ from the output's.
    fn apply_with_mask(
        &self,
        mask: &SparseMatrix,
        multiplier: &SparseMatrix,
        multiplicant: &SparseMatrix,
        product: &mut SparseMatrix,
    ) -> (result: Result<(), SparseLinearAlgebraError>)
        requires
            mask.wf(),
            multiplier.wf(),
            multiplicant.wf(),
            old(product).wf(),
        ensures
            (result is Ok) == (multiplier.spec_effective_row_height(
                self.spec_options().transpose_input0,
            ) == old(product).spec_row_height() && multiplier.spec_effective_column_width(
                self.spec_options().transpose_input0,
            ) == old(product).spec_column_width() && multiplicant.spec_effective_row_height(
                self.spec_options().transpose_input1,
            ) == old(product).spec_row_height() && multiplicant.spec_effective_column_width(
                self.spec_options().transpose_input1,
            ) == old(product).spec_column_width() && mask.spec_row_height() == old(
                product,
            ).spec_row_height() && mask.spec_column_width() == old(
                product,
            ).spec_column_width()),
            result matches Err(error) ==> error == SparseLinearAlgebraError::DimensionMismatch
                && *final (product) == *old(product),
            result is Ok ==> final (product).wf() && final (product).spec_row_height() == old(
                product,
            ).spec_row_height() && final (product).spec_column_width() == old(
                product,
            ).spec_column_width() && final (product).spec_context() == old(
                product,
            ).spec_context() && forall|r: int, c: int|
                0 <= r < old(product).spec_row_height() && 0 <= c < old(
                    product,
                ).spec_column_width() ==> final (product).spec_entry(r, c) == written_entry(
                    old(product).spec_entry(r, c),
                    element_wise_intersection_entry(
                        self.spec_multiplication_function(),
                        multiplier.spec_transposed_entry(
                            self.spec_options().transpose_input0,
                            r,
                            c,
                        ),
                        multiplicant.spec_transposed_entry(
                            self.spec_options().transpose_input1,
                            r,
                            c,
                        ),
                    ),
                    mask_matrix_coordinate_selected(mask, self.spec_options(), r, c),
                    self.spec_options().clear_output_before_use,
                    self.spec_accumulator_function(),
                ),
    ;
}

impl ApplyElementWiseMatrixMultiplicationMonoidOperator
    for ElementWiseMatrixMultiplicationMonoidOperator {
    closed spec fn spec_multiplication_function(&self) -> BinaryFunction {
        self.multiplication_operator
    }

    closed spec fn spec_accumulator_function(&self) -> AccumulatorFunction {
        self.accumulator
    }

    closed spec fn spec_options(&self) -> OperatorOptions {
        self.options
    }

    fn apply(
        &self,
        multiplier: &SparseMatrix,
        multiplicant: &SparseMatrix,
        product: &mut SparseMatrix,
    ) -> (result: Result<(), SparseLinearAlgebraError>) {
        let select_all = SelectEntireMatrix::new(&product.context());
        apply_element_wise_matrix_multiplication(
            self.multiplication_operator,
            self.accumulator,
            self.options,
            &select_all,
            multiplier,
            multiplicant,
            product,
        )
    }

    fn apply_with_mask(
        &self,
        mask: &SparseMatrix,
        multiplier: &SparseMatrix,
        multiplicant: &SparseMatrix,
        product: &mut SparseMatrix,
    ) -> (result: Result<(), SparseLinearAlgebraError>) {
        apply_element_wise_matrix_multiplication(
            self.multiplication_operator,
            self.accumulator,
            self.options,
            mask,
            multiplier,
            multiplicant,
            product,
        )
    }
}

/// The element-wise matrix multiplication applier built from a plain
/// binary operator combining coordinates stored by both operands.
#[derive(Clone, Copy, Debug)]
pub struct ElementWiseMatrixMultiplicationBinaryOperator {
    multiplication_operator: BinaryFunction,
    accumulator: AccumulatorFunction,
    options: OperatorOptions,
}

impl ElementWiseMatrixMultiplicationBinaryOperator {
    pub fn new<Multiplication: BinaryOperator, Accumulator: AccumulatorBinaryOperator>(
        multiplication_operator: &Multiplication,
        options: &OperatorOptions,
        accumulator: &Accumulator,
    ) -> (applier: ElementWiseMatrixMultiplicationBinaryOperator)
        ensures
            applier.spec_multiplication_function()
                == multiplication_operator.spec_binary_function(),
            applier.spec_accumulator_function() == accumulator.spec_accumulator_function(),
            applier.spec_options() == *options,
    {
        ElementWiseMatrixMultiplicationBinaryOperator {
            multiplication_operator: multiplication_operator.binary_function(),
            accumulator: accumulator.accumulator_function(),
            options: *options,
        }
    }
}

pub trait ApplyElementWiseMatrixMultiplicationBinaryOperator {
    /// The algebraic multiply the applier was built with.
    spec fn spec_multiplication_function(&self) -> BinaryFunction;

    /// The accumulator the applier was built with.
    spec fn spec_accumulator_function(&self) -> AccumulatorFunction;

    /// The options the applier was built with.
    spec fn spec_options(&self) -> OperatorOptions;

    /// Applies the element-wise multiplication, writing every coordinate of
    /// the output. Fails with `DimensionMismatch`, leaving the output
    /// unchanged, iff an operand's dimensions (as transposed by the
    /// options) differ from the output's.
    fn apply(
        &self,
        multiplier: &SparseMatrix,
        multiplicant: &SparseMatrix,
        product: &mut SparseMatrix,
    ) -> (result: Result<(), SparseLinearAlgebraError>)
        requires
            multiplier.wf(),
            multiplicant.wf(),
            old(product).wf(),
        ensures
            (result is Ok) == (multiplier.spec_effective_row_height(
                self.spec_options().transpose_input0,
            ) == old(product).spec_row_height() && multiplier.spec_effective_column_width(
                self.spec_options().transpose_input0,
            ) == old(product).spec_column_width() && multiplicant.spec_effective_row_height(
                self.spec_options().transpose_input1,
            ) == old(product).spec_row_height() && multiplicant.spec_effective_column_width(
                self.spec_options().transpose_input1,
            ) == old(product).spec_column_width()),
            result matches Err(error) ==> error == SparseLinearAlgebraError::DimensionMismatch
                && *final (product) == *old(product),
            result is Ok ==> final (product).wf() && final (product).spec_row_height() == old(
                product,
            ).spec_row_height() && final (product).spec_column_width() == old(
                product,
            ).spec_column_width() && final (product).spec_context() == old(
                product,
            ).spec_context() && forall|r: int, c: int|
                0 <= r < old(product).spec_row_height() && 0 <= c < old(
                    product,
                ).spec_column_width() ==> final (product).spec_entry(r, c) == written_entry(
                    old(product).spec_entry(r, c),
                    element_wise_intersection_entry(
                        self.spec_multiplication_function(),
                        multiplier.spec_transposed_entry(
                            self.spec_options().transpose_input0,
                            r,
                            c,
                        ),
                        multiplicant.spec_transposed_entry(
                            self.spec_options().transpose_input1,
                            r,
                            c,
                        ),
                    ),
                    true,
                    self.spec_options().clear_output_before_use,
                    self.spec_accumulator_function(),
                ),
    ;

    /// Applies the element-wise multiplication, restricted by the mask.
    /// Fails with `DimensionMismatch`, leaving the output unchanged, iff an
    /// operand's dimensions (as transposed by the options) or the mask's
    /// dimensions differ from the output's.
    fn apply_with_mask(
        &self,
        mask: &SparseMatrix,
        multiplier: &SparseMatrix,
        multiplicant: &SparseMatrix,
        product: &mut SparseMatrix,
    ) -> (result: Result<(), SparseLinearAlgebraError>)
        requires
            mask.wf(),
            multiplier.wf(),
            multiplicant.wf(),
            old(product).wf(),
        ensures
            (result is Ok) == (multiplier.spec_effective_row_height(
                self.spec_options().transpose_input0,
            ) == old(product).spec_row_height() && multiplier.spec_effective_column_width(
                self.spec_options().transpose_input0,
            ) == old(product).spec_column_width() && multiplicant.spec_effective_row_height(
                self.spec_options().transpose_input1,
            ) == old(product).spec_row_height() && multiplicant.spec_effective_column_width(
                self.spec_options().transpose_input1,
            ) == old(product).spec_column_width() && mask.spec_row_height() == old(
                product,
            ).spec_row_height() && mask.spec_column_width() == old(
                product,
            ).spec_column_width()),
            result matches Err(error) ==> error == SparseLinearAlgebraError::DimensionMismatch
                && *final (product) == *old(product),
            result is Ok ==> final (product).wf() && final (product).spec_row_height() == old(
                product,
            ).spec_row_height() && final (product).spec_column_width() == old(
                product,
            ).spec_column_width() && final (product).spec_context() == old(
                product,
            ).spec_context() && forall|r: int, c: int|
                0 <= r < old(product).spec_row_height() && 0 <= c < old(
                    product,
                ).spec_column_width() ==> final (product).spec_entry(r, c) == written_entry(
                    old(product).spec_entry(r, c),
                    element_wise_intersection_entry(
                        self.spec_multiplication_function(),
                        multiplier.spec_transposed_entry(
                            self.spec_options().transpose_input0,
                            r,
                            c,
                        ),
                        multiplicant.spec_transposed_entry(
                            self.spec_options().transpose_input1,
                            r,
                            c,
                        ),
                    ),
                    mask_matrix_coordinate_selected(mask, self.spec_options(), r, c),
                    self.spec_options().clear_output_before_use,
                    self.spec_accumulator_function(),
                ),
    ;
}

impl ApplyElementWiseMatrixMultiplicationBinaryOperator
    for ElementWiseMatrixMultiplicationBinaryOperator {
    closed spec fn spec_multiplication_function(&self) -> BinaryFunction {
        self.multiplication_operator
    }

    closed spec fn spec_accumulator_function(&self) -> AccumulatorFunction {
        self.accumulator
    }

    closed spec fn spec_options(&self) -> OperatorOptions {
        self.options
    }

    fn apply(
        &self,
        multiplier: &SparseMatrix,
        multiplicant: &SparseMatrix,
        product: &mut SparseMatrix,
    ) -> (result: Result<(), SparseLinearAlgebraError>) {
        let select_all = SelectEntireMatrix::new(&product.context());
        apply_element_wise_matrix_multiplication(
            self.multiplication_operator,
            self.accumulator,
            self.options,
            &select_all,
            multiplier,
            multiplicant,
            product,
        )
    }

    fn apply_with_mask(
        &self,
        mask: &SparseMatrix,
        multiplier: &SparseMatrix,
        multiplicant: &SparseMatrix,
        product: &mut SparseMatrix,
    ) -> (result: Result<(), SparseLinearAlgebraError>) {
        apply_element_wise_matrix_multiplication(
            self.multiplication_operator,
            self.accumulator,
            self.options,
            mask,
            multiplier,
            multiplicant,
            product,
        )
    }
}

} // verus!
