//! Generalized multiplication over a semiring: matrix×matrix and
//! matrix×vector.
//!
//! The product entry at `(i, j)` is the semiring "add" over every inner
//! index `k` where both operands store an entry, of the semiring "multiply"
//! of `multiplier[i, k]` and `multiplicant[k, j]`; an entry with no such
//! `k` stays absent. The options' transpose flags apply to either operand
//! before the multiplication, and the result is written through the
//! accumulator, restricted by the mask.

use vstd::prelude::*;

use crate::collections::sparse_matrix::SparseMatrix;
use crate::collections::sparse_vector::SparseVector;
use crate::error::SparseLinearAlgebraError;
use crate::operators::binary_operator::{
    apply_binary_function, evaluate_binary_function, AccumulatorBinaryOperator,
    AccumulatorFunction, BinaryFunction,
};
use crate::operators::mask::{
    evaluate_entry_selected, mask_coordinate_selected, mask_matrix_coordinate_selected,
    MatrixMask, SelectEntireMatrix, SelectEntireVector, VectorMask,
};
use crate::operators::options::OperatorOptions;
use crate::operators::semantics::{evaluate_written_entry, semiring_fold, written_entry};
use crate::operators::semiring::Semiring;

verus! {

/// The product entry of two matrices over a semiring at one coordinate,
/// either operand as transposed by its option flag.
pub open spec fn matrix_product_entry(
    addition: BinaryFunction,
    multiplication: BinaryFunction,
    multiplier: SparseMatrix,
    transpose_multiplier: bool,
    multiplicant: SparseMatrix,
    transpose_multiplicant: bool,
    row: int,
    column: int,
) -> Option<i64> {
    semiring_fold(
        addition,
        multiplication,
        multiplier.spec_effective_row(transpose_multiplier, row),
        multiplicant.spec_effective_column(transpose_multiplicant, column),
        multiplier.spec_effective_column_width(transpose_multiplier) as int,
    )
}

/// The product entry of a matrix and a vector over a semiring at one
/// coordinate, the matrix as transposed by its option flag.
pub open spec fn matrix_vector_product_entry(
    addition: BinaryFunction,
    multiplication: BinaryFunction,
    multiplier: SparseMatrix,
    transpose_multiplier: bool,
    multiplicant: SparseVector,
    row: int,
) -> Option<i64> {
    semiring_fold(
        addition,
        multiplication,
        multiplier.spec_effective_row(transpose_multiplier, row),
        multiplicant.spec_values(),
        multiplier.spec_effective_column_width(transpose_multiplier) as int,
    )
}

/// Computes the semiring combination of one inner index pair into the
/// running fold.
fn fold_inner_product_step(
    addition: BinaryFunction,
    multiplication: BinaryFunction,
    folded: Option<i64>,
    left: Option<i64>,
    right: Option<i64>,
) -> (next: Option<i64>)
    ensures
        next == (match (left, right) {
            (Option::Some(left_value), Option::Some(right_value)) => {
                let product = apply_binary_function(multiplication, left_value, right_value);
                match folded {
                    Option::None => Option::Some(product),
                    Option::Some(sum) => Option::Some(
                        apply_binary_function(addition, sum, product),
                    ),
                }
            },
            _ => folded,
        }),
{
    match (left, right) {
        (Option::Some(left_value), Option::Some(right_value)) => {
            let product = evaluate_binary_function(multiplication, left_value, right_value);
            match folded {
                Option::None => Option::Some(product),
                Option::Some(sum) => Option::Some(
                    evaluate_binary_function(addition, sum, product),
                ),
            }
        },
        _ => folded,
    }
}

/// Computes one generalized matrix product into the output, through the
/// accumulator and under the mask. Fails with `DimensionMismatch`, leaving
/// the output unchanged, iff the operands' dimensions (as transposed by
/// the options) do not agree with each other, with the output or with the
/// mask.
fn apply_matrix_multiplication<Mask: MatrixMask>(
    addition: BinaryFunction,
    multiplication: BinaryFunction,
    accumulator: AccumulatorFunction,
    options: OperatorOptions,
    mask: &Mask,
    multiplier: &SparseMatrix,
    multiplicant: &SparseMatrix,
    product: &mut SparseMatrix,
) -> (result: Result<(), SparseLinearAlgebraError>)
    requires
        multiplier.wf(),
        multiplicant.wf(),
        old(product).wf(),
        mask.spec_mask_well_formed(),
    ensures
        (result is Ok) == (multiplier.spec_effective_row_height(options.transpose_input0) == old(
            product,
        ).spec_row_height() && multiplicant.spec_effective_column_width(options.transpose_input1)
            == old(product).spec_column_width() && multiplier.spec_effective_column_width(
            options.transpose_input0,
        ) == multiplicant.spec_effective_row_height(options.transpose_input1) && (
        mask.spec_select_all() || (mask.spec_mask_row_height() == old(product).spec_row_height()
            && mask.spec_mask_column_width() == old(product).spec_column_width()))),
        result matches Err(error) ==> error == SparseLinearAlgebraError::DimensionMismatch
            && *final (product) == *old(product),
        result is Ok ==> final (product).wf() && final (product).spec_row_height() == old(
            product,
        ).spec_row_height() && final (product).spec_column_width() == old(
            product,
        ).spec_column_width() && final (product).spec_context() == old(product).spec_context()
            && forall|r: int, c: int|
            0 <= r < old(product).spec_row_height() && 0 <= c < old(product).spec_column_width()
                ==> final (product).spec_entry(r, c) == written_entry(
                old(product).spec_entry(r, c),
                matrix_product_entry(
                    addition,
                    multiplication,
                    *multiplier,
                    options.transpose_input0,
                    *multiplicant,
                    options.transpose_input1,
                    r,
                    c,
                ),
                mask_matrix_coordinate_selected(mask, options, r, c),
                options.clear_output_before_use,
                accumulator,
            ),
{
    let height = product.row_height();
    let width = product.column_width();
    let inner = multiplier.effective_column_width(options.transpose_input0);
    if multiplier.effective_row_height(options.transpose_input0) != height
        || multiplicant.effective_column_width(options.transpose_input1) != width
        || multiplicant.effective_row_height(options.transpose_input1) != inner {
        return Err(SparseLinearAlgebraError::DimensionMismatch);
    }
    let select_all = mask.mask_select_all();
    if !select_all && (mask.mask_row_height() != height || mask.mask_column_width() != width) {
        return Err(SparseLinearAlgebraError::DimensionMismatch);
    }
    let structural = options.use_mask_structure_of_stored_values_as_mask;
    let complement = options.use_mask_complement;
    let replace = options.clear_output_before_use;
    let mut new_rows: Vec<Vec<Option<i64>>> = Vec::new();
    let mut row: usize = 0;
    while row < height
        invariant
            multiplier.wf(),
            multiplicant.wf(),
            product.wf(),
            mask.spec_mask_well_formed(),
            height as nat == product.spec_row_height(),
            width as nat == product.spec_column_width(),
            multiplier.spec_effective_row_height(options.transpose_input0) == height as nat,
            multiplier.spec_effective_column_width(options.transpose_input0) == inner as nat,
            multiplicant.spec_effective_row_height(options.transpose_input1) == inner as nat,
            multiplicant.spec_effective_column_width(options.transpose_input1) == width as nat,
            select_all == mask.spec_select_all(),
            !select_all ==> mask.spec_mask_row_height() == height as nat
                && mask.spec_mask_column_width() == width as nat,
            structural == options.use_mask_structure_of_stored_values_as_mask,
            complement == options.use_mask_complement,
            replace == options.clear_output_before_use,
            row <= height,
            new_rows@.len() == row as nat,
            forall|r: int| 0 <= r < row ==> (#[trigger] new_rows@[r])@.len() == width as nat,
            forall|r: int, c: int|
                0 <= r < row && 0 <= c < width ==> #[trigger] new_rows@[r]@[c] == written_entry(
                    product.spec_entry(r, c),
                    matrix_product_entry(
                        addition,
                        multiplication,
                        *multiplier,
                        options.transpose_input0,
                        *multiplicant,
                        options.transpose_input1,
                        r,
                        c,
                    ),
                    mask_matrix_coordinate_selected(mask, options, r, c),
                    options.clear_output_before_use,
                    accumulator,
                ),
        decreases height - row,
    {
        let mut new_row: Vec<Option<i64>> = Vec::new();
        let mut column: usize = 0;
        while column < width
            invariant
                multiplier.wf(),
                multiplicant.wf(),
                product.wf(),
                mask.spec_mask_well_formed(),
                height as nat == product.spec_row_height(),
                width as nat == product.spec_column_width(),
                multiplier.spec_effective_row_height(options.transpose_input0) == height as nat,
                multiplier.spec_effective_column_width(options.transpose_input0) == inner as nat,
                multiplicant.spec_effective_row_height(options.transpose_input1) == inner as nat,
                multiplicant.spec_effective_column_width(options.transpose_input1)
                    == width as nat,
                select_all == mask.spec_select_all(),
                !select_all ==> mask.spec_mask_row_height() == height as nat
                    && mask.spec_mask_column_width() == width as nat,
                structural == options.use_mask_structure_of_stored_values_as_mask,
                complement == options.use_mask_complement,
                replace == options.clear_output_before_use,
                row < height,
                column <= width,
                new_row@.len() == column as nat,
                forall|c: int| 0 <= c < column ==> #[trigger] new_row@[c] == written_entry(
                    product.spec_entry(row as int, c),
                    matrix_product_entry(
                        addition,
                        multiplication,
                        *multiplier,
                        options.transpose_input0,
                        *multiplicant,
                        options.transpose_input1,
                        row as int,
                        c,
                    ),
                    mask_matrix_coordinate_selected(mask, options, row as int, c),
                    options.clear_output_before_use,
                    accumulator,
                ),
            decreases width - column,
        {
            let ghost left_sequence = multiplier.spec_effective_row(
                options.transpose_input0,
                row as int,
            );
            let ghost right_sequence = multiplicant.spec_effective_column(
                options.transpose_input1,
                column as int,
            );
            let mut folded: Option<i64> = Option::None;
            let mut k: usize = 0;
            while k < inner
                invariant
                    multiplier.wf(),
                    multiplicant.wf(),
                    multiplier.spec_effective_row_height(options.transpose_input0)
                        == height as nat,
                    multiplier.spec_effective_column_width(options.transpose_input0)
                        == inner as nat,
                    multiplicant.spec_effective_row_height(options.transpose_input1)
                        == inner as nat,
                    multiplicant.spec_effective_column_width(options.transpose_input1)
                        == width as nat,
                    row < height,
                    column < width,
                    k <= inner,
                    left_sequence == multiplier.spec_effective_row(
                        options.transpose_input0,
                        row as int,
                    ),
                    right_sequence == multiplicant.spec_effective_column(
                        options.transpose_input1,
                        column as int,
                    ),
                    folded == semiring_fold(
                        addition,
                        multiplication,
                        left_sequence,
                        right_sequence,
                        k as int,
                    ),
                decreases inner - k,
            {
                let left = multiplier.effective_entry(options.transpose_input0, row, k);
                let right = multiplicant.effective_entry(options.transpose_input1, k, column);
                proof {
                    assert(left_sequence[k as int] == multiplier.spec_transposed_entry(
                        options.transpose_input0,
                        row as int,
                        k as int,
                    ));
                    assert(right_sequence[k as int] == multiplicant.spec_transposed_entry(
                        options.transpose_input1,
                        k as int,
                        column as int,
                    ));
                }
                folded = fold_inner_product_step(addition, multiplication, folded, left, right);
                k = k + 1;
            }
            let prior = product.stored_entry(row, column);
            let selected = if select_all {
                true
            } else {
                evaluate_entry_selected(
                    mask.mask_matrix_entry(row, column),
                    structural,
                    complement,
                )
            };
            new_row.push(evaluate_written_entry(prior, folded, selected, replace, accumulator));
            column = column + 1;
        }
        new_rows.push(new_row);
        row = row + 1;
    }
    product.assign_rows(new_rows);
    proof {
        assert forall|r: int, c: int|
            0 <= r < old(product).spec_row_height() && 0 <= c < old(
                product,
            ).spec_column_width() implies product.spec_entry(r, c) == written_entry(
            old(product).spec_entry(r, c),
            matrix_product_entry(
                addition,
                multiplication,
                *multiplier,
                options.transpose_input0,
                *multiplicant,
                options.transpose_input1,
                r,
                c,
            ),
            mask_matrix_coordinate_selected(mask, options, r, c),
            options.clear_output_before_use,
            accumulator,
        ) by {
            assert(product.spec_rows()[r] == new_rows@[r]@);
            assert(new_rows@[r]@[c] == written_entry(
                old(product).spec_entry(r, c),
                matrix_product_entry(
                    addition,
                    multiplication,
                    *multiplier,
                    options.transpose_input0,
                    *multiplicant,
                    options.transpose_input1,
                    r,
                    c,
                ),
                mask_matrix_coordinate_selected(mask, options, r, c),
                options.clear_output_before_use,
                accumulator,
            ));
        };
    }
    Ok(())
}

/// Computes one generalized matrix-vector product into the output, through
/// the accumulator and under the mask. Fails with `DimensionMismatch`,
/// leaving the output unchanged, iff the operands' dimensions (the matrix
/// as transposed by the options) do not agree with each other, with the
/// output or with the mask.
fn apply_matrix_vector_multiplication<Mask: VectorMask>(
    addition: BinaryFunction,
    multiplication: BinaryFunction,
    accumulator: AccumulatorFunction,
    options: OperatorOptions,
    mask: &Mask,
    multiplier: &SparseMatrix,
    multiplicant: &SparseVector,
    product: &mut SparseVector,
) -> (result: Result<(), SparseLinearAlgebraError>)
    requires
        multiplier.wf(),
    ensures
        (result is Ok) == (multiplier.spec_effective_row_height(options.transpose_input0) == old(
            product,
        ).spec_length() && multiplier.spec_effective_column_width(options.transpose_input0)
            == multiplicant.spec_length() && (mask.spec_select_all() || mask.spec_mask_length()
            == old(product).spec_length())),
        result matches Err(error) ==> error == SparseLinearAlgebraError::DimensionMismatch
            && *final (product) == *old(product),
        result is Ok ==> final (product).spec_length() == old(product).spec_length() && final (
        product).spec_context() == old(product).spec_context() && forall|i: int|
            0 <= i < old(product).spec_length() ==> final (product).spec_entry(i) == written_entry(
                old(product).spec_entry(i),
                matrix_vector_product_entry(
                    addition,
                    multiplication,
                    *multiplier,
                    options.transpose_input0,
                    *multiplicant,
                    i,
                ),
                mask_coordinate_selected(mask, options, i),
                options.clear_output_before_use,
                accumulator,
            ),
{
    let length = product.length();
    let inner = multiplier.effective_column_width(options.transpose_input0);
    if multiplier.effective_row_height(options.transpose_input0) != length
        || multiplicant.length() != inner {
        return Err(SparseLinearAlgebraError::DimensionMismatch);
    }
    let select_all = mask.mask_select_all();
    if !select_all && mask.mask_length() != length {
        return Err(SparseLinearAlgebraError::DimensionMismatch);
    }
    let structural = options.use_mask_structure_of_stored_values_as_mask;
    let complement = options.use_mask_complement;
    let replace = options.clear_output_before_use;
    let mut new_values: Vec<Option<i64>> = Vec::new();
    let mut index: usize = 0;
    while index < length
        invariant
            multiplier.wf(),
            length as nat == product.spec_length(),
            multiplier.spec_effective_row_height(options.transpose_input0) == length as nat,
            multiplier.spec_effective_column_width(options.transpose_input0) == inner as nat,
            multiplicant.spec_length() == inner as nat,
            select_all == mask.spec_select_all(),
            !select_all ==> mask.spec_mask_length() == product.spec_length(),
            structural == options.use_mask_structure_of_stored_values_as_mask,
            complement == options.use_mask_complement,
            replace == options.clear_output_before_use,
            index <= length,
            new_values@.len() == index as nat,
            forall|i: int| 0 <= i < index ==> new_values@[i] == written_entry(
                product.spec_entry(i),
                matrix_vector_product_entry(
                    addition,
                    multiplication,
                    *multiplier,
                    options.transpose_input0,
                    *multiplicant,
                    i,
                ),
                mask_coordinate_selected(mask, options, i),
                options.clear_output_before_use,
                accumulator,
            ),
        decreases length - index,
    {
        let ghost left_sequence = multiplier.spec_effective_row(
            options.transpose_input0,
            index as int,
        );
        let mut folded: Option<i64> = Option::None;
        let mut k: usize = 0;
        while k < inner
            invariant
                multiplier.wf(),
                length as nat == product.spec_length(),
                multiplier.spec_effective_row_height(options.transpose_input0) == length as nat,
                multiplier.spec_effective_column_width(options.transpose_input0) == inner as nat,
                multiplicant.spec_length() == inner as nat,
                index < length,
                k <= inner,
                left_sequence == multiplier.spec_effective_row(
                    options.transpose_input0,
                    index as int,
                ),
                folded == semiring_fold(
                    addition,
                    multiplication,
                    left_sequence,
                    multiplicant.spec_values(),
                    k as int,
                ),
            decreases inner - k,
        {
            let left = multiplier.effective_entry(options.transpose_input0, index, k);
            let right = multiplicant.stored_entry(k);
            proof {
                assert(left_sequence[k as int] == multiplier.spec_transposed_entry(
                    options.transpose_input0,
                    index as int,
                    k as int,
                ));
            }
            folded = fold_inner_product_step(addition, multiplication, folded, left, right);
            k = k + 1;
        }
        let prior = product.stored_entry(index);
        let selected = if select_all {
            true
        } else {
            evaluate_entry_selected(mask.mask_entry(index), structural, complement)
        };
        new_values.push(evaluate_written_entry(prior, folded, selected, replace, accumulator));
        index = index + 1;
    }
    product.assign_values(new_values);
    Ok(())
}

/// The matrix multiplication applier: binds one semiring, accumulator and
/// option set, immutable after construction.
#[derive(Clone, Copy, Debug)]
pub struct MatrixMultiplicationOperator {
    accumulator: AccumulatorFunction,
    semiring_addition: BinaryFunction,
    semiring_multiplication: BinaryFunction,
    options: OperatorOptions,
}

impl MatrixMultiplicationOperator {
    pub fn new<Multiplication: Semiring, Accumulator: AccumulatorBinaryOperator>(
        semiring: &Multiplication,
        options: &OperatorOptions,
        accumulator: &Accumulator,
    ) -> (applier: MatrixMultiplicationOperator)
        ensures
            applier.spec_addition_function() == semiring.spec_addition_function(),
            applier.spec_multiplication_function() == semiring.spec_multiplication_function(),
            applier.spec_accumulator_function() == accumulator.spec_accumulator_function(),
            applier.spec_options() == *options,
    {
        MatrixMultiplicationOperator {
            accumulator: accumulator.accumulator_function(),
            semiring_addition: semiring.addition_function(),
            semiring_multiplication: semiring.multiplication_function(),
            options: *options,
        }
    }
}

pub trait MultiplyMatrices {
    /// The semiring "add" side the applier was built with.
    spec fn spec_addition_function(&self) -> BinaryFunction;

    /// The semiring "multiply" side the applier was built with.
    spec fn spec_multiplication_function(&self) -> BinaryFunction;

    /// The accumulator the applier was built with.
    spec fn spec_accumulator_function(&self) -> AccumulatorFunction;

    /// The options the applier was built with.
    spec fn spec_options(&self) -> OperatorOptions;

    /// Multiplies two matrices over the semiring, writing every coordinate
    /// of the output. Fails with `DimensionMismatch`, leaving the output
    /// unchanged, iff the operands' dimensions (as transposed by the
    /// options) do not agree with each other or with the output.
    fn apply(
        &self,
        multiplier: &SparseMatrix,
        multiplicant: &SparseMatrix,
        product: &mut SparseMatrix,
    ) -> (result: Result<(), SparseLinearAlgebraError>)
        requires
            multiplier.wf(),
            multiplicant.wf(),
            old(product).wf(),
        ensures
            (result is Ok) == (multiplier.spec_effective_row_height(
                self.spec_options().transpose_input0,
            ) == old(product).spec_row_height() && multiplicant.spec_effective_column_width(
                self.spec_options().transpose_input1,
            ) == old(product).spec_column_width() && multiplier.spec_effective_column_width(
                self.spec_options().transpose_input0,
            ) == multiplicant.spec_effective_row_height(self.spec_options().transpose_input1)),
            result matches Err(error) ==> error == SparseLinearAlgebraError::DimensionMismatch
                && *final (product) == *old(product),
            result is Ok ==> final (product).wf() && final (product).spec_row_height() == old(
                product,
            ).spec_row_height() && final (product).spec_column_width() == old(
                product,
            ).spec_column_width() && final (product).spec_context() == old(
                product,
            ).spec_context() && forall|r: int, c: int|
                0 <= r < old(product).spec_row_height() && 0 <= c < old(
                    product,
                ).spec_column_width() ==> final (product).spec_entry(r, c) == written_entry(
                    old(product).spec_entry(r, c),
                    matrix_product_entry(
                        self.spec_addition_function(),
                        self.spec_multiplication_function(),
                        *multiplier,
                        self.spec_options().transpose_input0,
                        *multiplicant,
                        self.spec_options().transpose_input1,
                        r,
                        c,
                    ),
                    true,
                    self.spec_options().clear_output_before_use,
                    self.spec_accumulator_function(),
                ),
    ;

    /// Multiplies two matrices over the semiring, restricted by the mask.
    /// Fails with `DimensionMismatch`, leaving the output unchanged, iff
    /// the operands' dimensions (as transposed by the options) do not agree
    /// with each other, with the output or with the mask.
    fn apply_with_mask(
        &self,
        mask: &SparseMatrix,
        multiplier: &SparseMatrix,
        multiplicant: &SparseMatrix,
        product: &mut SparseMatrix,
    ) -> (result: Result<(), SparseLinearAlgebraError>)
        requires
            mask.wf(),
            multiplier.wf(),
            multiplicant.wf(),
            old(product).wf(),
        ensures
            (result is Ok) == (multiplier.spec_effective_row_height(
                self.spec_options().transpose_input0,
            ) == old(product).spec_row_height() && multiplicant.spec_effective_column_width(
                self.spec_options().transpose_input1,
            ) == old(product).spec_column_width() && multiplier.spec_effective_column_width(
                self.spec_options().transpose_input0,
            ) == multiplicant.spec_effective_row_height(self.spec_options().transpose_input1)
                && mask.spec_row_height() == old(product).spec_row_height()
                && mask.spec_column_width() == old(product).spec_column_width()),
            result matches Err(error) ==> error == SparseLinearAlgebraError::DimensionMismatch
                && *final (product) == *old(product),
            result is Ok ==> final (product).wf() && final (product).spec_row_height() == old(
                product,
            ).spec_row_height() && final (product).spec_column_width() == old(
                product,
            ).spec_column_width() && final (product).spec_context() == old(
                product,
            ).spec_context() && forall|r: int, c: int|
                0 <= r < old(product).spec_row_height() && 0 <= c < old(
                    product,
                ).spec_column_width() ==> final (product).spec_entry(r, c) == written_entry(
                    old(product).spec_entry(r, c),
                    matrix_product_entry(
                        self.spec_addition_function(),
                        self.spec_multiplication_function(),
                        *multiplier,
                        self.spec_options().transpose_input0,
                        *multiplicant,
                        self.spec_options().transpose_input1,
                        r,
                        c,
                    ),
                    mask_matrix_coordinate_selected(mask, self.spec_options(), r, c),
                    self.spec_options().clear_output_before_use,
                    self.spec_accumulator_function(),
                ),
    ;
}

impl MultiplyMatrices for MatrixMultiplicationOperator {
    closed spec fn spec_addition_function(&self) -> BinaryFunction {
        self.semiring_addition
    }

    closed spec fn spec_multiplication_function(&self) -> BinaryFunction {
        self.semiring_multiplication
    }

    closed spec fn spec_accumulator_function(&self) -> AccumulatorFunction {
        self.accumulator
    }

    closed spec fn spec_options(&self) -> OperatorOptions {
        self.options
    }

    fn apply(
        &self,
        multiplier: &SparseMatrix,
        multiplicant: &SparseMatrix,
        product: &mut SparseMatrix,
    ) -> (result: Result<(), SparseLinearAlgebraError>) {
        let select_all = SelectEntireMatrix::new(&product.context());
        apply_matrix_multiplication(
            self.semiring_addition,
            self.semiring_multiplication,
            self.accumulator,
            self.options,
            &select_all,
            multiplier,
            multiplicant,
            product,
        )
    }

    fn apply_with_mask(
        &self,
        mask: &SparseMatrix,
        multiplier: &SparseMatrix,
        multiplicant: &SparseMatrix,
        product: &mut SparseMatrix,
    ) -> (result: Result<(), SparseLinearAlgebraError>) {
        apply_matrix_multiplication(
            self.semiring_addition,
            self.semiring_multiplication,
            self.accumulator,
            self.options,
            mask,
            multiplier,
            multiplicant,
            product,
        )
    }
}

/// The matrix-vector multiplication applier. The semiring, accumulator and
/// options are bound per call.
#[derive(Clone, Copy, Debug)]
pub struct MatrixVectorMultiplicationOperator {}

impl MatrixVectorMultiplicationOperator {
    pub fn new() -> (applier: MatrixVectorMultiplicationOperator) {
        MatrixVectorMultiplicationOperator {}
    }
}

pub trait MultiplyMatrixByVector {
    /// Multiplies a matrix by a vector over the semiring, writing every
    /// coordinate of the output. Fails with `DimensionMismatch`, leaving
    /// the output unchanged, iff the operands' dimensions (the matrix as
    /// transposed by the options) do not agree with each other or with the
    /// output.
    fn apply<Operator: Semiring, Accumulator: AccumulatorBinaryOperator>(
        &self,
        multiplier: &SparseMatrix,
        operator: &Operator,
        multiplicant: &SparseVector,
        accumulator: &Accumulator,
        product: &mut SparseVector,
        options: &OperatorOptions,
    ) -> (result: Result<(), SparseLinearAlgebraError>)
        requires
            multiplier.wf(),
        ensures
            (result is Ok) == (multiplier.spec_effective_row_height(options.transpose_input0)
                == old(product).spec_length() && multiplier.spec_effective_column_width(
                options.transpose_input0,
            ) == multiplicant.spec_length()),
            result matches Err(error) ==> error == SparseLinearAlgebraError::DimensionMismatch
                && *final (product) == *old(product),
            result is Ok ==> final (product).spec_length() == old(product).spec_length()
                && final (product).spec_context() == old(product).spec_context() && forall|
                i: int,
            |
                0 <= i < old(product).spec_length() ==> final (product).spec_entry(i)
                    == written_entry(
                    old(product).spec_entry(i),
                    matrix_vector_product_entry(
                        operator.spec_addition_function(),
                        operator.spec_multiplication_function(),
                        *multiplier,
                        options.transpose_input0,
                        *multiplicant,
                        i,
                    ),
                    true,
                    options.clear_output_before_use,
                    accumulator.spec_accumulator_function(),
                ),
    ;

    /// Multiplies a matrix by a vector over the semiring, restricted by the
    /// mask. Fails with `DimensionMismatch`, leaving the output unchanged,
    /// iff the operands' dimensions (the matrix as transposed by the
    /// options) do not agree with each other, with the output or with the
    /// mask.
    fn apply_with_mask<Operator: Semiring, Accumulator: AccumulatorBinaryOperator>(
        &self,
        multiplier: &SparseMatrix,
        operator: &Operator,
        multiplicant: &SparseVector,
        accumulator: &Accumulator,
        product: &mut SparseVector,
        mask: &SparseVector,
        options: &OperatorOptions,
    ) -> (result: Result<(), SparseLinearAlgebraError>)
        requires
            multiplier.wf(),
        ensures
            (result is Ok) == (multiplier.spec_effective_row_height(options.transpose_input0)
                == old(product).spec_length() && multiplier.spec_effective_column_width(
                options.transpose_input0,
            ) == multiplicant.spec_length() && mask.spec_length() == old(
                product,
            ).spec_length()),
            result matches Err(error) ==> error == SparseLinearAlgebraError::DimensionMismatch
                && *final (product) == *old(product),
            result is Ok ==> final (product).spec_length() == old(product).spec_length()
                && final (product).spec_context() == old(product).spec_context() && forall|
                i: int,
            |
                0 <= i < old(product).spec_length() ==> final (product).spec_entry(i)
                    == written_entry(
                    old(product).spec_entry(i),
                    matrix_vector_product_entry(
                        operator.spec_addition_function(),
                        operator.spec_multiplication_function(),
                        *multiplier,
                        options.transpose_input0,
                        *multiplicant,
                        i,
                    ),
                    mask_coordinate_selected(mask, *options, i),
                    options.clear_output_before_use,
                    accumulator.spec_accumulator_function(),
                ),
    ;
}

impl MultiplyMatrixByVector for MatrixVectorMultiplicationOperator {
    fn apply<Operator: Semiring, Accumulator: AccumulatorBinaryOperator>(
        &self,
        multiplier: &SparseMatrix,
        operator: &Operator,
        multiplicant: &SparseVector,
        accumulator: &Accumulator,
        product: &mut SparseVector,
        options: &OperatorOptions,
    ) -> (result: Result<(), SparseLinearAlgebraError>) {
        let select_all = SelectEntireVector::new(&product.context());
        apply_matrix_vector_multiplication(
            operator.addition_function(),
            operator.multiplication_function(),
            accumulator.accumulator_function(),
            *options,
            &select_all,
            multiplier,
            multiplicant,
            product,
        )
    }

    fn apply_with_mask<Operator: Semiring, Accumulator: AccumulatorBinaryOperator>(
        &self,
        multiplier: &SparseMatrix,
        operator: &Operator,
        multiplicant: &SparseVector,
        accumulator: &Accumulator,
        product: &mut SparseVector,
        mask: &SparseVector,
        options: &OperatorOptions,
    ) -> (result: Result<(), SparseLinearAlgebraError>) {
        apply_matrix_vector_multiplication(
            operator.addition_function(),
            operator.multiplication_function(),
            accumulator.accumulator_function(),
            *options,
            mask,
            multiplier,
            multiplicant,
            product,
        )
    }
}

} // verus!
