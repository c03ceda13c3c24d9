//! Element-wise addition appliers: combination over the union of the two
//! operands' stored coordinates.
//!
//! A coordinate present in only one operand forwards that operand's value
//! unchanged; a coordinate present in both combines them through the
//! algebraic add (a binary operator, a monoid's operation, or a semiring's
//! "add" side). The result is written through the accumulator, restricted by
//! the mask.

use vstd::prelude::*;

use crate::collections::sparse_vector::SparseVector;
use crate::error::SparseLinearAlgebraError;
use crate::operators::binary_operator::{
    AccumulatorBinaryOperator, AccumulatorFunction, BinaryFunction, BinaryOperator,
};
use crate::operators::mask::{
    evaluate_entry_selected, mask_coordinate_selected, SelectEntireVector, VectorMask,
};
use crate::operators::monoid::Monoid;
use crate::operators::options::OperatorOptions;
use crate::operators::semantics::{
    element_wise_union_entry, evaluate_element_wise_union_entry, evaluate_written_entry,
    written_entry,
};
use crate::operators::semiring::Semiring;

verus! {

/// Whether the operands, output and mask of one element-wise vector
/// operation agree in dimension.
pub open spec fn element_wise_vector_dimensions_compatible<Mask: VectorMask>(
    mask: &Mask,
    multiplier: SparseVector,
    multiplicant: SparseVector,
    product: SparseVector,
) -> bool {
    &&& multiplier.spec_length() == product.spec_length()
    &&& multiplicant.spec_length() == product.spec_length()
    &&& (mask.spec_select_all() || mask.spec_mask_length() == product.spec_length())
}

/// Computes one element-wise union combination over two vectors into the
/// output, through the accumulator and under the mask. Fails with
/// `DimensionMismatch`, leaving the output unchanged, iff an operand's or
/// the mask's dimension differs from the output's.
fn apply_element_wise_vector_addition<Mask: VectorMask>(
    addition: BinaryFunction,
    accumulator: AccumulatorFunction,
    options: OperatorOptions,
    mask: &Mask,
    multiplier: &SparseVector,
    multiplicant: &SparseVector,
    product: &mut SparseVector,
) -> (result: Result<(), SparseLinearAlgebraError>)
    ensures
        (result is Ok) == element_wise_vector_dimensions_compatible(
            mask,
            *multiplier,
            *multiplicant,
            *old(product),
        ),
        result matches Err(error) ==> error == SparseLinearAlgebraError::DimensionMismatch
            && *final (product) == *old(product),
        result is Ok ==> final (product).spec_length() == old(product).spec_length() && final (
        product).spec_context() == old(product).spec_context() && forall|i: int|
            0 <= i < old(product).spec_length() ==> final (product).spec_entry(i) == written_entry(
                old(product).spec_entry(i),
                element_wise_union_entry(
                    addition,
                    multiplier.spec_entry(i),
                    multiplicant.spec_entry(i),
                ),
                mask_coordinate_selected(mask, options, i),
                options.clear_output_before_use,
                accumulator,
            ),
{
    let length = product.length();
    if multiplier.length() != length || multiplicant.length() != length {
        return Err(SparseLinearAlgebraError::DimensionMismatch);
    }
    let select_all = mask.mask_select_all();
    if !select_all && mask.mask_length() != length {
        return Err(SparseLinearAlgebraError::DimensionMismatch);
    }
    let structural = options.use_mask_structure_of_stored_values_as_mask;
    let complement = options.use_mask_complement;
    let replace = options.clear_output_before_use;
    let mut new_values: Vec<Option<i64>> = Vec::new();
    let mut index: usize = 0;
    while index < length
        invariant
            length as nat == product.spec_length(),
            multiplier.spec_length() == product.spec_length(),
            multiplicant.spec_length() == product.spec_length(),
            select_all == mask.spec_select_all(),
            !select_all ==> mask.spec_mask_length() == product.spec_length(),
            structural == options.use_mask_structure_of_stored_values_as_mask,
            complement == options.use_mask_complement,
            replace == options.clear_output_before_use,
            index <= length,
            new_values@.len() == index as nat,
            forall|i: int| 0 <= i < index ==> new_values@[i] == written_entry(
                product.spec_entry(i),
                element_wise_union_entry(
                    addition,
                    multiplier.spec_entry(i),
                    multiplicant.spec_entry(i),
                ),
                mask_coordinate_selected(mask, options, i),
                options.clear_output_before_use,
                accumulator,
            ),
        decreases length - index,
    {
        let prior = product.stored_entry(index);
        let computed = evaluate_element_wise_union_entry(
            addition,
            multiplier.stored_entry(index),
            multiplicant.stored_entry(index),
        );
        let selected = if select_all {
            true
        } else {
            evaluate_entry_selected(mask.mask_entry(index), structural, complement)
        };
        new_values.push(evaluate_written_entry(prior, computed, selected, replace, accumulator));
        index = index + 1;
    }
    product.assign_values(new_values);
    Ok(())
}

/// The element-wise vector addition applier built from a semiring: its
/// "add" side combines coordinates stored by both operands.
#[derive(Clone, Copy, Debug)]
pub struct ElementWiseVectorAdditionSemiringOperator {
    multiplication_operator: BinaryFunction,
    accumulator: AccumulatorFunction,
    options: OperatorOptions,
}

impl ElementWiseVectorAdditionSemiringOperator {
    pub fn new<Multiplication: Semiring, Accumulator: AccumulatorBinaryOperator>(
        multiplication_operator: &Multiplication,
        options: &OperatorOptions,
        accumulator: &Accumulator,
    ) -> (applier: ElementWiseVectorAdditionSemiringOperator)
        ensures
            applier.spec_addition_function()
                == multiplication_operator.spec_addition_function(),
            applier.spec_accumulator_function() == accumulator.spec_accumulator_function(),
            applier.spec_options() == *options,
    {
        ElementWiseVectorAdditionSemiringOperator {
            multiplication_operator: multiplication_operator.addition_function(),
            accumulator: accumulator.accumulator_function(),
            options: *options,
        }
    }
}

pub trait ApplyElementWiseVectorAdditionSemiringOperator {
    /// The algebraic add the applier was built with.
    spec fn spec_addition_function(&self) -> BinaryFunction;

    /// The accumulator the applier was built with.
    spec fn spec_accumulator_function(&self) -> AccumulatorFunction;

    /// The options the applier was built with.
    spec fn spec_options(&self) -> OperatorOptions;

    /// Applies the element-wise addition, writing every coordinate of the
    /// output. Fails with `DimensionMismatch`, leaving the output
    /// unchanged, iff an operand's dimension differs from the output's.
    fn apply(
        &self,
        multiplier: &SparseVector,
        multiplicant: &SparseVector,
        product: &mut SparseVector,
    ) -> (result: Result<(), SparseLinearAlgebraError>)
        ensures
            (result is Ok) == (multiplier.spec_length() == old(product).spec_length()
                && multiplicant.spec_length() == old(product).spec_length()),
            result matches Err(error) ==> error == SparseLinearAlgebraError::DimensionMismatch
                && *final (product) == *old(product),
            result is Ok ==> final (product).spec_length() == old(product).spec_length()
                && final (product).spec_context() == old(product).spec_context() && forall|
                i: int,
            |
                0 <= i < old(product).spec_length() ==> final (product).spec_entry(i)
                    == written_entry(
                    old(product).spec_entry(i),
                    element_wise_union_entry(
                        self.spec_addition_function(),
                        multiplier.spec_entry(i),
                        multiplicant.spec_entry(i),
                    ),
                    true,
                    self.spec_options().clear_output_before_use,
                    self.spec_accumulator_function(),
                ),
    ;

    /// Applies the element-wise addition, restricted by the mask. Fails
    /// with `DimensionMismatch`, leaving the output unchanged, iff an
    /// operand's or the mask's dimension differs from the output's.
    fn apply_with_mask(
        &self,
        mask: &SparseVector,
        multiplier: &SparseVector,
        multiplicant: &SparseVector,
        product: &mut SparseVector,
    ) -> (result: Result<(), SparseLinearAlgebraError>)
        ensures
            (result is Ok) == (multiplier.spec_length() == old(product).spec_length()
                && multiplicant.spec_length() == old(product).spec_length()
                && mask.spec_length() == old(product).spec_length()),
            result matches Err(error) ==> error == SparseLinearAlgebraError::DimensionMismatch
                && *final (product) == *old(product),
            result is Ok ==> final (product).spec_length() == old(product).spec_length()
                && final (product).spec_context() == old(product).spec_context() && forall|
                i: int,
            |
                0 <= i < old(product).spec_length() ==> final (product).spec_entry(i)
                    == written_entry(
                    old(product).spec_entry(i),
                    element_wise_union_entry(
                        self.spec_addition_function(),
                        multiplier.spec_entry(i),
                        multiplicant.spec_entry(i),
                    ),
                    mask_coordinate_selected(mask, self.spec_options(), i),
                    self.spec_options().clear_output_before_use,
                    self.spec_accumulator_function(),
                ),
    ;
}

impl ApplyElementWiseVectorAdditionSemiringOperator for ElementWiseVectorAdditionSemiringOperator {
    closed spec fn spec_addition_function(&self) -> BinaryFunction {
        self.multiplication_operator
    }

    closed spec fn spec_accumulator_function(&self) -> AccumulatorFunction {
        self.accumulator
    }

    closed spec fn spec_options(&self) -> OperatorOptions {
        self.options
    }

    fn apply(
        &self,
        multiplier: &SparseVector,
        multiplicant: &SparseVector,
        product: &mut SparseVector,
    ) -> (result: Result<(), SparseLinearAlgebraError>) {
        let select_all = SelectEntireVector::new(&product.context());
        apply_element_wise_vector_addition(
            self.multiplication_operator,
            self.accumulator,
            self.options,
            &select_all,
            multiplier,
            multiplicant,
            product,
        )
    }

    fn apply_with_mask(
        &self,
        mask: &SparseVector,
        multiplier: &SparseVector,
        multiplicant: &SparseVector,
        product: &mut SparseVector,
    ) -> (result: Result<(), SparseLinearAlgebraError>) {
        apply_element_wise_vector_addition(
            self.multiplication_operator,
            self.accumulator,
            self.options,
            mask,
            multiplier,
            multiplicant,
            product,
        )
    }
}

/// The element-wise vector addition applier built from a monoid: its
/// operation combines coordinates stored by both operands.
#[derive(Clone, Copy, Debug)]
pub struct ElementWiseVectorAdditionMonoidOperator {
    multiplication_operator: BinaryFunction,
    accumulator: AccumulatorFunction,
    options: OperatorOptions,
}

impl ElementWiseVectorAdditionMonoidOperator {
    pub fn new<Multiplication: Monoid, Accumulator: AccumulatorBinaryOperator>(
        multiplication_operator: &Multiplication,
        options: &OperatorOptions,
        accumulator: &Accumulator,
    ) -> (applier: ElementWiseVectorAdditionMonoidOperator)
        ensures
            applier.spec_addition_function() == multiplication_operator.spec_monoid_function(),
            applier.spec_accumulator_function() == accumulator.spec_accumulator_function(),
            applier.spec_options() == *options,
    {
        ElementWiseVectorAdditionMonoidOperator {
            multiplication_operator: multiplication_operator.monoid_function(),
            accumulator: accumulator.accumulator_function(),
            options: *options,
        }
    }
}

pub trait ApplyElementWiseVectorAdditionMonoidOperator {
    /// The algebraic add the applier was built with.
    spec fn spec_addition_function(&self) -> BinaryFunction;

    /// The accumulator the applier was built with.
    spec fn spec_accumulator_function(&self) -> AccumulatorFunction;

    /// The options the applier was built with.
    spec fn spec_options(&self) -> OperatorOptions;

    /// Applies the element-wise addition, writing every coordinate of the
    /// output. Fails with `DimensionMismatch`, leaving the output
    /// unchanged, iff an operand's dimension differs from the output's.
    fn apply(
        &self,
        multiplier: &SparseVector,
        multiplicant: &SparseVector,
        product: &mut SparseVector,
    ) -> (result: Result<(), SparseLinearAlgebraError>)
        ensures
            (result is Ok) == (multiplier.spec_length() == old(product).spec_length()
                && multiplicant.spec_length() == old(product).spec_length()),
            result matches Err(error) ==> error == SparseLinearAlgebraError::DimensionMismatch
                && *final (product) == *old(product),
            result is Ok ==> final (product).spec_length() == old(product).spec_length()
                && final (product).spec_context() == old(product).spec_context() && forall|
                i: int,
            |
                0 <= i < old(product).spec_length() ==> final (product).spec_entry(i)
                    == written_entry(
                    old(product).spec_entry(i),
                    element_wise_union_entry(
                        self.spec_addition_function(),
                        multiplier.spec_entry(i),
                        multiplicant.spec_entry(i),
                    ),
                    true,
                    self.spec_options().clear_output_before_use,
                    self.spec_accumulator_function(),
                ),
    ;

    /// Applies the element-wise addition, restricted by the mask. Fails
    /// with `DimensionMismatch`, leaving the output unchanged, iff an
    /// operand's or the mask's dimension differs from the output's.
    fn apply_with_mask(
        &self,
        mask: &SparseVector,
        multiplier: &SparseVector,
        multiplicant: &SparseVector,
        product: &mut SparseVector,
    ) -> (result: Result<(), SparseLinearAlgebraError>)
        ensures
            (result is Ok) == (multiplier.spec_length() == old(product).spec_length()
                && multiplicant.spec_length() == old(product).spec_length()
                && mask.spec_length() == old(product).spec_length()),
            result matches Err(error) ==> error == SparseLinearAlgebraError::DimensionMismatch
                && *final (product) == *old(product),
            result is Ok ==> final (product).spec_length() == old(product).spec_length()
                && final (product).spec_context() == old(product).spec_context() && forall|
                i: int,
            |
                0 <= i < old(product).spec_length() ==> final (product).spec_entry(i)
                    == written_entry(
                    old(product).spec_entry(i),
                    element_wise_union_entry(
                        self.spec_addition_function(),
                        multiplier.spec_entry(i),
                        multiplicant.spec_entry(i),
                    ),
                    mask_coordinate_selected(mask, self.spec_options(), i),
                    self.spec_options().clear_output_before_use,
                    self.spec_accumulator_function(),
                ),
    ;
}

impl ApplyElementWiseVectorAdditionMonoidOperator for ElementWiseVectorAdditionMonoidOperator {
    closed spec fn spec_addition_function(&self) -> BinaryFunction {
        self.multiplication_operator
    }

    closed spec fn spec_accumulator_function(&self) -> AccumulatorFunction {
        self.accumulator
    }

    closed spec fn spec_options(&self) -> OperatorOptions {
        self.options
    }

    fn apply(
        &self,
        multiplier: &SparseVector,
        multiplicant: &SparseVector,
        product: &mut SparseVector,
    ) -> (result: Result<(), SparseLinearAlgebraError>) {
        let select_all = SelectEntireVector::new(&product.context());
        apply_element_wise_vector_addition(
            self.multiplication_operator,
            self.accumulator,
            self.options,
            &select_all,
            multiplier,
            multiplicant,
            product,
        )
    }

    fn apply_with_mask(
        &self,
        mask: &SparseVector,
        multiplier: &SparseVector,
        multiplicant: &SparseVector,
        product: &mut SparseVector,
    ) -> (result: Result<(), SparseLinearAlgebraError>) {
        apply_element_wise_vector_addition(
            self.multiplication_operator,
            self.accumulator,
            self.options,
            mask,
            multiplier,
            multiplicant,
            product,
        )
    }
}

/// The element-wise vector addition applier built from a plain binary
/// operator combining coordinates stored by both operands.
#[derive(Clone, Copy, Debug)]
pub struct ElementWiseVectorAdditionBinaryOperator {
    multiplication_operator: BinaryFunction,
    accumulator: AccumulatorFunction,
    options: OperatorOptions,
}

impl ElementWiseVectorAdditionBinaryOperator {
    pub fn new<Multiplication: BinaryOperator, Accumulator: AccumulatorBinaryOperator>(
        multiplication_operator: &Multiplication,
        options: &OperatorOptions,
        accumulator: &Accumulator,
    ) -> (applier: ElementWiseVectorAdditionBinaryOperator)
        ensures
            applier.spec_addition_function() == multiplication_operator.spec_binary_function(),
            applier.spec_accumulator_function() == accumulator.spec_accumulator_function(),
            applier.spec_options() == *options,
    {
        ElementWiseVectorAdditionBinaryOperator {
            multiplication_operator: multiplication_operator.binary_function(),
            accumulator: accumulator.accumulator_function(),
            options: *options,
        }
    }
}

pub trait ApplyElementWiseVectorAdditionBinaryOperator {
    /// The algebraic add the applier was built with.
    spec fn spec_addition_function(&self) -> BinaryFunction;

    /// The accumulator the applier was built with.
    spec fn spec_accumulator_function(&self) -> AccumulatorFunction;

    /// The options the applier was built with.
    spec fn spec_options(&self) -> OperatorOptions;

    /// Applies the element-wise addition, writing every coordinate of the
    /// output. Fails with `DimensionMismatch`, leaving the output
    /// unchanged, iff an operand's dimension differs from the output's.
    fn apply(
        &self,
        multiplier: &SparseVector,
        multiplicant: &SparseVector,
        product: &mut SparseVector,
    ) -> (result: Result<(), SparseLinearAlgebraError>)
        ensures
            (result is Ok) == (multiplier.spec_length() == old(product).spec_length()
                && multiplicant.spec_length() == old(product).spec_length()),
            result matches Err(error) ==> error == SparseLinearAlgebraError::DimensionMismatch
                && *final (product) == *old(product),
            result is Ok ==> final (product).spec_length() == old(product).spec_length()
                && final (product).spec_context() == old(product).spec_context() && forall|
                i: int,
            |
                0 <= i < old(product).spec_length() ==> final (product).spec_entry(i)
                    == written_entry(
                    old(product).spec_entry(i),
                    element_wise_union_entry(
                        self.spec_addition_function(),
                        multiplier.spec_entry(i),
                        multiplicant.spec_entry(i),
                    ),
                    true,
                    self.spec_options().clear_output_before_use,
                    self.spec_accumulator_function(),
                ),
    ;

    /// Applies the element-wise addition, restricted by the mask. Fails
    /// with `DimensionMismatch`, leaving the output unchanged, iff an
    /// operand's or the mask's dimension differs from the output's.
    fn apply_with_mask(
        &self,
        mask: &SparseVector,
        multiplier: &SparseVector,
        multiplicant: &SparseVector,
        product: &mut SparseVector,
    ) -> (result: Result<(), SparseLinearAlgebraError>)
        ensures
            (result is Ok) == (multiplier.spec_length() == old(product).spec_length()
                && multiplicant.spec_length() == old(product).spec_length()
                && mask.spec_length() == old(product).spec_length()),
            result matches Err(error) ==> error == SparseLinearAlgebraError::DimensionMismatch
                && *final (product) == *old(product),
            result is Ok ==> final (product).spec_length() == old(product).spec_length()
                && final (product).spec_context() == old(product).spec_context() && forall|
                i: int,
            |
                0 <= i < old(product).spec_length() ==> final (product).spec_entry(i)
                    == written_entry(
                    old(product).spec_entry(i),
                    element_wise_union_entry(
                        self.spec_addition_function(),
                        multiplier.spec_entry(i),
                        multiplicant.spec_entry(i),
                    ),
                    mask_coordinate_selected(mask, self.spec_options(), i),
                    self.spec_options().clear_output_before_use,
                    self.spec_accumulator_function(),
                ),
    ;
}

impl ApplyElementWiseVectorAdditionBinaryOperator for ElementWiseVectorAdditionBinaryOperator {
    closed spec fn spec_addition_function(&self) -> BinaryFunction {
        self.multiplication_operator
    }

    closed spec fn spec_accumulator_function(&self) -> AccumulatorFunction {
        self.accumulator
    }

    closed spec fn spec_options(&self) -> OperatorOptions {
        self.options
    }

    fn apply(
        &self,
        multiplier: &SparseVector,
        multiplicant: &SparseVector,
        product: &mut SparseVector,
    ) -> (result: Result<(), SparseLinearAlgebraError>) {
        let select_all = SelectEntireVector::new(&product.context());
        apply_element_wise_vector_addition(
            self.multiplication_operator,
            self.accumulator,
            self.options,
            &select_all,
            multiplier,
            multiplicant,
            product,
        )
    }

    fn apply_with_mask(
        &self,
        mask: &SparseVector,
        multiplier: &SparseVector,
        multiplicant: &SparseVector,
        product: &mut SparseVector,
    ) -> (result: Result<(), SparseLinearAlgebraError>) {
        apply_element_wise_vector_addition(
            self.multiplication_operator,
            self.accumulator,
            self.options,
            mask,
            multiplier,
            multiplicant,
            product,
        )
    }
}

} // verus!
