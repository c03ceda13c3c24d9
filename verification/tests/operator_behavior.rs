use graphblas_sparse_linear_algebra::collections::sparse_matrix::{
    MatrixElementList, Size, SparseMatrix,
};
use graphblas_sparse_linear_algebra::collections::sparse_vector::{
    SparseVector, VectorElement, VectorElementList,
};
use graphblas_sparse_linear_algebra::context::{Context, Mode};
use graphblas_sparse_linear_algebra::error::SparseLinearAlgebraError;
use graphblas_sparse_linear_algebra::index::{ElementIndex, ElementIndexSelector};
use graphblas_sparse_linear_algebra::operators::apply::{
    ApplyUnaryOperator, UnaryOperatorApplier,
};
use graphblas_sparse_linear_algebra::operators::binary_operator::{
    Assignment, First, Minus, Plus, Second, Times,
};
use graphblas_sparse_linear_algebra::operators::element_wise_addition::{
    ApplyElementWiseVectorAdditionBinaryOperator, ApplyElementWiseVectorAdditionMonoidOperator,
    ApplyElementWiseVectorAdditionSemiringOperator, ElementWiseVectorAdditionBinaryOperator,
    ElementWiseVectorAdditionMonoidOperator, ElementWiseVectorAdditionSemiringOperator,
};
use graphblas_sparse_linear_algebra::operators::element_wise_multiplication::{
    ApplyElementWiseMatrixMultiplicationMonoidOperator,
    ApplyElementWiseMatrixMultiplicationSemiring,
    ElementWiseMatrixMultiplicationMonoidOperator,
    ElementWiseMatrixMultiplicationSemiringOperator,
};
use graphblas_sparse_linear_algebra::operators::extract::{
    ExtractMatrixColumn, MatrixColumnExtractor,
};
use graphblas_sparse_linear_algebra::operators::mask::SelectEntireVector;
use graphblas_sparse_linear_algebra::operators::monoid;
use graphblas_sparse_linear_algebra::operators::multiplication::{
    MatrixMultiplicationOperator, MultiplyMatrices,
};
use graphblas_sparse_linear_algebra::operators::options::OperatorOptions;
use graphblas_sparse_linear_algebra::operators::semiring::PlusTimes;
use graphblas_sparse_linear_algebra::operators::unary_operator::{
    AdditiveInverse, LogicalNegation,
};

fn vector_from_pairs(
    context: &Context,
    length: usize,
    pairs: Vec<(usize, i64)>,
) -> SparseVector {
    let elements = pairs.into_iter().map(|pair| pair.into()).collect();
    SparseVector::from_element_list(
        context,
        &length,
        &VectorElementList::from_element_vector(elements),
        &First::new(),
    )
    .unwrap()
}

fn matrix_from_triples(
    context: &Context,
    size: Size,
    triples: Vec<(usize, usize, i64)>,
) -> SparseMatrix {
    let elements = triples.into_iter().map(|triple| triple.into()).collect();
    SparseMatrix::from_element_list(
        context,
        &size,
        &MatrixElementList::from_element_vector(elements),
        &First::new(),
    )
    .unwrap()
}

#[test]
fn wrapping_addition_wraps_at_the_maximum() {
    let context = Context::init_ready(Mode::NonBlocking).unwrap();
    let length: usize = 1;

    let multiplier = vector_from_pairs(&context, length, vec![(0, i64::MAX)]);
    let multiplicant = vector_from_pairs(&context, length, vec![(0, 1)]);
    let mut product = SparseVector::new(&context, &length).unwrap();

    let applier = ElementWiseVectorAdditionBinaryOperator::new(
        &Plus::new(),
        &OperatorOptions::new_default(),
        &Assignment::new(),
    );
    applier
        .apply(&multiplier, &multiplicant, &mut product)
        .unwrap();

    assert_eq!(product.get_element_value_or_default(&0).unwrap(), i64::MIN);
}

#[test]
fn wrapping_multiplication_wraps_at_the_maximum() {
    let context = Context::init_ready(Mode::NonBlocking).unwrap();
    let length: usize = 1;

    let multiplier = vector_from_pairs(&context, length, vec![(0, i64::MAX)]);
    let multiplicant = vector_from_pairs(&context, length, vec![(0, 2)]);
    let mut product = SparseVector::new(&context, &length).unwrap();

    let applier = ElementWiseVectorAdditionBinaryOperator::new(
        &Times::new(),
        &OperatorOptions::new_default(),
        &Assignment::new(),
    );
    applier
        .apply(&multiplier, &multiplicant, &mut product)
        .unwrap();

    assert_eq!(product.get_element_value_or_default(&0).unwrap(), -2);
}

#[test]
fn minus_and_second_operators_combine_values() {
    let context = Context::init_ready(Mode::NonBlocking).unwrap();
    let length: usize = 1;

    let multiplier = vector_from_pairs(&context, length, vec![(0, 10)]);
    let multiplicant = vector_from_pairs(&context, length, vec![(0, 4)]);
    let mut product = SparseVector::new(&context, &length).unwrap();

    let subtraction = ElementWiseVectorAdditionBinaryOperator::new(
        &Minus::new(),
        &OperatorOptions::new_default(),
        &Assignment::new(),
    );
    subtraction
        .apply(&multiplier, &multiplicant, &mut product)
        .unwrap();
    assert_eq!(product.get_element_value_or_default(&0).unwrap(), 6);

    let second = ElementWiseVectorAdditionBinaryOperator::new(
        &Second::new(),
        &OperatorOptions::new_default(),
        &Assignment::new(),
    );
    second
        .apply(&multiplier, &multiplicant, &mut product)
        .unwrap();
    assert_eq!(product.get_element_value_or_default(&0).unwrap(), 4);
}

#[test]
fn logical_negation_flips_boolean_values() {
    let context = Context::init_ready(Mode::NonBlocking).unwrap();
    let length: usize = 2;

    let argument = vector_from_pairs(&context, length, vec![(0, 0), (1, 5)]);
    let mut product = SparseVector::new(&context, &length).unwrap();

    let applier = UnaryOperatorApplier::new(
        &LogicalNegation::new(),
        &OperatorOptions::new_default(),
        &Assignment::new(),
    );
    applier.apply_to_vector(&argument, &mut product).unwrap();

    assert_eq!(product.get_element_value_or_default(&0).unwrap(), 1);
    assert_eq!(product.get_element_value_or_default(&1).unwrap(), 0);
}

#[test]
fn additive_inverse_negates_stored_values() {
    let context = Context::init_ready(Mode::NonBlocking).unwrap();
    let length: usize = 2;

    let argument = vector_from_pairs(&context, length, vec![(0, 5), (1, -3)]);
    let mut product = SparseVector::new(&context, &length).unwrap();

    let applier = UnaryOperatorApplier::new(
        &AdditiveInverse::new(),
        &OperatorOptions::new_default(),
        &Assignment::new(),
    );
    applier.apply_to_vector(&argument, &mut product).unwrap();

    assert_eq!(product.get_element_value_or_default(&0).unwrap(), -5);
    assert_eq!(product.get_element_value_or_default(&1).unwrap(), 3);
}

#[test]
fn monoid_addition_combines_over_the_union() {
    let context = Context::init_ready(Mode::NonBlocking).unwrap();
    let length: usize = 3;

    let multiplier = vector_from_pairs(&context, length, vec![(0, 1), (2, 3)]);
    let multiplicant = vector_from_pairs(&context, length, vec![(1, 5), (2, 7)]);
    let mut product = SparseVector::new(&context, &length).unwrap();

    let applier = ElementWiseVectorAdditionMonoidOperator::new(
        &monoid::Plus::new(),
        &OperatorOptions::new_default(),
        &Assignment::new(),
    );
    applier
        .apply(&multiplier, &multiplicant, &mut product)
        .unwrap();

    assert_eq!(product.get_element_value_or_default(&0).unwrap(), 1);
    assert_eq!(product.get_element_value_or_default(&1).unwrap(), 5);
    assert_eq!(product.get_element_value_or_default(&2).unwrap(), 10);
}

#[test]
fn semiring_addition_applier_combines_with_the_add_side() {
    let context = Context::init_ready(Mode::NonBlocking).unwrap();
    let length: usize = 1;

    let multiplier = vector_from_pairs(&context, length, vec![(0, 3)]);
    let multiplicant = vector_from_pairs(&context, length, vec![(0, 4)]);
    let mut product = SparseVector::new(&context, &length).unwrap();

    let applier = ElementWiseVectorAdditionSemiringOperator::new(
        &PlusTimes::new(),
        &OperatorOptions::new_default(),
        &Assignment::new(),
    );
    applier
        .apply(&multiplier, &multiplicant, &mut product)
        .unwrap();

    assert_eq!(product.get_element_value_or_default(&0).unwrap(), 7);
}

#[test]
fn matrix_multiplication_appliers_drop_single_operand_coordinates() {
    let context = Context::init_ready(Mode::NonBlocking).unwrap();
    let size = Size::new(2, 2);

    let multiplier = matrix_from_triples(&context, size, vec![(0, 0, 2), (1, 1, 3)]);
    let multiplicant = matrix_from_triples(&context, size, vec![(0, 0, 5), (0, 1, 7)]);
    let mut product = SparseMatrix::new(&context, &size).unwrap();

    let monoid_applier = ElementWiseMatrixMultiplicationMonoidOperator::new(
        &monoid::Times::new(),
        &OperatorOptions::new_default(),
        &Assignment::new(),
    );
    monoid_applier
        .apply(&multiplier, &multiplicant, &mut product)
        .unwrap();

    assert_eq!(
        product.get_element_value_or_default(&(0, 0).into()).unwrap(),
        10
    );
    assert_eq!(product.number_of_stored_elements().unwrap(), 1);

    let semiring_applier = ElementWiseMatrixMultiplicationSemiringOperator::new(
        &PlusTimes::new(),
        &OperatorOptions::new_default(),
        &Assignment::new(),
    );
    semiring_applier
        .apply(&multiplier, &multiplicant, &mut product)
        .unwrap();

    assert_eq!(
        product.get_element_value_or_default(&(0, 0).into()).unwrap(),
        10
    );
    assert_eq!(product.number_of_stored_elements().unwrap(), 1);
}

#[test]
fn transpose_option_applies_to_the_multiplier() {
    let context = Context::init_ready(Mode::NonBlocking).unwrap();
    let size = Size::new(2, 2);

    let multiplier = matrix_from_triples(
        &context,
        size,
        vec![(0, 0, 1), (0, 1, 2), (1, 0, 3), (1, 1, 4)],
    );
    let identity = matrix_from_triples(&context, size, vec![(0, 0, 1), (1, 1, 1)]);
    let mut product = SparseMatrix::new(&context, &size).unwrap();

    let transpose_options = OperatorOptions::new(false, false, false, true, false);
    let applier =
        MatrixMultiplicationOperator::new(&PlusTimes::new(), &transpose_options, &Assignment::new());
    applier.apply(&multiplier, &identity, &mut product).unwrap();

    assert_eq!(
        product.get_element_value_or_default(&(0, 0).into()).unwrap(),
        1
    );
    assert_eq!(
        product.get_element_value_or_default(&(0, 1).into()).unwrap(),
        3
    );
    assert_eq!(
        product.get_element_value_or_default(&(1, 0).into()).unwrap(),
        2
    );
    assert_eq!(
        product.get_element_value_or_default(&(1, 1).into()).unwrap(),
        4
    );
}

#[test]
fn duplicate_elements_reduce_through_the_operator() {
    let context = Context::init_ready(Mode::NonBlocking).unwrap();
    let length: usize = 1;

    let element_list = VectorElementList::from_element_vector(vec![
        VectorElement::new(0, 5),
        VectorElement::new(0, 7),
    ]);

    let first_wins =
        SparseVector::from_element_list(&context, &length, &element_list, &First::new()).unwrap();
    assert_eq!(first_wins.get_element_value_or_default(&0).unwrap(), 5);

    let summed =
        SparseVector::from_element_list(&context, &length, &element_list, &Plus::new()).unwrap();
    assert_eq!(summed.get_element_value_or_default(&0).unwrap(), 12);
}

#[test]
fn element_wise_addition_rejects_dimension_mismatch() {
    let context = Context::init_ready(Mode::NonBlocking).unwrap();

    let multiplier = SparseVector::new(&context, &3).unwrap();
    let multiplicant = SparseVector::new(&context, &4).unwrap();
    let mut product = SparseVector::new(&context, &4).unwrap();

    let applier = ElementWiseVectorAdditionBinaryOperator::new(
        &Times::new(),
        &OperatorOptions::new_default(),
        &Assignment::new(),
    );
    assert_eq!(
        applier.apply(&multiplier, &multiplicant, &mut product),
        Err(SparseLinearAlgebraError::DimensionMismatch)
    );

    let multiplier = SparseVector::new(&context, &4).unwrap();
    let short_mask = SparseVector::new(&context, &2).unwrap();
    assert_eq!(
        applier.apply_with_mask(&short_mask, &multiplier, &multiplicant, &mut product),
        Err(SparseLinearAlgebraError::DimensionMismatch)
    );
}

#[test]
fn out_of_bounds_accesses_are_rejected() {
    let context = Context::init_ready(Mode::NonBlocking).unwrap();

    let vector = SparseVector::new(&context, &4).unwrap();
    assert_eq!(
        vector.get_element_value(&10).unwrap_err(),
        SparseLinearAlgebraError::IndexOutOfBounds
    );

    let mut vector = vector;
    assert_eq!(
        vector.set_element(VectorElement::new(10, 1)).unwrap_err(),
        SparseLinearAlgebraError::IndexOutOfBounds
    );

    let element_list =
        VectorElementList::from_element_vector(vec![VectorElement::new(9, 1)]);
    assert_eq!(
        SparseVector::from_element_list(&context, &4, &element_list, &First::new()).unwrap_err(),
        SparseLinearAlgebraError::IndexOutOfBounds
    );

    let matrix = SparseMatrix::new(&context, &Size::new(2, 2)).unwrap();
    assert_eq!(
        matrix.get_element_value(&(5, 0).into()).unwrap_err(),
        SparseLinearAlgebraError::IndexOutOfBounds
    );
}

#[test]
fn column_extraction_rejects_bad_indices() {
    let context = Context::init_ready(Mode::NonBlocking).unwrap();
    let matrix = matrix_from_triples(
        &context,
        Size::new(3, 2),
        vec![(0, 0, 1), (1, 0, 2), (2, 0, 3)],
    );
    let extractor = MatrixColumnExtractor::new();

    // a selected row index past the row height
    let mut column_vector = SparseVector::new(&context, &2).unwrap();
    let out_of_bounds_rows = ElementIndexSelector::Index(vec![0, 3]);
    assert_eq!(
        extractor.apply(
            &matrix,
            &0,
            &out_of_bounds_rows,
            &Assignment::new(),
            &mut column_vector,
            &SelectEntireVector::new(&context),
            &OperatorOptions::new_default(),
        ),
        Err(SparseLinearAlgebraError::IndexOutOfBounds)
    );

    // a column index past the column width
    let in_bounds_rows = ElementIndexSelector::Index(vec![0, 2]);
    assert_eq!(
        extractor.apply(
            &matrix,
            &5,
            &in_bounds_rows,
            &Assignment::new(),
            &mut column_vector,
            &SelectEntireVector::new(&context),
            &OperatorOptions::new_default(),
        ),
        Err(SparseLinearAlgebraError::IndexOutOfBounds)
    );

    // an output length that differs from the number of selected indices
    let mut short_vector = SparseVector::new(&context, &1).unwrap();
    assert_eq!(
        extractor.apply(
            &matrix,
            &0,
            &in_bounds_rows,
            &Assignment::new(),
            &mut short_vector,
            &SelectEntireVector::new(&context),
            &OperatorOptions::new_default(),
        ),
        Err(SparseLinearAlgebraError::DimensionMismatch)
    );
}

#[test]
fn column_extraction_with_every_row() {
    let context = Context::init_ready(Mode::NonBlocking).unwrap();
    let matrix = matrix_from_triples(
        &context,
        Size::new(3, 2),
        vec![(0, 1, 4), (1, 1, 5), (2, 1, 6)],
    );
    let mut column_vector = SparseVector::new(&context, &3).unwrap();

    let extractor = MatrixColumnExtractor::new();
    extractor
        .apply(
            &matrix,
            &1,
            &ElementIndexSelector::All,
            &Assignment::new(),
            &mut column_vector,
            &SelectEntireVector::new(&context),
            &OperatorOptions::new_default(),
        )
        .unwrap();

    assert_eq!(column_vector.element_value_or_default(&0).unwrap(), 4);
    assert_eq!(column_vector.element_value_or_default(&1).unwrap(), 5);
    assert_eq!(column_vector.element_value_or_default(&2).unwrap(), 6);
}

#[test]
fn repeated_row_indices_extract_repeatedly() {
    let context = Context::init_ready(Mode::NonBlocking).unwrap();
    let matrix = matrix_from_triples(
        &context,
        Size::new(3, 1),
        vec![(0, 0, 1), (1, 0, 2), (2, 0, 3)],
    );
    let mut column_vector = SparseVector::new(&context, &3).unwrap();

    let indices: Vec<ElementIndex> = vec![2, 2, 0];
    let extractor = MatrixColumnExtractor::new();
    extractor
        .apply(
            &matrix,
            &0,
            &ElementIndexSelector::Index(indices),
            &Assignment::new(),
            &mut column_vector,
            &SelectEntireVector::new(&context),
            &OperatorOptions::new_default(),
        )
        .unwrap();

    assert_eq!(column_vector.element_value_or_default(&0).unwrap(), 3);
    assert_eq!(column_vector.element_value_or_default(&1).unwrap(), 3);
    assert_eq!(column_vector.element_value_or_default(&2).unwrap(), 1);
}

#[test]
fn oversized_matrix_is_rejected() {
    let context = Context::init_ready(Mode::NonBlocking).unwrap();
    assert_eq!(
        SparseMatrix::new(&context, &Size::new(usize::MAX, 2)).unwrap_err(),
        SparseLinearAlgebraError::OutOfMemory
    );
}
