use graphblas_sparse_linear_algebra::collections::sparse_vector::{
    SparseVector, VectorElementList,
};
use graphblas_sparse_linear_algebra::context::{Context, Mode};
use graphblas_sparse_linear_algebra::operators::binary_operator::{
    Assignment, First, Plus, Times,
};
use graphblas_sparse_linear_algebra::operators::element_wise_addition::{
    ApplyElementWiseVectorAdditionBinaryOperator, ElementWiseVectorAdditionBinaryOperator,
};
use graphblas_sparse_linear_algebra::operators::options::OperatorOptions;

#[test]
fn create_vector_addition_operator() {
    let operator = Times::new();
    let options = OperatorOptions::new_default();
    let _element_wise_matrix_multiplier =
        ElementWiseVectorAdditionBinaryOperator::new(&operator, &options, &Assignment::new());

    let accumulator = Times::new();

    let _matrix_multiplier =
        ElementWiseVectorAdditionBinaryOperator::new(&operator, &options, &accumulator);
}

#[test]
fn test_element_wise_addition() {
    let context = Context::init_ready(Mode::NonBlocking).unwrap();

    let operator = Times::new();
    let options = OperatorOptions::new_default();
    let element_wise_vector_multiplier =
        ElementWiseVectorAdditionBinaryOperator::new(&operator, &options, &Assignment::new());

    let length: usize = 4;

    let multiplier = SparseVector::new(&context, &length).unwrap();
    let multiplicant = multiplier.clone();
    let mut product = multiplier.clone();

    // Test multiplication of empty vectors
    element_wise_vector_multiplier
        .apply(&multiplier, &multiplicant, &mut product)
        .unwrap();
    let element_list = product.get_element_list().unwrap();

    assert_eq!(product.number_of_stored_elements().unwrap(), 0);
    assert_eq!(element_list.length(), 0);
    assert_eq!(product.get_element_value(&1).unwrap(), None); // NoValue

    let multiplier_element_list = VectorElementList::from_element_vector(vec![
        (0, 1).into(),
        (1, 2).into(),
        (2, 3).into(),
        (3, 4).into(),
    ]);
    let multiplier =
        SparseVector::from_element_list(&context, &length, &multiplier_element_list, &First::new())
            .unwrap();

    let multiplicant_element_list = VectorElementList::from_element_vector(vec![
        (0, 5).into(),
        (1, 6).into(),
        (2, 7).into(),
        (3, 8).into(),
    ]);
    let multiplicant = SparseVector::from_element_list(
        &context,
        &length,
        &multiplicant_element_list,
        &First::new(),
    )
    .unwrap();

    // Test multiplication of full vectors
    element_wise_vector_multiplier
        .apply(&multiplier, &multiplicant, &mut product)
        .unwrap();

    assert_eq!(product.get_element_value_or_default(&0).unwrap(), 5);
    assert_eq!(product.get_element_value_or_default(&1).unwrap(), 12);
    assert_eq!(product.get_element_value_or_default(&2).unwrap(), 21);
    assert_eq!(product.get_element_value_or_default(&3).unwrap(), 32);

    // test the use of an accumulator
    let accumulator = Plus::new();
    let matrix_multiplier_with_accumulator =
        ElementWiseVectorAdditionBinaryOperator::new(&operator, &options, &accumulator);

    matrix_multiplier_with_accumulator
        .apply(&multiplier, &multiplicant, &mut product)
        .unwrap();

    assert_eq!(product.get_element_value_or_default(&0).unwrap(), 5 * 2);
    assert_eq!(product.get_element_value_or_default(&1).unwrap(), 12 * 2);
    assert_eq!(product.get_element_value_or_default(&2).unwrap(), 21 * 2);
    assert_eq!(product.get_element_value_or_default(&3).unwrap(), 32 * 2);

    // test the use of a mask
    let mask_element_list = VectorElementList::from_element_vector(vec![
        (0, 3).into(),
        (1, 0).into(),
        (3, 1).into(),
    ]);
    let mask =
        SparseVector::from_element_list(&context, &length, &mask_element_list, &First::new())
            .unwrap();

    let matrix_multiplier =
        ElementWiseVectorAdditionBinaryOperator::new(&operator, &options, &Assignment::new());

    let mut product = SparseVector::new(&context, &length).unwrap();

    matrix_multiplier
        .apply_with_mask(&mask, &multiplier, &multiplicant, &mut product)
        .unwrap();

    assert_eq!(product.get_element_value_or_default(&0).unwrap(), 5);
    assert_eq!(product.get_element_value(&1).unwrap(), None);
    assert_eq!(product.get_element_value(&2).unwrap(), None);
    assert_eq!(product.get_element_value_or_default(&3).unwrap(), 32);
}
