use graphblas_sparse_linear_algebra::collections::sparse_matrix::{
    MatrixElementList, Size, SparseMatrix,
};
use graphblas_sparse_linear_algebra::collections::sparse_vector::{
    SparseVector, VectorElementList,
};
use graphblas_sparse_linear_algebra::context::{Context, Mode};
use graphblas_sparse_linear_algebra::operators::binary_operator::{Assignment, First, Plus};
use graphblas_sparse_linear_algebra::operators::multiplication::{
    MatrixVectorMultiplicationOperator, MultiplyMatrixByVector,
};
use graphblas_sparse_linear_algebra::operators::options::OperatorOptions;
use graphblas_sparse_linear_algebra::operators::semiring::PlusTimes;

#[test]
fn matrix_vector_multiplication_test_multiplication_with_plus_times() {
    let context = Context::init_ready(Mode::NonBlocking).unwrap();

    let semiring = PlusTimes::new();
    let options = OperatorOptions::new_default();
    let matrix_multiplier = MatrixVectorMultiplicationOperator::new();

    let length: usize = 2;
    let size: Size = (length, length).into();

    let multiplier = SparseMatrix::new(&context, &size).unwrap();
    let multiplicant = SparseVector::new(&context, &length).unwrap();
    let mut product = multiplicant.clone();

    // Test multiplication of empty operands
    matrix_multiplier
        .apply(
            &multiplier,
            &semiring,
            &multiplicant,
            &Assignment::new(),
            &mut product,
            &options,
        )
        .unwrap();
    let element_list = product.get_element_list().unwrap();

    assert_eq!(product.number_of_stored_elements().unwrap(), 0);
    assert_eq!(element_list.length(), 0);
    assert_eq!(product.get_element_value(&1).unwrap(), None); // NoValue

    let multiplicant_element_list =
        VectorElementList::from_element_vector(vec![(0, 1).into(), (1, 2).into()]);
    let multiplicant = SparseVector::from_element_list(
        &context,
        &length,
        &multiplicant_element_list,
        &First::new(),
    )
    .unwrap();

    let multiplier_element_list = MatrixElementList::from_element_vector(vec![
        (0, 0, 5).into(),
        (1, 0, 6).into(),
        (0, 1, 7).into(),
        (1, 1, 8).into(),
    ]);
    let multiplier =
        SparseMatrix::from_element_list(&context, &size, &multiplier_element_list, &First::new())
            .unwrap();

    // Test multiplication of full operands
    matrix_multiplier
        .apply(
            &multiplier,
            &semiring,
            &multiplicant,
            &Assignment::new(),
            &mut product,
            &options,
        )
        .unwrap();

    assert_eq!(product.get_element_value_or_default(&0).unwrap(), 19);
    assert_eq!(product.get_element_value_or_default(&1).unwrap(), 22);

    let expected_product =
        VectorElementList::from_element_vector(vec![(0, 19).into(), (1, 22).into()]);
    let product_element_list = product.get_element_list().unwrap();
    assert_eq!(expected_product, product_element_list);

    // test the use of an accumulator
    let accumulator = Plus::new();
    let matrix_multiplier_with_accumulator = MatrixVectorMultiplicationOperator::new();

    matrix_multiplier_with_accumulator
        .apply(
            &multiplier,
            &semiring,
            &multiplicant,
            &accumulator,
            &mut product,
            &options,
        )
        .unwrap();

    assert_eq!(product.get_element_value_or_default(&0).unwrap(), 19 * 2);
    assert_eq!(product.get_element_value_or_default(&1).unwrap(), 22 * 2);

    // test the use of a mask
    let mask_element_list =
        VectorElementList::from_element_vector(vec![(0, 3).into(), (1, 0).into()]);
    let mask =
        SparseVector::from_element_list(&context, &length, &mask_element_list, &First::new())
            .unwrap();

    let matrix_multiplier = MatrixVectorMultiplicationOperator::new();

    let mut product = SparseVector::new(&context, &length).unwrap();

    matrix_multiplier
        .apply_with_mask(
            &multiplier,
            &semiring,
            &multiplicant,
            &accumulator,
            &mut product,
            &mask,
            &options,
        )
        .unwrap();

    assert_eq!(product.get_element_value_or_default(&0).unwrap(), 19);
    assert_eq!(product.get_element_value(&1).unwrap(), None);
}
