use graphblas_sparse_linear_algebra::collections::sparse_matrix::{
    MatrixElementList, Size, SparseMatrix,
};
use graphblas_sparse_linear_algebra::context::{Context, Mode};
use graphblas_sparse_linear_algebra::operators::binary_operator::{
    Assignment, First, Plus, Times,
};
use graphblas_sparse_linear_algebra::operators::multiplication::{
    MatrixMultiplicationOperator, MultiplyMatrices,
};
use graphblas_sparse_linear_algebra::operators::options::OperatorOptions;
use graphblas_sparse_linear_algebra::operators::semiring::PlusTimes;

#[test]
fn matrix_multiplication_create_matrix_multiplier() {
    let semiring = PlusTimes::new();
    let options = OperatorOptions::new_default();
    let _matrix_multiplier =
        MatrixMultiplicationOperator::new(&semiring, &options, &Assignment::new());

    let context = Context::init_ready(Mode::NonBlocking).unwrap();

    let target_height: usize = 10;
    let target_width: usize = 5;
    let size: Size = (target_height, target_width).into();

    let _mask = SparseMatrix::new(&context, &size).unwrap();

    let accumulator = Times::new();

    let _matrix_multiplier =
        MatrixMultiplicationOperator::new(&semiring, &options, &accumulator);
}

#[test]
fn matrix_multiplication_test_multiplication_with_plus_times() {
    let context = Context::init_ready(Mode::NonBlocking).unwrap();

    let semiring = PlusTimes::new();
    let options = OperatorOptions::new_default();
    let matrix_multiplier =
        MatrixMultiplicationOperator::new(&semiring, &options, &Assignment::new());

    let height: usize = 2;
    let width: usize = 2;
    let size: Size = (height, width).into();

    let multiplier = SparseMatrix::new(&context, &size).unwrap();
    let multiplicant = multiplier.clone();
    let mut product = multiplier.clone();

    // Test multiplication of empty matrices
    matrix_multiplier
        .apply(&multiplier, &multiplicant, &mut product)
        .unwrap();
    let element_list = product.get_element_list().unwrap();

    assert_eq!(product.number_of_stored_elements().unwrap(), 0);
    assert_eq!(element_list.length(), 0);
    assert_eq!(product.get_element_value(&(1, 1).into()).unwrap(), None); // NoValue

    let multiplier_element_list = MatrixElementList::from_element_vector(vec![
        (0, 0, 1).into(),
        (1, 0, 2).into(),
        (0, 1, 3).into(),
        (1, 1, 4).into(),
    ]);
    let multiplier =
        SparseMatrix::from_element_list(&context, &size, &multiplier_element_list, &First::new())
            .unwrap();

    let multiplicant_element_list = MatrixElementList::from_element_vector(vec![
        (0, 0, 5).into(),
        (1, 0, 6).into(),
        (0, 1, 7).into(),
        (1, 1, 8).into(),
    ]);
    let multiplicant = SparseMatrix::from_element_list(
        &context,
        &size,
        &multiplicant_element_list,
        &First::new(),
    )
    .unwrap();

    // Test multiplication of full matrices
    matrix_multiplier
        .apply(&multiplier, &multiplicant, &mut product)
        .unwrap();

    assert_eq!(
        product.get_element_value_or_default(&(0, 0).into()).unwrap(),
        23
    );
    assert_eq!(
        product.get_element_value_or_default(&(1, 0).into()).unwrap(),
        34
    );
    assert_eq!(
        product.get_element_value_or_default(&(0, 1).into()).unwrap(),
        31
    );
    assert_eq!(
        product.get_element_value_or_default(&(1, 1).into()).unwrap(),
        46
    );

    let expected_product = MatrixElementList::from_element_vector(vec![
        (0, 0, 23).into(),
        (0, 1, 31).into(),
        (1, 0, 34).into(),
        (1, 1, 46).into(),
    ]);
    let product_element_list = product.get_element_list().unwrap();
    assert_eq!(expected_product, product_element_list);

    // test the use of an accumulator
    let accumulator = Plus::new();
    let matrix_multiplier_with_accumulator =
        MatrixMultiplicationOperator::new(&semiring, &options, &accumulator);

    matrix_multiplier_with_accumulator
        .apply(&multiplier, &multiplicant, &mut product)
        .unwrap();

    assert_eq!(
        product.get_element_value_or_default(&(0, 0).into()).unwrap(),
        23 * 2
    );
    assert_eq!(
        product.get_element_value_or_default(&(1, 0).into()).unwrap(),
        34 * 2
    );
    assert_eq!(
        product.get_element_value_or_default(&(0, 1).into()).unwrap(),
        31 * 2
    );
    assert_eq!(
        product.get_element_value_or_default(&(1, 1).into()).unwrap(),
        46 * 2
    );

    // test the use of a mask
    let mask_element_list = MatrixElementList::from_element_vector(vec![
        (0, 0, 3).into(),
        (1, 0, 0).into(),
        (1, 1, 1).into(),
    ]);
    let mask =
        SparseMatrix::from_element_list(&context, &size, &mask_element_list, &First::new())
            .unwrap();

    let matrix_multiplier =
        MatrixMultiplicationOperator::new(&semiring, &options, &Assignment::new());

    let mut product = SparseMatrix::new(&context, &size).unwrap();

    matrix_multiplier
        .apply_with_mask(&mask, &multiplier, &multiplicant, &mut product)
        .unwrap();

    assert_eq!(
        product.get_element_value_or_default(&(0, 0).into()).unwrap(),
        23
    );
    assert_eq!(product.get_element_value(&(1, 0).into()).unwrap(), None);
    assert_eq!(product.get_element_value(&(0, 1).into()).unwrap(), None);
    assert_eq!(
        product.get_element_value_or_default(&(1, 1).into()).unwrap(),
        46
    );
}
