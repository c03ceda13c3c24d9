use graphblas_sparse_linear_algebra::collections::sparse_matrix::{
    MatrixElementList, Size, SparseMatrix,
};
use graphblas_sparse_linear_algebra::collections::sparse_vector::{
    SparseVector, VectorElementList,
};
use graphblas_sparse_linear_algebra::context::{Context, Mode};
use graphblas_sparse_linear_algebra::operators::apply::{
    ApplyUnaryOperator, UnaryOperatorApplier,
};
use graphblas_sparse_linear_algebra::operators::binary_operator::{Assignment, First};
use graphblas_sparse_linear_algebra::operators::options::OperatorOptions;
use graphblas_sparse_linear_algebra::operators::unary_operator::{
    Identity, LogicalNegation, One,
};

#[test]
fn test_matrix_unary_operator() {
    let context = Context::init_ready(Mode::NonBlocking).unwrap();

    let element_list = MatrixElementList::from_element_vector(vec![
        (1, 1, 1).into(),
        (2, 1, 2).into(),
        (4, 2, 4).into(),
        (5, 2, 5).into(),
    ]);

    let matrix_size: Size = (10, 15).into();
    let matrix = SparseMatrix::from_element_list(
        &context.clone(),
        &matrix_size,
        &element_list,
        &First::new(),
    )
    .unwrap();

    let mut product_matrix = SparseMatrix::new(&context, &matrix_size).unwrap();

    let operator = UnaryOperatorApplier::new(
        &One::new(),
        &OperatorOptions::new_default(),
        &Assignment::new(),
    );

    operator
        .apply_to_matrix(&matrix, &mut product_matrix)
        .unwrap();

    println!("{:?}", product_matrix);

    assert_eq!(product_matrix.number_of_stored_elements().unwrap(), 4);
    assert_eq!(
        product_matrix
            .get_element_value_or_default(&(2, 1).into())
            .unwrap(),
        1
    );
    assert_eq!(
        product_matrix.get_element_value(&(9, 1).into()).unwrap(),
        None
    );

    let operator = UnaryOperatorApplier::new(
        &Identity::new(),
        &OperatorOptions::new_default(),
        &Assignment::new(),
    );
    operator
        .apply_to_matrix(&matrix, &mut product_matrix)
        .unwrap();

    println!("{:?}", matrix);
    println!("{:?}", product_matrix);

    assert_eq!(product_matrix.number_of_stored_elements().unwrap(), 4);
    assert_eq!(
        product_matrix
            .get_element_value_or_default(&(2, 1).into())
            .unwrap(),
        2
    );
    assert_eq!(
        product_matrix.get_element_value(&(9, 1).into()).unwrap(),
        None
    );
}

#[test]
fn test_vector_unary_operator() {
    let context = Context::init_ready(Mode::NonBlocking).unwrap();

    let element_list = VectorElementList::from_element_vector(vec![
        (1, 1).into(),
        (2, 2).into(),
        (4, 4).into(),
        (5, 5).into(),
    ]);

    let vector_length: usize = 10;
    let vector = SparseVector::from_element_list(
        &context.clone(),
        &vector_length,
        &element_list,
        &First::new(),
    )
    .unwrap();

    let mut product_vector = SparseVector::new(&context, &vector_length).unwrap();

    let operator = UnaryOperatorApplier::new(
        &One::new(),
        &OperatorOptions::new_default(),
        &Assignment::new(),
    );

    operator
        .apply_to_vector(&vector, &mut product_vector)
        .unwrap();

    println!("{:?}", product_vector);

    assert_eq!(product_vector.number_of_stored_elements().unwrap(), 4);
    assert_eq!(product_vector.get_element_value_or_default(&2).unwrap(), 1);
    assert_eq!(product_vector.get_element_value(&9).unwrap(), None);

    let operator = UnaryOperatorApplier::new(
        &Identity::new(),
        &OperatorOptions::new_default(),
        &Assignment::new(),
    );
    operator
        .apply_to_vector(&vector, &mut product_vector)
        .unwrap();

    println!("{:?}", vector);
    println!("{:?}", product_vector);

    assert_eq!(product_vector.number_of_stored_elements().unwrap(), 4);
    assert_eq!(product_vector.get_element_value_or_default(&2).unwrap(), 2);
    assert_eq!(product_vector.get_element_value(&9).unwrap(), None);
}

#[test]
fn test_vector_unary_negation_operator() {
    let context = Context::init_ready(Mode::NonBlocking).unwrap();

    let vector_length: usize = 10;
    let vector = SparseVector::new(&context, &vector_length).unwrap();

    let mut product_vector = SparseVector::new(&context, &vector_length).unwrap();

    let operator = UnaryOperatorApplier::new(
        &LogicalNegation::new(),
        &OperatorOptions::new_default(),
        &Assignment::new(),
    );

    operator
        .apply_to_vector(&vector, &mut product_vector)
        .unwrap();

    println!("{:?}", product_vector);

    assert_eq!(product_vector.number_of_stored_elements().unwrap(), 0);
}
