use graphblas_sparse_linear_algebra::collections::sparse_matrix::{
    MatrixElementList, SparseMatrix,
};
use graphblas_sparse_linear_algebra::collections::sparse_vector::SparseVector;
use graphblas_sparse_linear_algebra::context::{Context, Mode};
use graphblas_sparse_linear_algebra::index::{ElementIndex, ElementIndexSelector};
use graphblas_sparse_linear_algebra::operators::binary_operator::{Assignment, First};
use graphblas_sparse_linear_algebra::operators::extract::{
    ExtractMatrixColumn, MatrixColumnExtractor,
};
use graphblas_sparse_linear_algebra::operators::mask::SelectEntireVector;
use graphblas_sparse_linear_algebra::operators::options::OperatorOptions;

#[test]
fn test_column_extraction() {
    let context = Context::init_ready(Mode::NonBlocking).unwrap();

    let element_list = MatrixElementList::from_element_vector(vec![
        (0, 0, 1).into(),
        (1, 0, 2).into(),
        (2, 0, 3).into(),
        (0, 1, 4).into(),
        (1, 1, 5).into(),
        (2, 1, 6).into(),
    ]);

    let matrix = SparseMatrix::from_element_list(
        &context.to_owned(),
        &(3, 2).into(),
        &element_list,
        &First::new(),
    )
    .unwrap();

    let mut column_vector = SparseVector::new(&context, &2).unwrap();

    let indices_to_extract: Vec<ElementIndex> = vec![0, 2];
    let indices_to_extract = ElementIndexSelector::Index(indices_to_extract);

    let extractor = MatrixColumnExtractor::new();

    extractor
        .apply(
            &matrix,
            &0,
            &indices_to_extract,
            &Assignment::new(),
            &mut column_vector,
            &SelectEntireVector::new(&context),
            &OperatorOptions::new_default(),
        )
        .unwrap();

    assert_eq!(column_vector.number_of_stored_elements().unwrap(), 2);
    assert_eq!(column_vector.element_value_or_default(&0).unwrap(), 1);
    assert_eq!(column_vector.element_value_or_default(&1).unwrap(), 3);
}

#[test]
fn test_column_extraction_with_type_casting() {
    let context = Context::init_ready(Mode::NonBlocking).unwrap();

    let element_list = MatrixElementList::from_element_vector(vec![
        (0, 0, 1).into(),
        (1, 0, 2).into(),
        (2, 0, 3).into(),
        (0, 1, 4).into(),
        (1, 1, 5).into(),
        (2, 1, 6).into(),
    ]);

    let matrix = SparseMatrix::from_element_list(
        &context.to_owned(),
        &(3, 2).into(),
        &element_list,
        &First::new(),
    )
    .unwrap();

    let mut column_vector = SparseVector::new(&context, &2).unwrap();

    let indices_to_extract: Vec<ElementIndex> = vec![0, 2];
    let indices_to_extract = ElementIndexSelector::Index(indices_to_extract);

    let extractor = MatrixColumnExtractor::new();

    extractor
        .apply(
            &matrix,
            &0,
            &indices_to_extract,
            &Assignment::new(),
            &mut column_vector,
            &SelectEntireVector::new(&context),
            &OperatorOptions::new_default(),
        )
        .unwrap();

    assert_eq!(column_vector.number_of_stored_elements().unwrap(), 2);
    assert_eq!(column_vector.element_value_or_default(&0).unwrap(), 1);
    assert_eq!(column_vector.element_value_or_default(&1).unwrap(), 3);
}
