use graphblas_sparse_linear_algebra::collections::sparse_vector::{
    SparseVector, VectorElementList,
};
use graphblas_sparse_linear_algebra::context::{Context, Mode};
use graphblas_sparse_linear_algebra::operators::apply::{
    ApplyUnaryOperator, UnaryOperatorApplier,
};
use graphblas_sparse_linear_algebra::operators::binary_operator::{Assignment, First, Times};
use graphblas_sparse_linear_algebra::operators::element_wise_addition::{
    ApplyElementWiseVectorAdditionBinaryOperator, ElementWiseVectorAdditionBinaryOperator,
};
use graphblas_sparse_linear_algebra::operators::options::OperatorOptions;
use graphblas_sparse_linear_algebra::operators::unary_operator::One;

fn vector_from_pairs(
    context: &Context,
    length: usize,
    pairs: Vec<(usize, i64)>,
) -> SparseVector {
    let elements = pairs.into_iter().map(|pair| pair.into()).collect();
    SparseVector::from_element_list(
        context,
        &length,
        &VectorElementList::from_element_vector(elements),
        &First::new(),
    )
    .unwrap()
}

#[test]
fn mask_preserves_unselected_prior_values() {
    let context = Context::init_ready(Mode::NonBlocking).unwrap();
    let length: usize = 3;

    let multiplier = vector_from_pairs(&context, length, vec![(0, 1), (1, 2), (2, 3)]);
    let multiplicant = vector_from_pairs(&context, length, vec![(0, 4), (1, 5), (2, 6)]);
    // the mask stores a true value only at coordinate 1
    let mask = vector_from_pairs(&context, length, vec![(1, 1)]);
    let mut product = vector_from_pairs(&context, length, vec![(0, 10), (1, 20), (2, 30)]);

    let applier = ElementWiseVectorAdditionBinaryOperator::new(
        &Times::new(),
        &OperatorOptions::new_default(),
        &Assignment::new(),
    );
    applier
        .apply_with_mask(&mask, &multiplier, &multiplicant, &mut product)
        .unwrap();

    // the selected coordinate is rewritten, the unselected ones are untouched
    assert_eq!(product.get_element_value_or_default(&0).unwrap(), 10);
    assert_eq!(product.get_element_value_or_default(&1).unwrap(), 10);
    assert_eq!(product.get_element_value_or_default(&2).unwrap(), 30);
}

#[test]
fn mask_with_false_value_does_not_select() {
    let context = Context::init_ready(Mode::NonBlocking).unwrap();
    let length: usize = 2;

    let multiplier = vector_from_pairs(&context, length, vec![(0, 1), (1, 2)]);
    let multiplicant = vector_from_pairs(&context, length, vec![(0, 3), (1, 4)]);
    // stored but false at coordinate 0, absent at coordinate 1
    let mask = vector_from_pairs(&context, length, vec![(0, 0)]);
    let mut product = vector_from_pairs(&context, length, vec![(0, 7), (1, 8)]);

    let applier = ElementWiseVectorAdditionBinaryOperator::new(
        &Times::new(),
        &OperatorOptions::new_default(),
        &Assignment::new(),
    );
    applier
        .apply_with_mask(&mask, &multiplier, &multiplicant, &mut product)
        .unwrap();

    assert_eq!(product.get_element_value_or_default(&0).unwrap(), 7);
    assert_eq!(product.get_element_value_or_default(&1).unwrap(), 8);
}

#[test]
fn structural_mask_selects_stored_false_values() {
    let context = Context::init_ready(Mode::NonBlocking).unwrap();
    let length: usize = 2;

    let multiplier = vector_from_pairs(&context, length, vec![(0, 1), (1, 2)]);
    let multiplicant = vector_from_pairs(&context, length, vec![(0, 3), (1, 4)]);
    let mask = vector_from_pairs(&context, length, vec![(0, 0)]);
    let mut product = SparseVector::new(&context, &length).unwrap();

    let structural_options = OperatorOptions::new(false, true, false, false, false);
    let applier = ElementWiseVectorAdditionBinaryOperator::new(
        &Times::new(),
        &structural_options,
        &Assignment::new(),
    );
    applier
        .apply_with_mask(&mask, &multiplier, &multiplicant, &mut product)
        .unwrap();

    // the stored false entry selects structurally; the absent one does not
    assert_eq!(product.get_element_value_or_default(&0).unwrap(), 3);
    assert_eq!(product.get_element_value(&1).unwrap(), None);
}

#[test]
fn complement_mask_inverts_selection() {
    let context = Context::init_ready(Mode::NonBlocking).unwrap();
    let length: usize = 2;

    let multiplier = vector_from_pairs(&context, length, vec![(0, 1), (1, 2)]);
    let multiplicant = vector_from_pairs(&context, length, vec![(0, 3), (1, 4)]);
    let mask = vector_from_pairs(&context, length, vec![(0, 1)]);
    let mut product = SparseVector::new(&context, &length).unwrap();

    let complement_options = OperatorOptions::new(false, false, true, false, false);
    let applier = ElementWiseVectorAdditionBinaryOperator::new(
        &Times::new(),
        &complement_options,
        &Assignment::new(),
    );
    applier
        .apply_with_mask(&mask, &multiplier, &multiplicant, &mut product)
        .unwrap();

    assert_eq!(product.get_element_value(&0).unwrap(), None);
    assert_eq!(product.get_element_value_or_default(&1).unwrap(), 8);
}

#[test]
fn replace_option_clears_unselected_prior_values() {
    let context = Context::init_ready(Mode::NonBlocking).unwrap();
    let length: usize = 2;

    let multiplier = vector_from_pairs(&context, length, vec![(0, 1), (1, 2)]);
    let multiplicant = vector_from_pairs(&context, length, vec![(0, 3), (1, 4)]);
    let mask = vector_from_pairs(&context, length, vec![(1, 1)]);
    let mut product = vector_from_pairs(&context, length, vec![(0, 9), (1, 9)]);

    let replace_options = OperatorOptions::new(true, false, false, false, false);
    let applier = ElementWiseVectorAdditionBinaryOperator::new(
        &Times::new(),
        &replace_options,
        &Assignment::new(),
    );
    applier
        .apply_with_mask(&mask, &multiplier, &multiplicant, &mut product)
        .unwrap();

    // replace-output drops the unselected prior entry instead of keeping it
    assert_eq!(product.get_element_value(&0).unwrap(), None);
    assert_eq!(product.get_element_value_or_default(&1).unwrap(), 8);
}

#[test]
fn unary_one_with_assignment_rewrites_output_exactly() {
    let context = Context::init_ready(Mode::NonBlocking).unwrap();
    let length: usize = 3;

    let argument = vector_from_pairs(&context, length, vec![(0, 7), (2, 8)]);
    let mut product = vector_from_pairs(&context, length, vec![(0, 99), (1, 99)]);

    let applier = UnaryOperatorApplier::new(
        &One::new(),
        &OperatorOptions::new_default(),
        &Assignment::new(),
    );
    applier.apply_to_vector(&argument, &mut product).unwrap();

    // the output becomes exactly the mapped pattern of the argument:
    // every stored coordinate maps to one, prior entries elsewhere vanish
    assert_eq!(product.get_element_value_or_default(&0).unwrap(), 1);
    assert_eq!(product.get_element_value(&1).unwrap(), None);
    assert_eq!(product.get_element_value_or_default(&2).unwrap(), 1);
    assert_eq!(product.number_of_stored_elements().unwrap(), 2);
}
