//! The coordinate-level semantics every apply operation shares.
//!
//! An apply call computes a sparse intermediate result `T`, accumulates it
//! into the prior output `C` (overwriting under `Assignment`, combining under
//! any other accumulator), and writes the outcome back under the mask: a
//! selected coordinate receives the accumulated entry, an unselected one
//! keeps its prior entry, or is cleared when replace-output is requested.
//!
//! The proof functions at the end state the library-wide laws of these
//! semantics.

use vstd::prelude::*;

use crate::operators::binary_operator::{apply_binary_function, evaluate_binary_function};
use crate::operators::binary_operator::{AccumulatorFunction, BinaryFunction};
use crate::operators::mask::{
    mask_coordinate_selected, mask_matrix_coordinate_selected, MatrixMask, VectorMask,
};
use crate::operators::options::OperatorOptions;
use crate::operators::unary_operator::{
    apply_unary_function, evaluate_unary_function, UnaryFunction,
};

verus! {

/// The accumulation of one computed entry into one prior output entry.
///
/// `Assignment` stores exactly the computed entry (including its absence);
/// any other accumulator keeps the prior entry where nothing was computed,
/// stores the computed value where no prior entry exists, and stores
/// `combine(existing_value, new_value)` where both exist.
pub open spec fn accumulated_entry(
    accumulator: AccumulatorFunction,
    prior: Option<i64>,
    computed: Option<i64>,
) -> Option<i64> {
    match computed {
        Option::None => match accumulator {
            AccumulatorFunction::Assignment => Option::None,
            AccumulatorFunction::Binary(_) => prior,
        },
        Option::Some(new_value) => match accumulator {
            AccumulatorFunction::Assignment => Option::Some(new_value),
            AccumulatorFunction::Binary(function) => match prior {
                Option::None => Option::Some(new_value),
                Option::Some(existing_value) => Option::Some(
                    apply_binary_function(function, existing_value, new_value),
                ),
            },
        },
    }
}

/// The final output entry at one coordinate: the accumulated entry where the
/// mask selects the coordinate; otherwise the prior entry, or no entry at
/// all when replace-output is requested.
pub open spec fn written_entry(
    prior: Option<i64>,
    computed: Option<i64>,
    selected: bool,
    replace: bool,
    accumulator: AccumulatorFunction,
) -> Option<i64> {
    if selected {
        accumulated_entry(accumulator, prior, computed)
    } else if replace {
        Option::None
    } else {
        prior
    }
}

/// Computes the final output entry at one coordinate.
pub fn evaluate_written_entry(
    prior: Option<i64>,
    computed: Option<i64>,
    selected: bool,
    replace: bool,
    accumulator: AccumulatorFunction,
) -> (written: Option<i64>)
    ensures
        written == written_entry(prior, computed, selected, replace, accumulator),
{
    if selected {
        match computed {
            Option::None => match accumulator {
                AccumulatorFunction::Assignment => Option::None,
                AccumulatorFunction::Binary(_) => prior,
            },
            Option::Some(new_value) => match accumulator {
                AccumulatorFunction::Assignment => Option::Some(new_value),
                AccumulatorFunction::Binary(function) => match prior {
                    Option::None => Option::Some(new_value),
                    Option::Some(existing_value) => Option::Some(
                        evaluate_binary_function(function, existing_value, new_value),
                    ),
                },
            },
        }
    } else if replace {
        Option::None
    } else {
        prior
    }
}

/// The element-wise combination over the union of stored coordinates: a
/// coordinate stored by only one operand forwards that operand's value
/// unchanged; one stored by both combines them through the "add" function.
pub open spec fn element_wise_union_entry(
    function: BinaryFunction,
    left: Option<i64>,
    right: Option<i64>,
) -> Option<i64> {
    match (left, right) {
        (Option::Some(left_value), Option::Some(right_value)) => Option::Some(
            apply_binary_function(function, left_value, right_value),
        ),
        (Option::Some(left_value), Option::None) => Option::Some(left_value),
        (Option::None, Option::Some(right_value)) => Option::Some(right_value),
        (Option::None, Option::None) => Option::None,
    }
}

/// Computes the element-wise union combination of two operand entries.
pub fn evaluate_element_wise_union_entry(
    function: BinaryFunction,
    left: Option<i64>,
    right: Option<i64>,
) -> (combined: Option<i64>)
    ensures
        combined == element_wise_union_entry(function, left, right),
{
    match (left, right) {
        (Option::Some(left_value), Option::Some(right_value)) => Option::Some(
            evaluate_binary_function(function, left_value, right_value),
        ),
        (Option::Some(left_value), Option::None) => Option::Some(left_value),
        (Option::None, Option::Some(right_value)) => Option::Some(right_value),
        (Option::None, Option::None) => Option::None,
    }
}

/// The element-wise combination over the intersection of stored coordinates:
/// a coordinate stored by only one operand is dropped entirely.
pub open spec fn element_wise_intersection_entry(
    function: BinaryFunction,
    left: Option<i64>,
    right: Option<i64>,
) -> Option<i64> {
    match (left, right) {
        (Option::Some(left_value), Option::Some(right_value)) => Option::Some(
            apply_binary_function(function, left_value, right_value),
        ),
        _ => Option::None,
    }
}

/// Computes the element-wise intersection combination of two operand
/// entries.
pub fn evaluate_element_wise_intersection_entry(
    function: BinaryFunction,
    left: Option<i64>,
    right: Option<i64>,
) -> (combined: Option<i64>)
    ensures
        combined == element_wise_intersection_entry(function, left, right),
{
    match (left, right) {
        (Option::Some(left_value), Option::Some(right_value)) => Option::Some(
            evaluate_binary_function(function, left_value, right_value),
        ),
        _ => Option::None,
    }
}

/// The unary map of one operand entry: present iff the operand stores the
/// coordinate, with the operator applied to the stored value.
pub open spec fn unary_entry(function: UnaryFunction, operand: Option<i64>) -> Option<i64> {
    match operand {
        Option::Some(value) => Option::Some(apply_unary_function(function, value)),
        Option::None => Option::None,
    }
}

/// Computes the unary map of one operand entry.
pub fn evaluate_unary_entry(function: UnaryFunction, operand: Option<i64>) -> (mapped: Option<
    i64,
>)
    ensures
        mapped == unary_entry(function, operand),
{
    match operand {
        Option::Some(value) => Option::Some(evaluate_unary_function(function, value)),
        Option::None => Option::None,
    }
}

/// The generalized dot product over a semiring, over the first `count`
/// positions of two equally shaped entry sequences: the semiring "add" over
/// all positions where both sequences store an entry, of the semiring
/// "multiply" of the two stored values; absent when no such position exists.
pub open spec fn semiring_fold(
    addition: BinaryFunction,
    multiplication: BinaryFunction,
    left: Seq<Option<i64>>,
    right: Seq<Option<i64>>,
    count: int,
) -> Option<i64>
    decreases count,
{
    if count <= 0 {
        Option::None
    } else {
        let rest = semiring_fold(addition, multiplication, left, right, count - 1);
        match (left[count - 1], right[count - 1]) {
            (Option::Some(left_value), Option::Some(right_value)) => {
                let product = apply_binary_function(multiplication, left_value, right_value);
                match rest {
                    Option::None => Option::Some(product),
                    Option::Some(sum) => Option::Some(
                        apply_binary_function(addition, sum, product),
                    ),
                }
            },
            _ => rest,
        }
    }
}

/// A coordinate of a vector-shaped output not selected by a mask keeps its
/// prior entry under any apply call that merges (does not replace) its
/// output, whatever was computed there and whatever the accumulator.
pub proof fn lemma_unselected_coordinate_unchanged<Mask: VectorMask>(
    mask: &Mask,
    options: OperatorOptions,
    index: int,
    prior: Option<i64>,
    computed: Option<i64>,
    accumulator: AccumulatorFunction,
)
    requires
        !mask_coordinate_selected(mask, options, index),
        !options.clear_output_before_use,
    ensures
        written_entry(
            prior,
            computed,
            mask_coordinate_selected(mask, options, index),
            options.clear_output_before_use,
            accumulator,
        ) == prior,
{
}

/// A coordinate of a matrix-shaped output not selected by a mask keeps its
/// prior entry under any apply call that merges (does not replace) its
/// output, whatever was computed there and whatever the accumulator.
pub proof fn lemma_unselected_matrix_coordinate_unchanged<Mask: MatrixMask>(
    mask: &Mask,
    options: OperatorOptions,
    row: int,
    column: int,
    prior: Option<i64>,
    computed: Option<i64>,
    accumulator: AccumulatorFunction,
)
    requires
        !mask_matrix_coordinate_selected(mask, options, row, column),
        !options.clear_output_before_use,
    ensures
        written_entry(
            prior,
            computed,
            mask_matrix_coordinate_selected(mask, options, row, column),
            options.clear_output_before_use,
            accumulator,
        ) == prior,
{
}

/// A unary map with the identity operator and the `Assignment` accumulator
/// reproduces the source entry exactly, whatever the output held before.
pub proof fn lemma_unary_identity_assignment_reproduces_source(
    source: Option<i64>,
    prior: Option<i64>,
    selected: bool,
)
    requires
        selected,
    ensures
        written_entry(
            prior,
            unary_entry(UnaryFunction::Identity, source),
            selected,
            false,
            AccumulatorFunction::Assignment,
        ) == source,
{
}

/// A unary map with the "one" operator and the `Assignment` accumulator
/// stores one at every stored source coordinate, regardless of the source's
/// and the output's prior values, and nothing elsewhere.
pub proof fn lemma_unary_one_stores_one(source: Option<i64>, prior: Option<i64>, selected: bool)
    requires
        selected,
    ensures
        written_entry(
            prior,
            unary_entry(UnaryFunction::One, source),
            selected,
            false,
            AccumulatorFunction::Assignment,
        ) == (match source {
            Option::Some(_) => Option::Some(1i64),
            Option::None => Option::None::<i64>,
        }),
{
}

/// Applying the same element-wise operation twice, first with `Assignment`
/// into an empty output and then with the additive accumulator into the
/// result, doubles every stored coordinate's value versus applying once
/// (doubling in the wrapping arithmetic of the domain).
pub proof fn lemma_additive_reapplication_doubles(computed: Option<i64>, selected: bool)
    requires
        selected,
    ensures
        written_entry(
            written_entry(Option::None, computed, selected, false, AccumulatorFunction::Assignment),
            computed,
            selected,
            false,
            AccumulatorFunction::Binary(BinaryFunction::Plus),
        ) == (match computed {
            Option::Some(value) => Option::Some(
                apply_binary_function(BinaryFunction::Plus, value, value),
            ),
            Option::None => Option::None::<i64>,
        }),
{
}

/// Element-wise multiplication of two operands that store nothing at a
/// coordinate writes nothing there: over two empty operands, an empty output
/// stays empty under every mask, accumulator and replace flag.
pub proof fn lemma_empty_intersection_stays_empty(
    function: BinaryFunction,
    selected: bool,
    replace: bool,
    accumulator: AccumulatorFunction,
)
    ensures
        written_entry(
            Option::None,
            element_wise_intersection_entry(function, Option::None, Option::None),
            selected,
            replace,
            accumulator,
        ) == Option::None::<i64>,
{
}

} // verus!
