//! Masks: selection predicates over output coordinates.
//!
//! A mask is either the "select all" sentinel, under which every coordinate
//! the algebra produces may be written, or a boolean-castable sparse
//! collection: a coordinate is then selected iff the mask stores it and
//! (unless structural interpretation is requested) its value casts to true;
//! the complement flag inverts this predicate.

use vstd::prelude::*;

use crate::context::Context;
use crate::operators::options::OperatorOptions;

verus! {

/// Whether a stored mask value casts to true.
pub open spec fn value_casts_to_true(value: i64) -> bool {
    value != 0
}

/// Whether one mask entry selects its coordinate, under the given
/// interpretation flags.
pub open spec fn entry_selected(mask_entry: Option<i64>, structural: bool, complement: bool) -> bool {
    let base = match mask_entry {
        Option::Some(value) => structural || value_casts_to_true(value),
        Option::None => false,
    };
    if complement {
        !base
    } else {
        base
    }
}

/// Decides whether one mask entry selects its coordinate.
pub fn evaluate_entry_selected(mask_entry: Option<i64>, structural: bool, complement: bool) -> (selected: bool)
    ensures
        selected == entry_selected(mask_entry, structural, complement),
{
    let base: bool = match mask_entry {
        Option::Some(value) => structural || value != 0,
        Option::None => false,
    };
    if complement {
        !base
    } else {
        base
    }
}

/// A selection predicate over the coordinates of a vector-shaped output:
/// either "select all", or an explicit boolean-castable vector.
pub trait VectorMask {
    /// Whether this mask is the "select all" sentinel.
    spec fn spec_select_all(&self) -> bool;

    /// The mask's dimension; meaningful only for an explicit mask.
    spec fn spec_mask_length(&self) -> nat;

    /// The mask's stored entry at a coordinate; meaningful only for an
    /// explicit mask.
    spec fn spec_mask_entry(&self, index: int) -> Option<i64>;

    /// Whether this mask is the "select all" sentinel.
    fn mask_select_all(&self) -> (select_all: bool)
        ensures
            select_all == self.spec_select_all(),
    ;

    /// The mask's dimension.
    fn mask_length(&self) -> (length: usize)
        ensures
            length as nat == self.spec_mask_length(),
    ;

    /// The mask's stored entry at a coordinate.
    fn mask_entry(&self, index: usize) -> (entry: Option<i64>)
        requires
            (index as nat) < self.spec_mask_length(),
        ensures
            entry == self.spec_mask_entry(index as int),
    ;
}

/// Whether a vector mask selects a coordinate of the output, under the mask
/// interpretation flags of the given options: every coordinate under the
/// "select all" sentinel, else by the mask's entry there.
pub open spec fn mask_coordinate_selected<Mask: VectorMask>(
    mask: &Mask,
    options: OperatorOptions,
    index: int,
) -> bool {
    if mask.spec_select_all() {
        true
    } else {
        entry_selected(
            mask.spec_mask_entry(index),
            options.use_mask_structure_of_stored_values_as_mask,
            options.use_mask_complement,
        )
    }
}

/// The "select all" sentinel over vector-shaped outputs: no restriction.
#[derive(Clone, Debug)]
pub struct SelectEntireVector {
    context: Context,
}

impl SelectEntireVector {
    pub fn new(context: &Context) -> SelectEntireVector {
        SelectEntireVector { context: *context }
    }
}

/// A selection predicate over the coordinates of a matrix-shaped output:
/// either "select all", or an explicit boolean-castable matrix.
pub trait MatrixMask {
    /// Whether this mask is the "select all" sentinel.
    spec fn spec_select_all(&self) -> bool;

    /// Whether the mask's representation is well formed.
    spec fn spec_mask_well_formed(&self) -> bool;

    /// The mask's row height; meaningful only for an explicit mask.
    spec fn spec_mask_row_height(&self) -> nat;

    /// The mask's column width; meaningful only for an explicit mask.
    spec fn spec_mask_column_width(&self) -> nat;

    /// The mask's stored entry at a coordinate; meaningful only for an
    /// explicit mask.
    spec fn spec_mask_matrix_entry(&self, row: int, column: int) -> Option<i64>;

    /// Whether this mask is the "select all" sentinel.
    fn mask_select_all(&self) -> (select_all: bool)
        ensures
            select_all == self.spec_select_all(),
    ;

    /// The mask's row height.
    fn mask_row_height(&self) -> (height: usize)
        requires
            self.spec_mask_well_formed(),
        ensures
            height as nat == self.spec_mask_row_height(),
    ;

    /// The mask's column width.
    fn mask_column_width(&self) -> (width: usize)
        requires
            self.spec_mask_well_formed(),
        ensures
            width as nat == self.spec_mask_column_width(),
    ;

    /// The mask's stored entry at a coordinate.
    fn mask_matrix_entry(&self, row: usize, column: usize) -> (entry: Option<i64>)
        requires
            self.spec_mask_well_formed(),
            (row as nat) < self.spec_mask_row_height(),
            (column as nat) < self.spec_mask_column_width(),
        ensures
            entry == self.spec_mask_matrix_entry(row as int, column as int),
    ;
}

/// Whether a matrix mask selects a coordinate of the output, under the mask
/// interpretation flags of the given options: every coordinate under the
/// "select all" sentinel, else by the mask's entry there.
pub open spec fn mask_matrix_coordinate_selected<Mask: MatrixMask>(
    mask: &Mask,
    options: OperatorOptions,
    row: int,
    column: int,
) -> bool {
    if mask.spec_select_all() {
        true
    } else {
        entry_selected(
            mask.spec_mask_matrix_entry(row, column),
            options.use_mask_structure_of_stored_values_as_mask,
            options.use_mask_complement,
        )
    }
}

impl VectorMask for SelectEntireVector {
    open spec fn spec_select_all(&self) -> bool {
        true
    }

    open spec fn spec_mask_length(&self) -> nat {
        0
    }

    open spec fn spec_mask_entry(&self, index: int) -> Option<i64> {
        Option::None
    }

    fn mask_select_all(&self) -> (select_all: bool) {
        true
    }

    fn mask_length(&self) -> (length: usize) {
        0
    }

    fn mask_entry(&self, index: usize) -> (entry: Option<i64>) {
        Option::None
    }
}

/// The "select all" sentinel over matrix-shaped outputs: no restriction.
#[derive(Clone, Debug)]
pub struct SelectEntireMatrix {
    context: Context,
}

impl SelectEntireMatrix {
    pub fn new(context: &Context) -> SelectEntireMatrix {
        SelectEntireMatrix { context: *context }
    }
}

impl MatrixMask for SelectEntireMatrix {
    open spec fn spec_select_all(&self) -> bool {
        true
    }

    open spec fn spec_mask_well_formed(&self) -> bool {
        true
    }

    open spec fn spec_mask_row_height(&self) -> nat {
        0
    }

    open spec fn spec_mask_column_width(&self) -> nat {
        0
    }

    open spec fn spec_mask_matrix_entry(&self, row: int, column: int) -> Option<i64> {
        Option::None
    }

    fn mask_select_all(&self) -> (select_all: bool) {
        true
    }

    fn mask_row_height(&self) -> (height: usize) {
        0
    }

    fn mask_column_width(&self) -> (width: usize) {
        0
    }

    fn mask_matrix_entry(&self, row: usize, column: usize) -> (entry: Option<i64>) {
        Option::None
    }
}

} // verus!
