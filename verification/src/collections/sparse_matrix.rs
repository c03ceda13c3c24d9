//! Sparse matrices over the `i64` value domain.
//!
//! A matrix has a fixed size and stores a value at a subset of its
//! coordinates. Its mathematical model is a sequence of rows, each a
//! sequence of optional values, one per column.

use vstd::prelude::*;

use crate::collections::sparse_vector::count_stored;
use crate::collections::sparse_vector::lemma_count_stored_bounded;
use crate::context::Context;
use crate::error::SparseLinearAlgebraError;
use crate::operators::binary_operator::{
    apply_binary_function, evaluate_binary_function, BinaryFunction, BinaryOperator,
};

verus! {

/// The size of a matrix: its row height and column width.
#[derive(Clone, Copy, Debug, PartialEq, Eq, Structural)]
pub struct Size {
    pub height: usize,
    pub width: usize,
}

impl Size {
    pub fn new(height: usize, width: usize) -> (size: Size)
        ensures
            size == (Size { height, width }),
    {
        Size { height, width }
    }

    pub fn height(&self) -> (height: usize)
        ensures
            height == self.height,
    {
        self.height
    }

    pub fn width(&self) -> (width: usize)
        ensures
            width == self.width,
    {
        self.width
    }
}

impl From<(usize, usize)> for Size {
    fn from(pair: (usize, usize)) -> (size: Size) {
        Size { height: pair.0, width: pair.1 }
    }
}

impl vstd::std_specs::convert::FromSpecImpl<(usize, usize)> for Size {
    open spec fn obeys_from_spec() -> bool {
        true
    }

    open spec fn from_spec(pair: (usize, usize)) -> Size {
        Size { height: pair.0, width: pair.1 }
    }
}

/// One coordinate of a matrix.
#[derive(Clone, Copy, Debug, PartialEq, Eq, Structural)]
pub struct Coordinate {
    pub row: usize,
    pub column: usize,
}

impl Coordinate {
    pub fn new(row: usize, column: usize) -> (coordinate: Coordinate)
        ensures
            coordinate == (Coordinate { row, column }),
    {
        Coordinate { row, column }
    }

    pub fn row(&self) -> (row: usize)
        ensures
            row == self.row,
    {
        self.row
    }

    pub fn column(&self) -> (column: usize)
        ensures
            column == self.column,
    {
        self.column
    }
}

impl From<(usize, usize)> for Coordinate {
    fn from(pair: (usize, usize)) -> (coordinate: Coordinate) {
        Coordinate { row: pair.0, column: pair.1 }
    }
}

impl vstd::std_specs::convert::FromSpecImpl<(usize, usize)> for Coordinate {
    open spec fn obeys_from_spec() -> bool {
        true
    }

    open spec fn from_spec(pair: (usize, usize)) -> Coordinate {
        Coordinate { row: pair.0, column: pair.1 }
    }
}

/// One stored coordinate-value triple of a sparse matrix.
#[derive(Clone, Copy, Debug, PartialEq, Eq, Structural)]
pub struct MatrixElement {
    pub row: usize,
    pub column: usize,
    pub value: i64,
}

impl MatrixElement {
    pub fn new(row: usize, column: usize, value: i64) -> (element: MatrixElement)
        ensures
            element == (MatrixElement { row, column, value }),
    {
        MatrixElement { row, column, value }
    }

    /// One element from its coordinate-value triple.
    pub fn from_triple(row: usize, column: usize, value: i64) -> (element: MatrixElement)
        ensures
            element == (MatrixElement { row, column, value }),
    {
        MatrixElement { row, column, value }
    }

    pub fn row(&self) -> (row: usize)
        ensures
            row == self.row,
    {
        self.row
    }

    pub fn column(&self) -> (column: usize)
        ensures
            column == self.column,
    {
        self.column
    }

    pub fn value(&self) -> (value: i64)
        ensures
            value == self.value,
    {
        self.value
    }
}

impl From<(usize, usize, i64)> for MatrixElement {
    fn from(triple: (usize, usize, i64)) -> (element: MatrixElement) {
        MatrixElement { row: triple.0, column: triple.1, value: triple.2 }
    }
}

impl vstd::std_specs::convert::FromSpecImpl<(usize, usize, i64)> for MatrixElement {
    open spec fn obeys_from_spec() -> bool {
        true
    }

    open spec fn from_spec(triple: (usize, usize, i64)) -> MatrixElement {
        MatrixElement { row: triple.0, column: triple.1, value: triple.2 }
    }
}

/// An ordered list of coordinate-value triples, as handed to and returned
/// by a sparse matrix.
#[derive(Clone, Debug)]
pub struct MatrixElementList {
    elements: Vec<MatrixElement>,
}

impl MatrixElementList {
    /// The elements of this list, in order.
    pub closed spec fn spec_elements(&self) -> Seq<MatrixElement> {
        self.elements@
    }

    /// A list holding the given elements, in the given order.
    pub fn from_element_vector(elements: Vec<MatrixElement>) -> (list: MatrixElementList)
        ensures
            list.spec_elements() == elements@,
    {
        MatrixElementList { elements }
    }

    /// The number of elements in the list.
    pub fn length(&self) -> (length: usize)
        ensures
            length == self.spec_elements().len(),
    {
        self.elements.len()
    }

    /// The element at a position in the list.
    pub fn element_at(&self, position: usize) -> (element: MatrixElement)
        requires
            (position as nat) < self.spec_elements().len(),
        ensures
            element == self.spec_elements()[position as int],
    {
        self.elements[position]
    }
}

impl PartialEq for MatrixElementList {
    /// Two lists are equal iff they hold the same elements in the same
    /// order.
    fn eq(&self, other: &MatrixElementList) -> (equal: bool) {
        if self.elements.len() != other.elements.len() {
            return false;
        }
        let length = self.elements.len();
        let mut position: usize = 0;
        while position < length
            invariant
                length == self.elements@.len(),
                length == other.elements@.len(),
                position <= length,
                forall|i: int| 0 <= i < position ==> self.elements@[i] == other.elements@[i],
            decreases length - position,
        {
            if self.elements[position] != other.elements[position] {
                return false;
            }
            position = position + 1;
        }
        proof {
            assert(self.elements@ =~= other.elements@);
        }
        true
    }
}

impl vstd::std_specs::cmp::PartialEqSpecImpl for MatrixElementList {
    open spec fn obeys_eq_spec() -> bool {
        true
    }

    open spec fn eq_spec(&self, other: &MatrixElementList) -> bool {
        self.spec_elements() == other.spec_elements()
    }
}

/// A grid of `height` rows of `width` coordinates, none of them stored.
pub open spec fn empty_matrix_rows(height: nat, width: nat) -> Seq<Seq<Option<i64>>> {
    Seq::new(height, |r: int| Seq::new(width, |c: int| Option::<i64>::None))
}

/// One element folded into a row grid: a fresh coordinate stores the
/// element's value; a duplicate coordinate stores
/// `duplicates(existing_value, new_value)`.
pub open spec fn insert_matrix_element(
    rows: Seq<Seq<Option<i64>>>,
    element: MatrixElement,
    duplicates: BinaryFunction,
) -> Seq<Seq<Option<i64>>> {
    let merged = match rows[element.row as int][element.column as int] {
        Option::None => element.value,
        Option::Some(existing) => apply_binary_function(duplicates, existing, element.value),
    };
    rows.update(
        element.row as int,
        rows[element.row as int].update(element.column as int, Option::Some(merged)),
    )
}

/// The row grid built by folding an element list, in order, into an
/// initially empty matrix of the given size.
pub open spec fn build_matrix_rows(
    height: nat,
    width: nat,
    elements: Seq<MatrixElement>,
    duplicates: BinaryFunction,
) -> Seq<Seq<Option<i64>>>
    decreases elements.len(),
{
    if elements.len() == 0 {
        empty_matrix_rows(height, width)
    } else {
        insert_matrix_element(
            build_matrix_rows(height, width, elements.drop_last(), duplicates),
            elements.last(),
            duplicates,
        )
    }
}

/// Whether every element of a list lies inside a matrix of the given size.
pub open spec fn matrix_elements_in_bounds(
    elements: Seq<MatrixElement>,
    height: nat,
    width: nat,
) -> bool {
    forall|i: int| 0 <= i < elements.len() ==> (#[trigger] elements[i].row as nat) < height
        && (elements[i].column as nat) < width
}

/// How many coordinates of the first `row_count` rows store a value.
pub open spec fn count_stored_matrix(rows: Seq<Seq<Option<i64>>>, row_count: int) -> nat
    decreases row_count,
{
    if row_count <= 0 {
        0
    } else {
        count_stored_matrix(rows, row_count - 1) + count_stored(
            rows[row_count - 1],
            rows[row_count - 1].len() as int,
        )
    }
}

/// The stored count of a row grid is bounded by its cell count.
pub proof fn lemma_count_stored_matrix_bounded(
    rows: Seq<Seq<Option<i64>>>,
    row_count: int,
    width: nat,
)
    requires
        0 <= row_count <= rows.len(),
        forall|r: int| 0 <= r < rows.len() ==> (#[trigger] rows[r]).len() == width,
    ensures
        count_stored_matrix(rows, row_count) <= row_count * width,
    decreases row_count,
{
    if row_count > 0 {
        lemma_count_stored_matrix_bounded(rows, row_count - 1, width);
        lemma_count_stored_bounded(rows[row_count - 1], width as int);
        assert((row_count - 1) * width + width == row_count * width) by (nonlinear_arith);
    }
}

/// The stored elements of one row's first `count` columns, in ascending
/// column order, tagged with the row's index.
pub open spec fn row_stored_elements(
    row: Seq<Option<i64>>,
    row_index: int,
    count: int,
) -> Seq<MatrixElement>
    decreases count,
{
    if count <= 0 {
        Seq::empty()
    } else {
        let rest = row_stored_elements(row, row_index, count - 1);
        match row[count - 1] {
            Option::Some(value) => rest.push(
                MatrixElement {
                    row: row_index as usize,
                    column: (count - 1) as usize,
                    value,
                },
            ),
            Option::None => rest,
        }
    }
}

/// The stored elements of the first `row_count` rows, in row-major order.
pub open spec fn matrix_stored_elements(
    rows: Seq<Seq<Option<i64>>>,
    row_count: int,
) -> Seq<MatrixElement>
    decreases row_count,
{
    if row_count <= 0 {
        Seq::empty()
    } else {
        matrix_stored_elements(rows, row_count - 1) + row_stored_elements(
            rows[row_count - 1],
            row_count - 1,
            rows[row_count - 1].len() as int,
        )
    }
}

/// A sparse matrix: a fixed grid of coordinates, a value stored at a subset
/// of them, and the context it was built against.
#[derive(Clone, Debug)]
pub struct SparseMatrix {
    context: Context,
    column_width: usize,
    rows: Vec<Vec<Option<i64>>>,
}

impl SparseMatrix {
    /// The matrix's model: one row per sequence, one optional value per
    /// column.
    pub closed spec fn spec_rows(&self) -> Seq<Seq<Option<i64>>> {
        Seq::new(self.rows@.len(), |r: int| self.rows@[r]@)
    }

    /// The matrix's row height.
    pub open spec fn spec_row_height(&self) -> nat {
        self.spec_rows().len()
    }

    /// The matrix's column width.
    pub closed spec fn spec_column_width(&self) -> nat {
        self.column_width as nat
    }

    /// Every row spans the full column width, and the grid's cell count
    /// fits the machine's word.
    pub open spec fn wf(&self) -> bool {
        &&& forall|r: int| 0 <= r < self.spec_rows().len() ==> (#[trigger] self.spec_rows()[r]).len()
            == self.spec_column_width()
        &&& self.spec_row_height() * self.spec_column_width() <= usize::MAX
    }

    /// The matrix's stored entry at a coordinate.
    pub open spec fn spec_entry(&self, row: int, column: int) -> Option<i64> {
        self.spec_rows()[row][column]
    }

    /// The stored entry of the matrix as transposed by an option flag.
    pub open spec fn spec_transposed_entry(&self, transpose: bool, row: int, column: int) -> Option<
        i64,
    > {
        if transpose {
            self.spec_entry(column, row)
        } else {
            self.spec_entry(row, column)
        }
    }

    /// The row height of the matrix as transposed by an option flag.
    pub open spec fn spec_effective_row_height(&self, transpose: bool) -> nat {
        if transpose {
            self.spec_column_width()
        } else {
            self.spec_row_height()
        }
    }

    /// The column width of the matrix as transposed by an option flag.
    pub open spec fn spec_effective_column_width(&self, transpose: bool) -> nat {
        if transpose {
            self.spec_row_height()
        } else {
            self.spec_column_width()
        }
    }

    /// One row of the matrix as transposed by an option flag.
    pub open spec fn spec_effective_row(&self, transpose: bool, row: int) -> Seq<Option<i64>> {
        Seq::new(
            self.spec_effective_column_width(transpose),
            |k: int| self.spec_transposed_entry(transpose, row, k),
        )
    }

    /// One column of the matrix as transposed by an option flag.
    pub open spec fn spec_effective_column(&self, transpose: bool, column: int) -> Seq<
        Option<i64>,
    > {
        Seq::new(
            self.spec_effective_row_height(transpose),
            |k: int| self.spec_transposed_entry(transpose, k, column),
        )
    }

    /// How many coordinates store a value.
    pub open spec fn spec_number_of_stored_elements(&self) -> nat {
        count_stored_matrix(self.spec_rows(), self.spec_row_height() as int)
    }

    /// The context the matrix was built against.
    pub closed spec fn spec_context(&self) -> Context {
        self.context
    }

    /// An empty matrix of the given size. Fails with `OutOfMemory` iff the
    /// grid's cell count overflows the machine's word.
    pub fn new(context: &Context, size: &Size) -> (result: Result<
        SparseMatrix,
        SparseLinearAlgebraError,
    >)
        ensures
            (size.height * size.width <= usize::MAX) ==> (result matches Ok(matrix)
                && matrix.wf() && matrix.spec_rows() == empty_matrix_rows(
                size.height as nat,
                size.width as nat,
            ) && matrix.spec_column_width() == size.width as nat && matrix.spec_context()
                == *context),
            (size.height * size.width > usize::MAX) ==> (result matches Err(error) && error
                == SparseLinearAlgebraError::OutOfMemory),
    {
        if size.height.checked_mul(size.width).is_none() {
            return Err(SparseLinearAlgebraError::OutOfMemory);
        }
        let mut rows: Vec<Vec<Option<i64>>> = Vec::new();
        let mut row: usize = 0;
        while row < size.height
            invariant
                row <= size.height,
                rows@.len() == row,
                forall|r: int| 0 <= r < row ==> (#[trigger] rows@[r])@ == Seq::new(
                    size.width as nat,
                    |c: int| Option::<i64>::None,
                ),
            decreases size.height - row,
        {
            let mut columns: Vec<Option<i64>> = Vec::new();
            let mut column: usize = 0;
            while column < size.width
                invariant
                    column <= size.width,
                    columns@.len() == column,
                    forall|c: int| 0 <= c < column ==> columns@[c] is None,
                decreases size.width - column,
            {
                columns.push(Option::None);
                column = column + 1;
            }
            proof {
                assert(columns@ =~= Seq::new(size.width as nat, |c: int| Option::<i64>::None));
            }
            rows.push(columns);
            row = row + 1;
        }
        let matrix = SparseMatrix { context: *context, column_width: size.width, rows };
        proof {
            assert(matrix.spec_rows() =~= empty_matrix_rows(
                size.height as nat,
                size.width as nat,
            ));
        }
        Ok(matrix)
    }

    /// A matrix of the given size holding an element list, elements folded
    /// in order and duplicate coordinates merged through the reduction
    /// operator. Fails with `OutOfMemory` iff the grid's cell count
    /// overflows the machine's word, else with `IndexOutOfBounds` iff some
    /// element's coordinate lies outside the size.
    pub fn from_element_list<Reduction: BinaryOperator>(
        context: &Context,
        size: &Size,
        element_list: &MatrixElementList,
        reduction_operator_for_duplicates: &Reduction,
    ) -> (result: Result<SparseMatrix, SparseLinearAlgebraError>)
        ensures
            (size.height * size.width > usize::MAX) ==> (result matches Err(error) && error
                == SparseLinearAlgebraError::OutOfMemory),
            (size.height * size.width <= usize::MAX) && matrix_elements_in_bounds(
                element_list.spec_elements(),
                size.height as nat,
                size.width as nat,
            ) ==> (result matches Ok(matrix) && matrix.wf() && matrix.spec_rows()
                == build_matrix_rows(
                size.height as nat,
                size.width as nat,
                element_list.spec_elements(),
                reduction_operator_for_duplicates.spec_binary_function(),
            ) && matrix.spec_column_width() == size.width as nat && matrix.spec_context()
                == *context),
            (size.height * size.width <= usize::MAX) && !matrix_elements_in_bounds(
                element_list.spec_elements(),
                size.height as nat,
                size.width as nat,
            ) ==> (result matches Err(error) && error
                == SparseLinearAlgebraError::IndexOutOfBounds),
    {
        let duplicates = reduction_operator_for_duplicates.binary_function();
        let mut matrix = match SparseMatrix::new(context, size) {
            Ok(matrix) => matrix,
            Err(error) => { return Err(error) },
        };
        let element_count = element_list.length();
        let mut position: usize = 0;
        while position < element_count
            invariant
                element_count == element_list.spec_elements().len(),
                position <= element_count,
                duplicates == reduction_operator_for_duplicates.spec_binary_function(),
                matrix.spec_context() == *context,
                matrix.spec_row_height() == size.height as nat,
                matrix.spec_column_width() == size.width as nat,
                matrix.wf(),
                forall|i: int| 0 <= i < position ==> (#[trigger] element_list.spec_elements()[i].row as nat)
                    < size.height as nat && (element_list.spec_elements()[i].column as nat)
                    < size.width as nat,
                matrix.spec_rows() == build_matrix_rows(
                    size.height as nat,
                    size.width as nat,
                    element_list.spec_elements().take(position as int),
                    duplicates,
                ),
            decreases element_count - position,
        {
            let element = element_list.element_at(position);
            if element.row >= size.height || element.column >= size.width {
                proof {
                    assert(!matrix_elements_in_bounds(
                        element_list.spec_elements(),
                        size.height as nat,
                        size.width as nat,
                    ));
                }
                return Err(SparseLinearAlgebraError::IndexOutOfBounds);
            }
            proof {
                assert(matrix.spec_rows()[element.row as int] == matrix.rows@[element.row as int]@);
                assert(matrix.spec_rows()[element.row as int].len()
                    == matrix.spec_column_width());
            }
            let merged = match matrix.rows[element.row][element.column] {
                Option::None => element.value,
                Option::Some(existing) => evaluate_binary_function(
                    duplicates,
                    existing,
                    element.value,
                ),
            };
            let ghost previous_rows = matrix.spec_rows();
            let row_vector = &mut matrix.rows[element.row];
            row_vector[element.column] = Option::Some(merged);
            position = position + 1;
            proof {
                assert(matrix.spec_rows() =~= insert_matrix_element(
                    previous_rows,
                    element,
                    duplicates,
                ));
                let elements = element_list.spec_elements();
                assert(elements.take(position as int).drop_last() =~= elements.take(
                    position as int - 1,
                ));
                assert(elements.take(position as int).last() == elements[position as int - 1]);
            }
        }
        proof {
            assert(element_list.spec_elements().take(element_count as int)
                =~= element_list.spec_elements());
        }
        Ok(matrix)
    }

    /// The matrix's row height.
    pub fn row_height(&self) -> (height: usize)
        ensures
            height as nat == self.spec_row_height(),
    {
        self.rows.len()
    }

    /// The matrix's column width.
    pub fn column_width(&self) -> (width: usize)
        ensures
            width as nat == self.spec_column_width(),
    {
        self.column_width
    }

    /// The matrix's size.
    pub fn size(&self) -> (size: Size)
        ensures
            size.height as nat == self.spec_row_height(),
            size.width as nat == self.spec_column_width(),
    {
        Size { height: self.rows.len(), width: self.column_width }
    }

    /// The context the matrix was built against.
    pub fn context(&self) -> (context: Context)
        ensures
            context == self.spec_context(),
    {
        self.context
    }

    /// The stored entry at a coordinate known to be in bounds.
    pub fn stored_entry(&self, row: usize, column: usize) -> (entry: Option<i64>)
        requires
            self.wf(),
            (row as nat) < self.spec_row_height(),
            (column as nat) < self.spec_column_width(),
        ensures
            entry == self.spec_entry(row as int, column as int),
    {
        self.rows[row][column]
    }

    /// The stored entry, under an option flag transposing the matrix, at a
    /// coordinate known to be in bounds of the transposed shape.
    pub fn effective_entry(&self, transpose: bool, row: usize, column: usize) -> (entry: Option<
        i64,
    >)
        requires
            self.wf(),
            (row as nat) < self.spec_effective_row_height(transpose),
            (column as nat) < self.spec_effective_column_width(transpose),
        ensures
            entry == self.spec_transposed_entry(transpose, row as int, column as int),
    {
        if transpose {
            self.rows[column][row]
        } else {
            self.rows[row][column]
        }
    }

    /// The row height of the matrix as transposed by an option flag.
    pub fn effective_row_height(&self, transpose: bool) -> (height: usize)
        ensures
            height as nat == self.spec_effective_row_height(transpose),
    {
        if transpose {
            self.column_width
        } else {
            self.rows.len()
        }
    }

    /// The column width of the matrix as transposed by an option flag.
    pub fn effective_column_width(&self, transpose: bool) -> (width: usize)
        ensures
            width as nat == self.spec_effective_column_width(transpose),
    {
        if transpose {
            self.rows.len()
        } else {
            self.column_width
        }
    }

    /// The stored entry at a coordinate, or `None` where nothing is stored.
    /// Fails with `IndexOutOfBounds` iff the coordinate lies outside the
    /// matrix.
    pub fn get_element_value(&self, coordinate: &Coordinate) -> (result: Result<
        Option<i64>,
        SparseLinearAlgebraError,
    >)
        requires
            self.wf(),
        ensures
            (coordinate.row as nat) < self.spec_row_height() && (coordinate.column as nat)
                < self.spec_column_width() ==> (result matches Ok(entry) && entry
                == self.spec_entry(coordinate.row as int, coordinate.column as int)),
            (coordinate.row as nat) >= self.spec_row_height() || (coordinate.column as nat)
                >= self.spec_column_width() ==> (result matches Err(error) && error
                == SparseLinearAlgebraError::IndexOutOfBounds),
    {
        if coordinate.row < self.rows.len() && coordinate.column < self.column_width {
            Ok(self.rows[coordinate.row][coordinate.column])
        } else {
            Err(SparseLinearAlgebraError::IndexOutOfBounds)
        }
    }

    /// The stored value at a coordinate, or the domain's default zero where
    /// nothing is stored.
    pub fn get_element_value_or_default(&self, coordinate: &Coordinate) -> (result: Result<
        i64,
        SparseLinearAlgebraError,
    >)
        requires
            self.wf(),
        ensures
            (coordinate.row as nat) < self.spec_row_height() && (coordinate.column as nat)
                < self.spec_column_width() ==> (result matches Ok(value) && value == (
            match self.spec_entry(coordinate.row as int, coordinate.column as int) {
                Option::Some(stored) => stored,
                Option::None => 0i64,
            })),
            (coordinate.row as nat) >= self.spec_row_height() || (coordinate.column as nat)
                >= self.spec_column_width() ==> (result matches Err(error) && error
                == SparseLinearAlgebraError::IndexOutOfBounds),
    {
        match self.get_element_value(coordinate) {
            Ok(Option::Some(value)) => Ok(value),
            Ok(Option::None) => Ok(0),
            Err(error) => Err(error),
        }
    }

    /// The stored element at a coordinate, or `None` where nothing is
    /// stored. Fails with `IndexOutOfBounds` iff the coordinate lies
    /// outside the matrix.
    pub fn get_element(&self, coordinate: Coordinate) -> (result: Result<
        Option<MatrixElement>,
        SparseLinearAlgebraError,
    >)
        requires
            self.wf(),
        ensures
            (coordinate.row as nat) < self.spec_row_height() && (coordinate.column as nat)
                < self.spec_column_width() ==> (result matches Ok(element) && element == (
            match self.spec_entry(coordinate.row as int, coordinate.column as int) {
                Option::Some(value) => Option::Some(
                    MatrixElement { row: coordinate.row, column: coordinate.column, value },
                ),
                Option::None => Option::<MatrixElement>::None,
            })),
            (coordinate.row as nat) >= self.spec_row_height() || (coordinate.column as nat)
                >= self.spec_column_width() ==> (result matches Err(error) && error
                == SparseLinearAlgebraError::IndexOutOfBounds),
    {
        match self.get_element_value(&coordinate) {
            Ok(Option::Some(value)) => Ok(
                Some(MatrixElement { row: coordinate.row, column: coordinate.column, value }),
            ),
            Ok(Option::None) => Ok(None),
            Err(error) => Err(error),
        }
    }

    /// Stores one element's value at its coordinate, overwriting any prior
    /// entry there. Fails with `IndexOutOfBounds` iff the coordinate lies
    /// outside the matrix, leaving the matrix unchanged.
    pub fn set_element(&mut self, element: MatrixElement) -> (result: Result<
        (),
        SparseLinearAlgebraError,
    >)
        requires
            old(self).wf(),
        ensures
            final (self).wf(),
            final (self).spec_column_width() == old(self).spec_column_width(),
            final (self).spec_context() == old(self).spec_context(),
            (element.row as nat) < old(self).spec_row_height() && (element.column as nat) < old(
                self,
            ).spec_column_width() ==> (result matches Ok(()) && final (self).spec_rows() == old(
                self,
            ).spec_rows().update(
                element.row as int,
                old(self).spec_rows()[element.row as int].update(
                    element.column as int,
                    Option::Some(element.value),
                ),
            )),
            (element.row as nat) >= old(self).spec_row_height() || (element.column as nat) >= old(
                self,
            ).spec_column_width() ==> (result matches Err(error) && error
                == SparseLinearAlgebraError::IndexOutOfBounds && final (self).spec_rows() == old(
                self,
            ).spec_rows()),
    {
        if element.row < self.rows.len() && element.column < self.column_width {
            proof {
                assert(self.spec_rows()[element.row as int] == self.rows@[element.row as int]@);
                assert(self.spec_rows()[element.row as int].len() == self.spec_column_width());
            }
            let ghost previous_rows = self.spec_rows();
            let row_vector = &mut self.rows[element.row];
            row_vector[element.column] = Option::Some(element.value);
            proof {
                assert(self.spec_rows() =~= previous_rows.update(
                    element.row as int,
                    previous_rows[element.row as int].update(
                        element.column as int,
                        Option::Some(element.value),
                    ),
                ));
            }
            Ok(())
        } else {
            Err(SparseLinearAlgebraError::IndexOutOfBounds)
        }
    }

    /// How many coordinates store a value.
    pub fn number_of_stored_elements(&self) -> (result: Result<
        usize,
        SparseLinearAlgebraError,
    >)
        requires
            self.wf(),
        ensures
            result matches Ok(count) && count as nat == self.spec_number_of_stored_elements(),
    {
        let mut count: usize = 0;
        let mut row: usize = 0;
        let height = self.rows.len();
        while row < height
            invariant
                self.wf(),
                height == self.spec_row_height(),
                row <= height,
                count as nat == count_stored_matrix(self.spec_rows(), row as int),
            decreases height - row,
        {
            proof {
                assert(self.spec_rows()[row as int] == self.rows@[row as int]@);
                assert(self.spec_rows()[row as int].len() == self.spec_column_width());
            }
            let width = self.rows[row].len();
            let mut column: usize = 0;
            while column < width
                invariant
                    self.wf(),
                    row < height,
                    height == self.spec_row_height(),
                    width == self.spec_rows()[row as int].len(),
                    width as nat == self.spec_column_width(),
                    column <= width,
                    count as nat == count_stored_matrix(self.spec_rows(), row as int)
                        + count_stored(self.spec_rows()[row as int], column as int),
                decreases width - column,
            {
                if self.rows[row][column].is_some() {
                    proof {
                        let ghost grid_height = self.spec_row_height();
                        let ghost grid_width = self.spec_column_width();
                        let ghost row_position = row as nat;
                        lemma_count_stored_matrix_bounded(
                            self.spec_rows(),
                            row as int,
                            grid_width,
                        );
                        lemma_count_stored_bounded(self.spec_rows()[row as int], column as int);
                        assert(row_position * grid_width + grid_width == (row_position + 1)
                            * grid_width) by (nonlinear_arith);
                        assert((row_position + 1) * grid_width <= grid_height * grid_width)
                            by (nonlinear_arith)
                            requires
                                row_position + 1 <= grid_height,
                        ;
                    }
                    count = count + 1;
                }
                column = column + 1;
            }
            row = row + 1;
        }
        Ok(count)
    }

    /// The stored elements, in row-major order.
    pub fn get_element_list(&self) -> (result: Result<
        MatrixElementList,
        SparseLinearAlgebraError,
    >)
        requires
            self.wf(),
        ensures
            result matches Ok(list) && list.spec_elements() == matrix_stored_elements(
                self.spec_rows(),
                self.spec_row_height() as int,
            ),
    {
        let mut elements: Vec<MatrixElement> = Vec::new();
        let mut row: usize = 0;
        let height = self.rows.len();
        while row < height
            invariant
                self.wf(),
                height == self.spec_row_height(),
                row <= height,
                elements@ == matrix_stored_elements(self.spec_rows(), row as int),
            decreases height - row,
        {
            proof {
                assert(self.spec_rows()[row as int] == self.rows@[row as int]@);
                assert(self.spec_rows()[row as int].len() == self.spec_column_width());
            }
            let width = self.rows[row].len();
            let mut column: usize = 0;
            while column < width
                invariant
                    self.wf(),
                    row < height,
                    height == self.spec_row_height(),
                    width == self.spec_rows()[row as int].len(),
                    column <= width,
                    elements@ == matrix_stored_elements(self.spec_rows(), row as int)
                        + row_stored_elements(self.spec_rows()[row as int], row as int, column as int),
                decreases width - column,
            {
                match self.rows[row][column] {
                    Option::Some(value) => elements.push(
                        MatrixElement { row, column, value },
                    ),
                    Option::None => {},
                }
                column = column + 1;
            }
            row = row + 1;
        }
        Ok(MatrixElementList::from_element_vector(elements))
    }

    /// Replaces the matrix's entries wholesale; the shape and context stay.
    pub(crate) fn assign_rows(&mut self, new_rows: Vec<Vec<Option<i64>>>)
        requires
            old(self).wf(),
            new_rows@.len() == old(self).spec_row_height(),
            forall|r: int| 0 <= r < new_rows@.len() ==> (#[trigger] new_rows@[r])@.len() == old(
                self,
            ).spec_column_width(),
        ensures
            final (self).wf(),
            final (self).spec_row_height() == old(self).spec_row_height(),
            final (self).spec_column_width() == old(self).spec_column_width(),
            final (self).spec_context() == old(self).spec_context(),
            forall|r: int| 0 <= r < new_rows@.len() ==> final (self).spec_rows()[r] == (
            #[trigger] new_rows@[r])@,
    {
        self.rows = new_rows;
    }
}

impl crate::operators::mask::MatrixMask for SparseMatrix {
    open spec fn spec_select_all(&self) -> bool {
        false
    }

    open spec fn spec_mask_well_formed(&self) -> bool {
        self.wf()
    }

    open spec fn spec_mask_row_height(&self) -> nat {
        self.spec_row_height()
    }

    open spec fn spec_mask_column_width(&self) -> nat {
        self.spec_column_width()
    }

    open spec fn spec_mask_matrix_entry(&self, row: int, column: int) -> Option<i64> {
        self.spec_entry(row, column)
    }

    fn mask_select_all(&self) -> (select_all: bool) {
        false
    }

    fn mask_row_height(&self) -> (height: usize) {
        self.row_height()
    }

    fn mask_column_width(&self) -> (width: usize) {
        self.column_width()
    }

    fn mask_matrix_entry(&self, row: usize, column: usize) -> (entry: Option<i64>) {
        self.stored_entry(row, column)
    }
}

} // verus!
