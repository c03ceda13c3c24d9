//! Sparse vectors over the `i64` value domain.
//!
//! A vector has a fixed length and stores a value at a subset of its
//! coordinates. Its mathematical model is a sequence of optional values, one
//! per coordinate.

use vstd::prelude::*;

use crate::context::Context;
use crate::error::SparseLinearAlgebraError;
use crate::operators::binary_operator::{
    apply_binary_function, evaluate_binary_function, BinaryFunction, BinaryOperator,
};
use crate::operators::mask::VectorMask;

verus! {

/// One stored coordinate-value pair of a sparse vector.
#[derive(Clone, Copy, Debug, PartialEq, Eq, Structural)]
pub struct VectorElement {
    pub index: usize,
    pub value: i64,
}

impl VectorElement {
    pub fn new(index: usize, value: i64) -> (element: VectorElement)
        ensures
            element == (VectorElement { index, value }),
    {
        VectorElement { index, value }
    }

    /// One element from its coordinate-value pair.
    pub fn from_pair(index: usize, value: i64) -> (element: VectorElement)
        ensures
            element == (VectorElement { index, value }),
    {
        VectorElement { index, value }
    }

    pub fn index(&self) -> (index: usize)
        ensures
            index == self.index,
    {
        self.index
    }

    pub fn value(&self) -> (value: i64)
        ensures
            value == self.value,
    {
        self.value
    }
}

impl From<(usize, i64)> for VectorElement {
    fn from(pair: (usize, i64)) -> (element: VectorElement) {
        VectorElement { index: pair.0, value: pair.1 }
    }
}

impl vstd::std_specs::convert::FromSpecImpl<(usize, i64)> for VectorElement {
    open spec fn obeys_from_spec() -> bool {
        true
    }

    open spec fn from_spec(pair: (usize, i64)) -> VectorElement {
        VectorElement { index: pair.0, value: pair.1 }
    }
}

/// An ordered list of coordinate-value pairs, as handed to and returned by
/// a sparse vector.
#[derive(Clone, Debug)]
pub struct VectorElementList {
    elements: Vec<VectorElement>,
}

impl VectorElementList {
    /// The elements of this list, in order.
    pub closed spec fn spec_elements(&self) -> Seq<VectorElement> {
        self.elements@
    }

    /// A list holding the given elements, in the given order.
    pub fn from_element_vector(elements: Vec<VectorElement>) -> (list: VectorElementList)
        ensures
            list.spec_elements() == elements@,
    {
        VectorElementList { elements }
    }

    /// The number of elements in the list.
    pub fn length(&self) -> (length: usize)
        ensures
            length == self.spec_elements().len(),
    {
        self.elements.len()
    }

    /// The element at a position in the list.
    pub fn element_at(&self, position: usize) -> (element: VectorElement)
        requires
            (position as nat) < self.spec_elements().len(),
        ensures
            element == self.spec_elements()[position as int],
    {
        self.elements[position]
    }
}

impl PartialEq for VectorElementList {
    /// Two lists are equal iff they hold the same elements in the same
    /// order.
    fn eq(&self, other: &VectorElementList) -> (equal: bool) {
        if self.elements.len() != other.elements.len() {
            return false;
        }
        let length = self.elements.len();
        let mut position: usize = 0;
        while position < length
            invariant
                length == self.elements@.len(),
                length == other.elements@.len(),
                position <= length,
                forall|i: int| 0 <= i < position ==> self.elements@[i] == other.elements@[i],
            decreases length - position,
        {
            if self.elements[position] != other.elements[position] {
                return false;
            }
            position = position + 1;
        }
        proof {
            assert(self.elements@ =~= other.elements@);
        }
        true
    }
}

impl vstd::std_specs::cmp::PartialEqSpecImpl for VectorElementList {
    open spec fn obeys_eq_spec() -> bool {
        true
    }

    open spec fn eq_spec(&self, other: &VectorElementList) -> bool {
        self.spec_elements() == other.spec_elements()
    }
}

/// A sequence of `length` coordinates, none of them stored.
pub open spec fn empty_vector_values(length: nat) -> Seq<Option<i64>> {
    Seq::new(length, |i: int| Option::<i64>::None)
}

/// One element folded into a value sequence: a fresh coordinate stores the
/// element's value; a duplicate coordinate stores
/// `duplicates(existing_value, new_value)`.
pub open spec fn insert_vector_element(
    values: Seq<Option<i64>>,
    element: VectorElement,
    duplicates: BinaryFunction,
) -> Seq<Option<i64>> {
    let merged = match values[element.index as int] {
        Option::None => element.value,
        Option::Some(existing) => apply_binary_function(duplicates, existing, element.value),
    };
    values.update(element.index as int, Option::Some(merged))
}

/// The value sequence built by folding an element list, in order, into an
/// initially empty vector of the given length.
pub open spec fn build_vector_values(
    length: nat,
    elements: Seq<VectorElement>,
    duplicates: BinaryFunction,
) -> Seq<Option<i64>>
    decreases elements.len(),
{
    if elements.len() == 0 {
        empty_vector_values(length)
    } else {
        insert_vector_element(
            build_vector_values(length, elements.drop_last(), duplicates),
            elements.last(),
            duplicates,
        )
    }
}

/// Whether every element of a list lies inside a vector of the given length.
pub open spec fn vector_elements_in_bounds(elements: Seq<VectorElement>, length: nat) -> bool {
    forall|i: int| 0 <= i < elements.len() ==> (#[trigger] elements[i].index as nat) < length
}

/// How many of the first `count` coordinates store a value.
pub open spec fn count_stored(values: Seq<Option<i64>>, count: int) -> nat
    decreases count,
{
    if count <= 0 {
        0
    } else {
        count_stored(values, count - 1) + (if values[count - 1] is Some {
            1nat
        } else {
            0nat
        })
    }
}

/// The stored count of a prefix is bounded by the prefix's length.
pub proof fn lemma_count_stored_bounded(values: Seq<Option<i64>>, count: int)
    requires
        count >= 0,
    ensures
        count_stored(values, count) <= count,
    decreases count,
{
    if count > 0 {
        lemma_count_stored_bounded(values, count - 1);
    }
}

/// The stored elements among the first `count` coordinates, in ascending
/// coordinate order.
pub open spec fn stored_elements_prefix(values: Seq<Option<i64>>, count: int) -> Seq<VectorElement>
    decreases count,
{
    if count <= 0 {
        Seq::empty()
    } else {
        let rest = stored_elements_prefix(values, count - 1);
        match values[count - 1] {
            Option::Some(value) => rest.push(VectorElement { index: (count - 1) as usize, value }),
            Option::None => rest,
        }
    }
}

/// A sparse vector: a fixed number of coordinates, a value stored at a
/// subset of them, and the context it was built against.
#[derive(Clone, Debug)]
pub struct SparseVector {
    context: Context,
    values: Vec<Option<i64>>,
}

impl SparseVector {
    /// The vector's model: one optional value per coordinate.
    pub closed spec fn spec_values(&self) -> Seq<Option<i64>> {
        self.values@
    }

    /// The vector's length.
    pub open spec fn spec_length(&self) -> nat {
        self.spec_values().len()
    }

    /// The vector's stored entry at a coordinate.
    pub open spec fn spec_entry(&self, index: int) -> Option<i64> {
        self.spec_values()[index]
    }

    /// How many coordinates store a value.
    pub open spec fn spec_number_of_stored_elements(&self) -> nat {
        count_stored(self.spec_values(), self.spec_length() as int)
    }

    /// The context the vector was built against.
    pub closed spec fn spec_context(&self) -> Context {
        self.context
    }

    /// An empty vector of the given length.
    pub fn new(context: &Context, length: &usize) -> (result: Result<
        SparseVector,
        SparseLinearAlgebraError,
    >)
        ensures
            result matches Ok(vector) && vector.spec_values() == empty_vector_values(
                *length as nat,
            ) && vector.spec_context() == *context,
    {
        let mut values: Vec<Option<i64>> = Vec::new();
        let mut coordinate: usize = 0;
        while coordinate < *length
            invariant
                coordinate <= *length,
                values@.len() == coordinate,
                forall|i: int| 0 <= i < coordinate ==> values@[i] is None,
            decreases *length - coordinate,
        {
            values.push(Option::None);
            coordinate = coordinate + 1;
        }
        proof {
            assert(values@ =~= empty_vector_values(*length as nat));
        }
        Ok(SparseVector { context: *context, values })
    }

    /// A vector of the given length holding an element list, elements folded
    /// in order and duplicate coordinates merged through the reduction
    /// operator. Fails with `IndexOutOfBounds` iff some element's coordinate
    /// lies outside the length.
    pub fn from_element_list<Reduction: BinaryOperator>(
        context: &Context,
        length: &usize,
        element_list: &VectorElementList,
        reduction_operator_for_duplicates: &Reduction,
    ) -> (result: Result<SparseVector, SparseLinearAlgebraError>)
        ensures
            vector_elements_in_bounds(element_list.spec_elements(), *length as nat) ==> (
            result matches Ok(vector) && vector.spec_values() == build_vector_values(
                *length as nat,
                element_list.spec_elements(),
                reduction_operator_for_duplicates.spec_binary_function(),
            ) && vector.spec_context() == *context),
            !vector_elements_in_bounds(element_list.spec_elements(), *length as nat) ==> (
            result matches Err(error) && error == SparseLinearAlgebraError::IndexOutOfBounds),
    {
        let duplicates = reduction_operator_for_duplicates.binary_function();
        let mut vector = match SparseVector::new(context, length) {
            Ok(vector) => vector,
            Err(error) => { return Err(error) },
        };
        let element_count = element_list.length();
        let mut position: usize = 0;
        while position < element_count
            invariant
                element_count == element_list.spec_elements().len(),
                position <= element_count,
                duplicates == reduction_operator_for_duplicates.spec_binary_function(),
                vector.spec_context() == *context,
                vector.spec_length() == *length as nat,
                forall|i: int| 0 <= i < position ==> (#[trigger] element_list.spec_elements()[i].index as nat) < *length as nat,
                vector.spec_values() == build_vector_values(
                    *length as nat,
                    element_list.spec_elements().take(position as int),
                    duplicates,
                ),
            decreases element_count - position,
        {
            let element = element_list.element_at(position);
            if element.index >= *length {
                proof {
                    assert(!vector_elements_in_bounds(
                        element_list.spec_elements(),
                        *length as nat,
                    ));
                }
                return Err(SparseLinearAlgebraError::IndexOutOfBounds);
            }
            let merged = match vector.values[element.index] {
                Option::None => element.value,
                Option::Some(existing) => evaluate_binary_function(
                    duplicates,
                    existing,
                    element.value,
                ),
            };
            vector.values[element.index] = Option::Some(merged);
            position = position + 1;
            proof {
                let elements = element_list.spec_elements();
                assert(elements.take(position as int).drop_last() =~= elements.take(
                    position as int - 1,
                ));
                assert(elements.take(position as int).last() == elements[position as int - 1]);
            }
        }
        proof {
            assert(element_list.spec_elements().take(element_count as int)
                =~= element_list.spec_elements());
        }
        Ok(vector)
    }

    /// The vector's length.
    pub fn length(&self) -> (length: usize)
        ensures
            length as nat == self.spec_length(),
    {
        self.values.len()
    }

    /// The context the vector was built against.
    pub fn context(&self) -> (context: Context)
        ensures
            context == self.spec_context(),
    {
        self.context
    }

    /// The stored entry at a coordinate known to be in bounds.
    pub fn stored_entry(&self, index: usize) -> (entry: Option<i64>)
        requires
            (index as nat) < self.spec_length(),
        ensures
            entry == self.spec_entry(index as int),
    {
        self.values[index]
    }

    /// The stored entry at a coordinate, or `None` where nothing is stored.
    /// Fails with `IndexOutOfBounds` iff the coordinate lies outside the
    /// vector.
    pub fn get_element_value(&self, index: &usize) -> (result: Result<
        Option<i64>,
        SparseLinearAlgebraError,
    >)
        ensures
            (*index as nat) < self.spec_length() ==> (result matches Ok(entry) && entry
                == self.spec_entry(*index as int)),
            (*index as nat) >= self.spec_length() ==> (result matches Err(error) && error
                == SparseLinearAlgebraError::IndexOutOfBounds),
    {
        if *index < self.values.len() {
            Ok(self.values[*index])
        } else {
            Err(SparseLinearAlgebraError::IndexOutOfBounds)
        }
    }

    /// The stored entry at a coordinate, or `None` where nothing is stored.
    pub fn element_value(&self, index: &usize) -> (result: Result<
        Option<i64>,
        SparseLinearAlgebraError,
    >)
        ensures
            (*index as nat) < self.spec_length() ==> (result matches Ok(entry) && entry
                == self.spec_entry(*index as int)),
            (*index as nat) >= self.spec_length() ==> (result matches Err(error) && error
                == SparseLinearAlgebraError::IndexOutOfBounds),
    {
        self.get_element_value(index)
    }

    /// The stored value at a coordinate, or the domain's default zero where
    /// nothing is stored.
    pub fn get_element_value_or_default(&self, index: &usize) -> (result: Result<
        i64,
        SparseLinearAlgebraError,
    >)
        ensures
            (*index as nat) < self.spec_length() ==> (result matches Ok(value) && value == (
            match self.spec_entry(*index as int) {
                Option::Some(stored) => stored,
                Option::None => 0i64,
            })),
            (*index as nat) >= self.spec_length() ==> (result matches Err(error) && error
                == SparseLinearAlgebraError::IndexOutOfBounds),
    {
        match self.get_element_value(index) {
            Ok(Option::Some(value)) => Ok(value),
            Ok(Option::None) => Ok(0),
            Err(error) => Err(error),
        }
    }

    /// The stored value at a coordinate, or the domain's default zero.
    pub fn element_value_or_default(&self, index: &usize) -> (result: Result<
        i64,
        SparseLinearAlgebraError,
    >)
        ensures
            (*index as nat) < self.spec_length() ==> (result matches Ok(value) && value == (
            match self.spec_entry(*index as int) {
                Option::Some(stored) => stored,
                Option::None => 0i64,
            })),
            (*index as nat) >= self.spec_length() ==> (result matches Err(error) && error
                == SparseLinearAlgebraError::IndexOutOfBounds),
    {
        self.get_element_value_or_default(index)
    }

    /// Stores one element's value at its coordinate, overwriting any prior
    /// entry there. Fails with `IndexOutOfBounds` iff the coordinate lies
    /// outside the vector, leaving the vector unchanged.
    pub fn set_element(&mut self, element: VectorElement) -> (result: Result<
        (),
        SparseLinearAlgebraError,
    >)
        ensures
            (element.index as nat) < old(self).spec_length() ==> (result matches Ok(())
                && final (self).spec_values() == old(self).spec_values().update(
                element.index as int,
                Option::Some(element.value),
            )),
            (element.index as nat) >= old(self).spec_length() ==> (result matches Err(error)
                && error == SparseLinearAlgebraError::IndexOutOfBounds && *final (self)
                == *old(self)),
            final (self).spec_context() == old(self).spec_context(),
    {
        if element.index < self.values.len() {
            self.values[element.index] = Option::Some(element.value);
            Ok(())
        } else {
            Err(SparseLinearAlgebraError::IndexOutOfBounds)
        }
    }

    /// How many coordinates store a value.
    pub fn number_of_stored_elements(&self) -> (result: Result<
        usize,
        SparseLinearAlgebraError,
    >)
        ensures
            result matches Ok(count) && count as nat == self.spec_number_of_stored_elements(),
    {
        let mut count: usize = 0;
        let mut coordinate: usize = 0;
        let length = self.values.len();
        while coordinate < length
            invariant
                length == self.spec_length(),
                coordinate <= length,
                count as nat == count_stored(self.spec_values(), coordinate as int),
                count <= coordinate,
            decreases length - coordinate,
        {
            if self.values[coordinate].is_some() {
                count = count + 1;
            }
            coordinate = coordinate + 1;
        }
        Ok(count)
    }

    /// The stored elements, in ascending coordinate order.
    pub fn get_element_list(&self) -> (result: Result<
        VectorElementList,
        SparseLinearAlgebraError,
    >)
        ensures
            result matches Ok(list) && list.spec_elements() == stored_elements_prefix(
                self.spec_values(),
                self.spec_length() as int,
            ),
    {
        let mut elements: Vec<VectorElement> = Vec::new();
        let mut coordinate: usize = 0;
        let length = self.values.len();
        while coordinate < length
            invariant
                length == self.spec_length(),
                coordinate <= length,
                elements@ == stored_elements_prefix(self.spec_values(), coordinate as int),
            decreases length - coordinate,
        {
            match self.values[coordinate] {
                Option::Some(value) => elements.push(VectorElement { index: coordinate, value }),
                Option::None => {},
            }
            coordinate = coordinate + 1;
        }
        Ok(VectorElementList::from_element_vector(elements))
    }

    /// Replaces the vector's entries wholesale; the shape and context stay.
    pub(crate) fn assign_values(&mut self, new_values: Vec<Option<i64>>)
        requires
            new_values@.len() == old(self).spec_length(),
        ensures
            final (self).spec_values() == new_values@,
            final (self).spec_context() == old(self).spec_context(),
    {
        self.values = new_values;
    }
}

impl VectorMask for SparseVector {
    open spec fn spec_select_all(&self) -> bool {
        false
    }

    open spec fn spec_mask_length(&self) -> nat {
        self.spec_length()
    }

    open spec fn spec_mask_entry(&self, index: int) -> Option<i64> {
        self.spec_entry(index)
    }

    fn mask_select_all(&self) -> (select_all: bool) {
        false
    }

    fn mask_length(&self) -> (length: usize) {
        self.length()
    }

    fn mask_entry(&self, index: usize) -> (entry: Option<i64>) {
        self.stored_entry(index)
    }
}

} // verus!
