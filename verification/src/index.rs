//! Coordinate indices and row-index selection.

use vstd::prelude::*;

verus! {

/// A coordinate index into a sparse collection.
pub type ElementIndex = usize;

/// Which row indices an extraction reads: every row, or an explicit,
/// possibly repeating, ordered list of row indices.
#[derive(Clone, Debug)]
pub enum ElementIndexSelector {
    /// Every index, in ascending order.
    All,
    /// The listed indices, in the listed order.
    Index(Vec<ElementIndex>),
}

/// How many indices a selector selects against a collection of the given
/// dimension.
pub open spec fn selector_length(selector: ElementIndexSelector, dimension: nat) -> nat {
    match selector {
        ElementIndexSelector::All => dimension,
        ElementIndexSelector::Index(indices) => indices@.len(),
    }
}

/// The selected index at a position.
pub open spec fn selector_index(selector: ElementIndexSelector, position: int) -> int {
    match selector {
        ElementIndexSelector::All => position,
        ElementIndexSelector::Index(indices) => indices@[position] as int,
    }
}

/// Whether every selected index lies inside the given dimension.
pub open spec fn selector_in_bounds(selector: ElementIndexSelector, dimension: nat) -> bool {
    match selector {
        ElementIndexSelector::All => true,
        ElementIndexSelector::Index(indices) => forall|i: int|
            0 <= i < indices@.len() ==> (#[trigger] indices@[i] as nat) < dimension,
    }
}

} // verus!
