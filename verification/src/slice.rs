use vstd::prelude::*;

use crate::cell::SyncCell;
use crate::place::SyncCellMut;

verus! {

/// Extension trait turning a mutable slice into a sequence of cells over its
/// elements.
pub trait SyncSlice<T> {
    /// Returns one cell for each element, in order; what is written through
    /// cell `i` lands in element `i`.
    fn as_sync_slice<'a>(&'a mut self) -> Vec<SyncCellMut<'a, T>>;
}

impl<T> SyncSlice<T> for [T] {
    fn as_sync_slice<'a>(&'a mut self) -> (cells: Vec<SyncCellMut<'a, T>>)
        ensures
            cells@.len() == old(self)@.len(),
            final(self)@.len() == old(self)@.len(),
            forall|i: int| 0 <= i < cells@.len() ==> *(#[trigger] cells@[i]).place == old(self)@[i],
            forall|i: int|
                0 <= i < cells@.len() ==> final(self)@[i] == *final((#[trigger] cells@[i]).place),
    {
        SyncCell::from_mut(self).as_slice_of_cells()
    }
}

} // verus!
