use vstd::prelude::*;

use crate::cell::SyncCell;

verus! {

/// A cell over a place that it borrows: what is written through the cell
/// lands in that place.
///
/// `*c.place` is the value the cell holds now; `*final(c.place)` is the value
/// the borrowed place holds once the cell is gone.
pub struct SyncCellMut<'a, T: ?Sized> {
    pub place: &'a mut T,
}

impl<T: ?Sized> SyncCell<T> {
    /// Returns a cell over the place `value`, which may be unsized (a slice):
    /// the cell starts at the value of the place, and what the cell leaves
    /// behind is what the place holds once the cell is gone.
    pub fn from_mut<'a>(value: &'a mut T) -> (cell: SyncCellMut<'a, T>)
        ensures
            &*cell.place == &*old(value),
            &*final(cell.place) == &*final(value),
    {
        SyncCellMut { place: value }
    }
}

impl<'a, T: ?Sized> SyncCellMut<'a, T> {
    /// Describes the cell without reading the borrowed place.
    pub fn to_debug_string(&self) -> (text: String)
        ensures
            text@ == "SyncCell { .. }"@,
    {
        "SyncCell { .. }".to_owned()
    }
}

impl<'a, T> SyncCellMut<'a, T> {
    /// Sets the value of the borrowed place; the previous value is dropped.
    pub fn set(&mut self, val: T)
        ensures
            *final(self).place == val,
            *final(final(self).place) == *final(old(self).place),
    {
        *self.place = val;
    }

    /// Replaces the value of the borrowed place with `val`, and returns the
    /// previous value.
    pub fn replace(&mut self, val: T) -> (previous: T)
        ensures
            previous == *old(self).place,
            *final(self).place == val,
            *final(final(self).place) == *final(old(self).place),
    {
        let mut val = val;
        core::mem::swap(self.place, &mut val);
        val
    }

    /// Swaps the values of the places borrowed by two cells.
    pub fn swap(&mut self, other: &mut SyncCellMut<'_, T>)
        ensures
            *final(self).place == *old(other).place,
            *final(other).place == *old(self).place,
            *final(final(self).place) == *final(old(self).place),
            *final(final(other).place) == *final(old(other).place),
    {
        core::mem::swap(self.place, other.place);
    }
}

impl<'a, T: Copy> SyncCellMut<'a, T> {
    /// Returns a copy of the value of the borrowed place.
    pub fn get(&self) -> (value: T)
        ensures
            value == *old(self.place),
    {
        *self.place
    }
}

impl<'a, T: Default> SyncCellMut<'a, T> {
    /// Takes the value of the borrowed place, leaving `T::default()` in its place.
    pub fn take(&mut self) -> (previous: T)
        ensures
            previous == *old(self).place,
            call_ensures(T::default, (), *final(self).place),
            *final(final(self).place) == *final(old(self).place),
    {
        self.replace(T::default())
    }
}

impl<'a, T> SyncCellMut<'a, [T]> {
    /// Returns one cell for each element of the borrowed slice, in order:
    /// cell `i` is a cell over element `i`, so what is written through it
    /// lands in that element.
    pub fn as_slice_of_cells(self) -> (cells: Vec<SyncCellMut<'a, T>>)
        ensures
            cells@.len() == old(self.place)@.len(),
            final(self.place)@.len() == old(self.place)@.len(),
            forall|i: int| 0 <= i < cells@.len() ==> *(#[trigger] cells@[i]).place == old(self.place)@[i],
            forall|i: int|
                0 <= i < cells@.len() ==> final(self.place)@[i] == *final((#[trigger] cells@[i]).place),
    {
        let ghost whole = self.place@;
        let ghost whole_final = final(self.place)@;
        let mut rest: &'a mut [T] = self.place;
        let mut cells: Vec<SyncCellMut<'a, T>> = Vec::new();
        while rest.len() > 0
            invariant
                cells.len() + rest@.len() == whole.len(),
                forall|j: int| 0 <= j < cells.len() ==> *(#[trigger] cells@[j]).place == whole[j],
                forall|k: int| 0 <= k < rest@.len() ==> #[trigger] rest@[k] == whole[cells.len() + k],
                whole_final == Seq::new(cells.len() as nat, |j: int| *final(cells@[j].place)) + final(rest)@,
            decreases rest.len(),
        {
            let (head, tail) = rest.split_at_mut(1);
            let first = head.first_mut().unwrap();
            cells.push(SyncCellMut { place: first });
            rest = tail;
        }
        cells
    }
}

} // verus!
