use vstd::prelude::*;

verus! {

/// A mutable memory location.
///
/// The abstract value of a cell (its view) is the value it contains. Every
/// operation that changes that value takes the cell by exclusive reference,
/// so that the absence of data races between workers is checked when the
/// program is compiled rather than promised by the caller. A `SyncCell<T>`
/// can be sent to, and shared with, other threads exactly when `T` can.
pub struct SyncCell<T: ?Sized> {
    value: T,
}

impl<T> View for SyncCell<T> {
    type V = T;

    closed spec fn view(&self) -> T {
        self.value
    }
}

impl<T> SyncCell<T> {
    /// Creates a new `SyncCell` containing the given value.
    pub fn new(value: T) -> (cell: Self)
        ensures
            cell@ == value,
    {
        SyncCell { value }
    }

    /// Unwraps the value, consuming the cell.
    pub fn into_inner(self) -> (value: T)
        ensures
            value == self@,
    {
        self.value
    }

    /// Sets the contained value; the previous value is dropped.
    pub fn set(&mut self, val: T)
        ensures
            final(self)@ == val,
    {
        self.value = val;
    }

    /// Swaps the values of two cells.
    pub fn swap(&mut self, other: &mut SyncCell<T>)
        ensures
            final(self)@ == old(other)@,
            final(other)@ == old(self)@,
    {
        core::mem::swap(&mut self.value, &mut other.value);
    }

    /// Replaces the contained value with `val`, and returns the old contained value.
    pub fn replace(&mut self, val: T) -> (previous: T)
        ensures
            previous == old(self)@,
            final(self)@ == val,
    {
        let mut val = val;
        core::mem::swap(&mut self.value, &mut val);
        val
    }

    /// Returns a mutable reference to the contained value; what is written
    /// through it becomes the value of the cell.
    pub fn get_mut(&mut self) -> (place: &mut T)
        ensures
            *place == old(self)@,
            final(self)@ == *final(place),
    {
        &mut self.value
    }

    /// Describes the cell without reading its contents.
    pub fn to_debug_string(&self) -> (text: String)
        ensures
            text@ == "SyncCell { .. }"@,
    {
        "SyncCell { .. }".to_owned()
    }
}

impl<T: Copy> SyncCell<T> {
    /// Returns a copy of the contained value.
    pub fn get(&self) -> (value: T)
        ensures
            value == self@,
    {
        self.value
    }
}

impl<T: Default> SyncCell<T> {
    /// Takes the value of the cell, leaving `T::default()` in its place.
    pub fn take(&mut self) -> (previous: T)
        ensures
            previous == old(self)@,
            call_ensures(T::default, (), final(self)@),
    {
        self.replace(T::default())
    }
}

impl<T: Default> Default for SyncCell<T> {
    /// Creates a `SyncCell` holding `T::default()`.
    fn default() -> (cell: SyncCell<T>)
        ensures
            call_ensures(T::default, (), cell@),
    {
        SyncCell::new(T::default())
    }
}

impl<T> From<T> for SyncCell<T> {
    /// Creates a new `SyncCell` containing the given value.
    fn from(value: T) -> (cell: SyncCell<T>)
        ensures
            cell@ == value,
    {
        SyncCell::new(value)
    }
}

impl<T> vstd::std_specs::convert::FromSpecImpl<T> for SyncCell<T> {
    open spec fn obeys_from_spec() -> bool {
        true
    }

    closed spec fn from_spec(v: T) -> SyncCell<T> {
        SyncCell { value: v }
    }
}

} // verus!
