# sync_cell_slice

- `SyncCell<T>` owns its value, which is read and written through its
  methods (`new`, `into_inner`, `get`, `set`, `swap`, `replace`, `take`,
  `get_mut`).
- `SyncCellMut<'a, T>` is a cell over a borrowed place, sized or a slice
  (`SyncCell::from_mut`): what is written through it lands in that place.
- `SyncSlice::as_sync_slice` turns a `&mut [T]` into one such cell per
  element, in order, so that each element can be handed to a different worker
  and every write lands in the slice.

Every method carries a contract over the values the cells hold, and for the
borrowed cells over the final contents of the borrowed places (`final(..)`),
and Verus proves each body against it.

- `src/cell.rs`: the owning cell and its operations, `Default` and `From`.
- `src/place.rs`: the cell over a borrowed place, `from_mut`, and
  `as_slice_of_cells` over a borrowed slice.
- `src/slice.rs`: the `SyncSlice` trait and its impl for slices.
- `src/laws.rs`: the slice's contents after writes through any set of its
  cells, once the cells are gone.
- `tests/`: the scenarios, run against the compiled library.
