//! Cells for handing places to several workers: `SyncCell` owns its value,
//! `SyncCellMut` is a cell over a borrowed place, and `SyncSlice` turns a
//! mutable slice into one cell per element, so that each element can be
//! written by a different worker and the writes land in the slice.

mod cell;
pub mod laws;
mod place;
mod slice;

pub use cell::SyncCell;
pub use place::SyncCellMut;
pub use slice::SyncSlice;
