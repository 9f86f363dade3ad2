//! What the cells over a slice leave in it, once they are gone.
use vstd::prelude::*;

use crate::place::SyncCellMut;

verus! {

/// The slice after writes through the cells that `as_sync_slice` made from it.
///
/// `before` and `after` are the slice's contents when the cells were made and
/// once they are gone, and `cells` the cells, as the contract of
/// `as_sync_slice` relates them. `written` maps the index of each cell that
/// was written to the last value written through it; every other cell was
/// left alone and is gone. Then each written element holds its last written
/// value and every other element keeps its value.
pub proof fn lemma_writes_land_in_slice<'a, T>(
    before: Seq<T>,
    after: Seq<T>,
    cells: Seq<SyncCellMut<'a, T>>,
    written: Map<int, T>,
)
    requires
        cells.len() == before.len(),
        after.len() == before.len(),
        forall|i: int| 0 <= i < cells.len() ==> *(#[trigger] cells[i]).place == before[i],
        forall|i: int| 0 <= i < cells.len() ==> after[i] == *final((#[trigger] cells[i]).place),
        forall|i: int| #[trigger]
            written.dom().contains(i) ==> 0 <= i < cells.len() && *final(cells[i].place)
                == written[i],
        forall|i: int|
            0 <= i < cells.len() && !written.dom().contains(i) ==> has_resolved(
                #[trigger] cells[i],
            ),
    ensures
        after == Seq::new(
            before.len(),
            |i: int|
                if written.dom().contains(i) {
                    written[i]
                } else {
                    before[i]
                },
        ),
{
    assert forall|i: int| 0 <= i < cells.len() && !written.dom().contains(i) implies after[i]
        == before[i] by {
        assert(has_resolved(cells[i]));
        assert(has_resolved(cells[i].place));
    }
    assert(after =~= Seq::new(
        before.len(),
        |i: int|
            if written.dom().contains(i) {
                written[i]
            } else {
                before[i]
            },
    ));
}

} // verus!
