//! The shared words of the library: cells of crossbeam that many threads
//! read and write without a lock.
use vstd::prelude::*;
use crossbeam::atomic::AtomicCell;

verus! {

/// `AtomicCell` of crossbeam: a cell that many threads read and write.
/// Nothing inside it is visible to proofs.
#[verifier::external_type_specification]
#[verifier::external_body]
#[verifier::reject_recursive_types(T)]
pub struct ExAtomicCell<T>(AtomicCell<T>);

/// `AtomicCell::new` of crossbeam: a cell that starts with `word`. Nothing is
/// claimed of the cell: other threads may change it at any time.
#[verifier::external_body]
pub(crate) fn cell_new(word: u64) -> AtomicCell<u64> {
    AtomicCell::new(word)
}

/// `AtomicCell::load` of crossbeam: the word that the cell holds at the
/// moment of the call. Nothing is claimed of it.
#[verifier::external_body]
pub(crate) fn cell_load(cell: &AtomicCell<u64>) -> u64 {
    cell.load()
}

/// `AtomicCell::compare_exchange` of crossbeam: stores `new` if the cell
/// holds `current`. Claimed: on success the word returned, the one that was
/// replaced, is `current`; on failure the word returned, the one found in
/// the cell, is another.
#[verifier::external_body]
pub(crate) fn cell_compare_exchange(cell: &AtomicCell<u64>, current: u64, new: u64) -> (outcome: Result<
    u64,
    u64,
>)
    ensures
        outcome matches Ok(previous) ==> previous == current,
        outcome matches Err(found) ==> found != current,
{
    cell.compare_exchange(current, new)
}

/// `AtomicCell::fetch_add` of crossbeam: adds `amount` to the cell, wrapping
/// around at the largest value, and returns the word that the cell held
/// before. Nothing is claimed of it.
#[verifier::external_body]
pub(crate) fn cell_fetch_add(cell: &AtomicCell<u64>, amount: u64) -> u64 {
    cell.fetch_add(amount)
}

/// `AtomicCell::fetch_max` of crossbeam: leaves in the cell the greater of
/// `word` and what it held, and returns the word that it held before.
/// Nothing is claimed of it.
#[verifier::external_body]
pub(crate) fn cell_fetch_max(cell: &AtomicCell<u64>, word: u64) -> u64 {
    cell.fetch_max(word)
}

} // verus!
