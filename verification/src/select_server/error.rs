use vstd::prelude::*;

verus! {

/// Failure of a selection. `PoisonedRead` surfaces a corrupted shared-state
/// condition; the selectors here share state through a lock that cannot be
/// poisoned, so they never return it.
#[derive(Debug, PartialEq, Eq, Structural)]
pub enum Error {
    NoOneIsAlive,
    PoisonedRead,
}

} // verus!
