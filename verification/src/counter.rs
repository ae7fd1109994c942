//! The identity allocator: one persistent counter that issues every
//! identifier, whatever the kind of record it is for.

use crate::stable::{
    cell_get, cell_new, cell_set, cell_value, regions_get, regions_new, IdCell, Region,
};
use vstd::prelude::*;

verus! {

/// The counter behind all identifiers. Its view is the identifier it issued
/// last, or the number it was started with.
pub struct IdCounter {
    cell: IdCell,
}

impl View for IdCounter {
    type V = u64;

    closed spec fn view(&self) -> u64 {
        cell_value(self.cell)
    }
}

impl IdCounter {
    /// A counter in a memory of its own whose first identifier will be
    /// `last_id + 1`.
    pub fn new(last_id: u64) -> (counter: Self)
        ensures
            counter@ == last_id,
    {
        let regions = regions_new();
        IdCounter::in_region(regions_get(&regions, 0), last_id)
    }

    /// A counter in the given region whose first identifier will be
    /// `last_id + 1`.
    pub(crate) fn in_region(region: Region, last_id: u64) -> (counter: Self)
        ensures
            counter@ == last_id,
    {
        IdCounter { cell: cell_new(region, last_id) }
    }

    /// The identifier issued last.
    pub fn last_id(&self) -> (id: u64)
        ensures
            id == self@,
    {
        cell_get(&self.cell)
    }

    /// Issues the next identifier and records it, or returns `None` and
    /// changes nothing when every `u64` has been issued.
    pub fn next_id(&mut self) -> (issued: Option<u64>)
        ensures
            old(self)@ < u64::MAX ==> issued == Some((old(self)@ + 1) as u64) && final(self)@
                == old(self)@ + 1,
            old(self)@ == u64::MAX ==> issued is None && final(self)@ == old(self)@,
    {
        let current: u64 = cell_get(&self.cell);
        if current == u64::MAX {
            None
        } else {
            let next: u64 = current + 1;
            cell_set(&mut self.cell, next);
            Some(next)
        }
    }
}

} // verus!
