//! The entity store: an ordered table from identifier to record, one per
//! kind of record.

use crate::record::Record;
use crate::stable::{
    region_id, regions_get, regions_new, row_fits, table_get, table_insert, table_new,
    table_region, table_remove, table_rows, Region, Table,
};
use std::marker::PhantomData;
use vstd::prelude::*;

verus! {

/// The records of one kind, by identifier.
///
/// The store is a table of rows; its view reads each row as a record of kind
/// `R`. Keys are ordered numerically by the table underneath.
pub struct EntityStore<R: Record> {
    table: Table,
    kind: PhantomData<R>,
}

impl<R: Record> View for EntityStore<R> {
    type V = Map<u64, R::V>;

    closed spec fn view(&self) -> Map<u64, R::V> {
        Map::new(
            |id: u64| table_rows(self.table).dom().contains(id),
            |id: u64| R::of_row(table_rows(self.table)[id]),
        )
    }
}

impl<R: Record> EntityStore<R> {
    /// Every row in the table is plain for `R`.
    pub closed spec fn wf(&self) -> bool {
        forall|id: u64| #[trigger]
            table_rows(self.table).dom().contains(id) ==> R::row_of(
                R::of_row(table_rows(self.table)[id]),
            ) == table_rows(self.table)[id]
    }

    /// An empty store in a memory of its own.
    pub fn new() -> (store: Self)
        ensures
            store.wf(),
            store@ == Map::<u64, R::V>::empty(),
    {
        let regions = regions_new();
        EntityStore::in_region(regions_get(&regions, 0))
    }

    /// An empty store whose table is made in the given region.
    pub(crate) fn in_region(region: Region) -> (store: Self)
        ensures
            store.wf(),
            store@ == Map::<u64, R::V>::empty(),
            store.made_in() == region_id(region),
    {
        let store = EntityStore { table: table_new(region), kind: PhantomData };
        store
    }

    /// The id of the region that the store's table was made in.
    pub closed spec fn made_in(&self) -> u8 {
        table_region(self.table)
    }

    /// The record stored under `id`, if there is one.
    pub fn get(&self, id: u64) -> (found: Option<R>)
        requires
            self.wf(),
        ensures
            found is Some <==> self@.dom().contains(id),
            found matches Some(rec) ==> rec@ == self@[id],
    {
        match table_get(&self.table, id) {
            Some(row) => Some(R::from_row(row)),
            None => None,
        }
    }

    /// Stores `rec` under `id`, whether or not a record was there, and returns
    /// the record that was. The record must be one that a table can hold,
    /// which [`crate::record::row_storable`] tells of its row.
    pub fn insert(&mut self, id: u64, rec: R) -> (previous: Option<R>)
        requires
            old(self).wf(),
            row_fits(R::row_of(rec@)),
        ensures
            final(self).wf(),
            final(self)@ == old(self)@.insert(id, rec@),
            previous is Some <==> old(self)@.dom().contains(id),
            previous matches Some(p) ==> p@ == old(self)@[id],
    {
        let row = rec.to_row();
        proof {
            R::lemma_round_trip(rec@);
        }
        let previous = match table_insert(&mut self.table, id, row) {
            Some(p) => Some(R::from_row(p)),
            None => None,
        };
        previous
    }

    /// Removes the record stored under `id` and returns it, if there is one.
    pub fn remove(&mut self, id: u64) -> (previous: Option<R>)
        requires
            old(self).wf(),
        ensures
            final(self).wf(),
            final(self)@ == old(self)@.remove(id),
            previous is Some <==> old(self)@.dom().contains(id),
            previous matches Some(p) ==> p@ == old(self)@[id],
    {
        let previous = match table_remove(&mut self.table, id) {
            Some(p) => Some(R::from_row(p)),
            None => None,
        };
        previous
    }
}

} // verus!
