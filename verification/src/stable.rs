//! The boundary to `ic_stable_structures`.
//!
//! Everything in this file is believed, not proved: the four handles hide a
//! value of the outside crate from the verifier, the uninterpreted functions
//! name what such a value holds or where it lives, and each wrapper hands its
//! arguments to one function of the crate and states what the crate's source
//! says of that call. The rest of the library is verified against these
//! statements.
//!
//! Tables and cells live in regions of a memory manager. The crate keeps
//! regions with different ids apart, so a structure built on one region is
//! not disturbed by writes to another. Opening the same id of one manager
//! twice would break that, which is why the wrappers are not public: the
//! library opens each id of a manager once.
//!
//! Two managers are apart as long as their memories are. That holds wherever
//! the default memory is a vector of its own, as it is on every target but
//! `wasm32`. In a canister the default memory is the canister's one stable
//! memory: there, a single [`crate::state::State`] is all that may be made.

use ic_stable_structures::memory_manager::{MemoryId, MemoryManager, VirtualMemory};
use ic_stable_structures::{Cell, DefaultMemoryImpl, StableBTreeMap};
use vstd::prelude::*;
use vstd::utf8::encode_utf8;

verus! {

/// A row as a table stores it: an id, three texts and a number.
pub type Row = (u64, (String, String, String), u64);

/// What a [`Row`] is in specifications.
pub type RowView = (u64, (Seq<char>, Seq<char>, Seq<char>), u64);

/// The most bytes of text a row may carry.
///
/// The outside crate writes the size of a stored value into 32 bits. A row's
/// stored form is its text in UTF-8 plus at most 30 bytes of framing, so this
/// bound keeps every size below that limit.
pub const MAX_ROW_TEXT_BYTES: u64 = 0xFFFF_FF00;

/// The number of bytes that the three texts of a row take in UTF-8.
pub open spec fn row_text_bytes(row: RowView) -> nat {
    encode_utf8(row.1.0).len() + encode_utf8(row.1.1).len() + encode_utf8(row.1.2).len()
}

/// Whether a table can hold the row.
pub open spec fn row_fits(row: RowView) -> bool {
    row_text_bytes(row) <= MAX_ROW_TEXT_BYTES
}

/// A `MemoryManager` over the default memory.
#[verifier::external_body]
pub(crate) struct Regions {
    inner: MemoryManager<DefaultMemoryImpl>,
}

/// One `VirtualMemory` of a `MemoryManager`.
#[verifier::external_body]
pub struct Region {
    inner: VirtualMemory<DefaultMemoryImpl>,
}

/// A `StableBTreeMap` from `u64` keys to rows.
#[verifier::external_body]
pub struct Table {
    inner: StableBTreeMap<u64, Row, VirtualMemory<DefaultMemoryImpl>>,
}

/// A `Cell` that holds one `u64`.
#[verifier::external_body]
pub struct IdCell {
    inner: Cell<u64, VirtualMemory<DefaultMemoryImpl>>,
}

/// The rows that a table holds, by key.
pub uninterp spec fn table_rows(t: Table) -> Map<u64, RowView>;

/// The number that a cell holds.
pub uninterp spec fn cell_value(c: IdCell) -> u64;

/// The id under which a region was opened in its manager.
pub uninterp spec fn region_id(r: Region) -> u8;

/// The id of the region that a table was made in.
pub uninterp spec fn table_region(t: Table) -> u8;

/// `MemoryManager::init` on `DefaultMemoryImpl::default()`.
///
/// Nothing is claimed of the manager.
#[verifier::external_body]
pub(crate) fn regions_new() -> Regions {
    Regions { inner: MemoryManager::init(DefaultMemoryImpl::default()) }
}

/// `MemoryManager::get` with `MemoryId::new(id)`.
///
/// `MemoryId::new` panics on 255, which the precondition leaves out. The
/// region that the crate returns carries the id it was asked for.
#[verifier::external_body]
pub(crate) fn regions_get(regions: &Regions, id: u8) -> (region: Region)
    requires
        id != 255,
    ensures
        region_id(region) == id,
{
    Region { inner: regions.inner.get(MemoryId::new(id)) }
}

/// `StableBTreeMap::new`.
///
/// The crate creates a new map in the region whatever the region held before,
/// so the table is empty; and it keeps the region it was given as the map's
/// memory.
#[verifier::external_body]
pub(crate) fn table_new(region: Region) -> (t: Table)
    ensures
        table_rows(t) =~= Map::empty(),
        table_region(t) == region_id(region),
{
    Table { inner: StableBTreeMap::new(region.inner) }
}

/// `StableBTreeMap::get`.
///
/// Returns the row stored under `key`, if there is one.
#[verifier::external_body]
pub(crate) fn table_get(t: &Table, key: u64) -> (found: Option<Row>)
    ensures
        found is Some <==> table_rows(*t).dom().contains(key),
        found matches Some(row) ==> row@ == table_rows(*t)[key],
{
    t.inner.get(&key)
}

/// `StableBTreeMap::insert`.
///
/// Stores `row` under `key`, replacing and returning the row that was there.
/// The precondition keeps the row within the size that the crate can record.
/// The crate panics when its memory cannot grow any further; like running out
/// of heap, that is outside what the contract covers.
#[verifier::external_body]
pub(crate) fn table_insert(t: &mut Table, key: u64, row: Row) -> (previous: Option<Row>)
    requires
        row_fits(row@),
    ensures
        table_rows(*final(t)) == table_rows(*old(t)).insert(key, row@),
        previous is Some <==> table_rows(*old(t)).dom().contains(key),
        previous matches Some(p) ==> p@ == table_rows(*old(t))[key],
{
    t.inner.insert(key, row)
}

/// `StableBTreeMap::remove`.
///
/// Removes the row stored under `key` and returns it, if there is one.
#[verifier::external_body]
pub(crate) fn table_remove(t: &mut Table, key: u64) -> (previous: Option<Row>)
    ensures
        table_rows(*final(t)) == table_rows(*old(t)).remove(key),
        previous is Some <==> table_rows(*old(t)).dom().contains(key),
        previous matches Some(p) ==> p@ == table_rows(*old(t))[key],
{
    t.inner.remove(&key)
}

/// `Cell::new`.
///
/// The crate writes `value` into the region whatever the region held before,
/// so the cell holds `value`.
#[verifier::external_body]
pub(crate) fn cell_new(region: Region, value: u64) -> (c: IdCell)
    ensures
        cell_value(c) == value,
{
    IdCell { inner: Cell::new(region.inner, value) }
}

/// `Cell::get`.
#[verifier::external_body]
pub(crate) fn cell_get(c: &IdCell) -> (value: u64)
    ensures
        value == cell_value(*c),
{
    *c.inner.get()
}

/// `Cell::set`.
///
/// The cell holds `value` afterwards; the number it held before, which the
/// crate returns, is dropped. A `u64` takes eight bytes, which the page that
/// `Cell::new` reserved always has room for, so the write cannot fail.
#[verifier::external_body]
pub(crate) fn cell_set(c: &mut IdCell, value: u64)
    ensures
        cell_value(*final(c)) == value,
{
    c.inner.set(value);
}

} // verus!
