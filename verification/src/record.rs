//! What every kind of record has in common: it can be written as a row and
//! read back from one.

use crate::stable::{row_fits, Row, RowView, MAX_ROW_TEXT_BYTES};
use vstd::prelude::*;
use vstd::utf8::encode_utf8;

verus! {

/// A record that a table can hold.
///
/// `row_of` and `of_row` say, on views, how a record is laid out in a row and
/// how a row is read; `to_row` and `from_row` are the same two steps on
/// values. A row is *plain* for a kind when reading it and writing the result
/// back gives the same row; every row that `to_row` makes is plain.
pub trait Record: View + Sized {
    /// The row that stands for a record.
    spec fn row_of(v: Self::V) -> RowView;

    /// The record that a row stands for.
    spec fn of_row(row: RowView) -> Self::V;

    /// Writing a record and reading the row gives the record back.
    proof fn lemma_round_trip(v: Self::V)
        ensures
            Self::of_row(Self::row_of(v)) == v,
    ;

    /// Writes the record as a row.
    fn to_row(&self) -> (row: Row)
        ensures
            row@ == Self::row_of(self@),
    ;

    /// Reads a record from a plain row.
    fn from_row(row: Row) -> (rec: Self)
        requires
            Self::row_of(Self::of_row(row@)) == row@,
        ensures
            rec@ == Self::of_row(row@),
    ;
}

/// Whether three texts are together short enough for one row.
pub fn texts_fit(a: &str, b: &str, c: &str) -> (ok: bool)
    ensures
        ok == (encode_utf8(a@).len() + encode_utf8(b@).len() + encode_utf8(c@).len()
            <= MAX_ROW_TEXT_BYTES),
{
    let a_len: usize = a.as_bytes().len();
    let b_len: usize = b.as_bytes().len();
    let c_len: usize = c.as_bytes().len();
    if a_len as u64 > MAX_ROW_TEXT_BYTES {
        return false;
    }
    let after_a: u64 = MAX_ROW_TEXT_BYTES - a_len as u64;
    if b_len as u64 > after_a {
        return false;
    }
    let after_b: u64 = after_a - b_len as u64;
    c_len as u64 <= after_b
}

/// Whether a table can hold the row.
pub fn row_storable(row: &Row) -> (ok: bool)
    ensures
        ok == row_fits(row@),
{
    texts_fit(row.1.0.as_str(), row.1.1.as_str(), row.1.2.as_str())
}

} // verus!
