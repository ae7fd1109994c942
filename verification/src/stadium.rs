//! Stadiums.

use crate::record::{texts_fit, Record};
use crate::stable::{row_fits, Row, RowView};
use crate::text::sentence;
use vstd::prelude::*;

verus! {

/// A stadium as it is stored and returned.
#[derive(Debug, PartialEq, Eq)]
pub struct Stadium {
    pub id: u64,
    pub name: String,
    pub location: String,
    /// The number of seats; never zero in a stored stadium.
    pub capacity: u32,
}

/// What a caller supplies to create or update a stadium.
#[derive(Debug, PartialEq, Eq)]
pub struct StadiumPayload {
    pub name: String,
    pub location: String,
    pub capacity: u32,
}

/// A [`Stadium`] in specifications.
pub struct StadiumView {
    pub id: u64,
    pub name: Seq<char>,
    pub location: Seq<char>,
    pub capacity: u32,
}

/// A [`StadiumPayload`] in specifications.
pub struct StadiumPayloadView {
    pub name: Seq<char>,
    pub location: Seq<char>,
    pub capacity: u32,
}

impl StadiumView {
    /// The fields that a caller supplied.
    pub open spec fn payload(self) -> StadiumPayloadView {
        StadiumPayloadView { name: self.name, location: self.location, capacity: self.capacity }
    }
}

impl StadiumPayloadView {
    /// Every required field is filled in: no text is empty and the capacity
    /// is not zero.
    pub open spec fn valid(self) -> bool {
        self.name.len() > 0 && self.location.len() > 0 && self.capacity != 0
    }

    /// The stadium with this payload's fields under the given id.
    pub open spec fn with_id(self, id: u64) -> StadiumView {
        StadiumView { id, name: self.name, location: self.location, capacity: self.capacity }
    }

    /// A table can hold a stadium with these fields.
    pub open spec fn fits(self) -> bool {
        row_fits(Stadium::row_of(self.with_id(0)))
    }
}

impl View for Stadium {
    type V = StadiumView;

    open spec fn view(&self) -> StadiumView {
        StadiumView {
            id: self.id,
            name: self.name@,
            location: self.location@,
            capacity: self.capacity,
        }
    }
}

impl View for StadiumPayload {
    type V = StadiumPayloadView;

    open spec fn view(&self) -> StadiumPayloadView {
        StadiumPayloadView {
            name: self.name@,
            location: self.location@,
            capacity: self.capacity,
        }
    }
}

impl Clone for Stadium {
    fn clone(&self) -> (copy: Self)
        ensures
            copy@ == self@,
    {
        Stadium {
            id: self.id,
            name: self.name.clone(),
            location: self.location.clone(),
            capacity: self.capacity,
        }
    }
}

impl Clone for StadiumPayload {
    fn clone(&self) -> (copy: Self)
        ensures
            copy@ == self@,
    {
        StadiumPayload {
            name: self.name.clone(),
            location: self.location.clone(),
            capacity: self.capacity,
        }
    }
}

impl Default for Stadium {
    /// The stadium with id 0, empty texts and no seats.
    fn default() -> (stadium: Self)
        ensures
            stadium@ == (StadiumView {
                id: 0,
                name: Seq::empty(),
                location: Seq::empty(),
                capacity: 0,
            }),
    {
        Stadium { id: 0, name: String::new(), location: String::new(), capacity: 0 }
    }
}

impl Default for StadiumPayload {
    /// The payload with empty texts and no seats, which is not valid.
    fn default() -> (payload: Self)
        ensures
            payload@ == (StadiumPayloadView {
                name: Seq::empty(),
                location: Seq::empty(),
                capacity: 0,
            }),
            !payload@.valid(),
    {
        StadiumPayload { name: String::new(), location: String::new(), capacity: 0 }
    }
}

impl Record for Stadium {
    open spec fn row_of(v: StadiumView) -> RowView {
        (v.id, (v.name, v.location, Seq::empty()), v.capacity as u64)
    }

    open spec fn of_row(row: RowView) -> StadiumView {
        StadiumView { id: row.0, name: row.1.0, location: row.1.1, capacity: row.2 as u32 }
    }

    proof fn lemma_round_trip(v: StadiumView) {
    }

    fn to_row(&self) -> (row: Row) {
        (self.id, (self.name.clone(), self.location.clone(), String::new()), self.capacity as u64)
    }

    fn from_row(row: Row) -> (rec: Stadium) {
        Stadium { id: row.0, name: row.1.0, location: row.1.1, capacity: row.2 as u32 }
    }
}

impl StadiumPayload {
    /// Whether every required field is filled in.
    pub fn is_valid(&self) -> (ok: bool)
        ensures
            ok == self@.valid(),
    {
        !self.name.as_str().is_empty() && !self.location.as_str().is_empty() && self.capacity
            != 0
    }

    /// Whether a table can hold a stadium with these fields.
    pub fn fits(&self) -> (ok: bool)
        ensures
            ok == self@.fits(),
    {
        proof {
            reveal_strlit("");
        }
        texts_fit(self.name.as_str(), self.location.as_str(), "")
    }

    /// The stadium with this payload's fields under the given id.
    pub fn into_stadium(self, id: u64) -> (stadium: Stadium)
        ensures
            stadium@ == self@.with_id(id),
    {
        Stadium { id, name: self.name, location: self.location, capacity: self.capacity }
    }
}

/// The sentence for a payload that `add_stadium` or `update_stadium` turns
/// down.
pub open spec fn stadium_refused() -> Seq<char> {
    "Please fill in all the required fields"@
}

/// The sentence for a stadium that is not found.
pub open spec fn stadium_missing(id: u64) -> Seq<char> {
    sentence("Stadium"@, id, " not found"@)
}

} // verus!
