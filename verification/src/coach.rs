//! Coaches.

use crate::record::{texts_fit, Record};
use crate::stable::{row_fits, Row, RowView};
use crate::text::sentence;
use vstd::prelude::*;

verus! {

/// A coach as it is stored and returned.
#[derive(Debug, PartialEq, Eq)]
pub struct Coach {
    pub id: u64,
    pub name: String,
    /// Free text; no team record has to exist under this name.
    pub team: String,
}

/// What a caller supplies to create or update a coach.
#[derive(Debug, PartialEq, Eq)]
pub struct CoachPayload {
    pub name: String,
    pub team: String,
}

/// A [`Coach`] in specifications.
pub struct CoachView {
    pub id: u64,
    pub name: Seq<char>,
    pub team: Seq<char>,
}

/// A [`CoachPayload`] in specifications.
pub struct CoachPayloadView {
    pub name: Seq<char>,
    pub team: Seq<char>,
}

impl CoachView {
    /// The fields that a caller supplied.
    pub open spec fn payload(self) -> CoachPayloadView {
        CoachPayloadView { name: self.name, team: self.team }
    }
}

impl CoachPayloadView {
    /// Every required field is filled in: no text is empty.
    pub open spec fn valid(self) -> bool {
        self.name.len() > 0 && self.team.len() > 0
    }

    /// The coach with this payload's fields under the given id.
    pub open spec fn with_id(self, id: u64) -> CoachView {
        CoachView { id, name: self.name, team: self.team }
    }

    /// A table can hold a coach with these fields.
    pub open spec fn fits(self) -> bool {
        row_fits(Coach::row_of(self.with_id(0)))
    }
}

impl View for Coach {
    type V = CoachView;

    open spec fn view(&self) -> CoachView {
        CoachView { id: self.id, name: self.name@, team: self.team@ }
    }
}

impl View for CoachPayload {
    type V = CoachPayloadView;

    open spec fn view(&self) -> CoachPayloadView {
        CoachPayloadView { name: self.name@, team: self.team@ }
    }
}

impl Clone for Coach {
    fn clone(&self) -> (copy: Self)
        ensures
            copy@ == self@,
    {
        Coach { id: self.id, name: self.name.clone(), team: self.team.clone() }
    }
}

impl Clone for CoachPayload {
    fn clone(&self) -> (copy: Self)
        ensures
            copy@ == self@,
    {
        CoachPayload { name: self.name.clone(), team: self.team.clone() }
    }
}

impl Default for Coach {
    /// The coach with id 0 and empty texts.
    fn default() -> (coach: Self)
        ensures
            coach@ == (CoachView { id: 0, name: Seq::empty(), team: Seq::empty() }),
    {
        Coach { id: 0, name: String::new(), team: String::new() }
    }
}

impl Default for CoachPayload {
    /// The payload with empty texts, which is not valid.
    fn default() -> (payload: Self)
        ensures
            payload@ == (CoachPayloadView { name: Seq::empty(), team: Seq::empty() }),
            !payload@.valid(),
    {
        CoachPayload { name: String::new(), team: String::new() }
    }
}

impl Record for Coach {
    open spec fn row_of(v: CoachView) -> RowView {
        (v.id, (v.name, v.team, Seq::empty()), 0)
    }

    open spec fn of_row(row: RowView) -> CoachView {
        CoachView { id: row.0, name: row.1.0, team: row.1.1 }
    }

    proof fn lemma_round_trip(v: CoachView) {
    }

    fn to_row(&self) -> (row: Row) {
        (self.id, (self.name.clone(), self.team.clone(), String::new()), 0)
    }

    fn from_row(row: Row) -> (rec: Coach) {
        Coach { id: row.0, name: row.1.0, team: row.1.1 }
    }
}

impl CoachPayload {
    /// Whether every required field is filled in.
    pub fn is_valid(&self) -> (ok: bool)
        ensures
            ok == self@.valid(),
    {
        !self.name.as_str().is_empty() && !self.team.as_str().is_empty()
    }

    /// Whether a table can hold a coach with these fields.
    pub fn fits(&self) -> (ok: bool)
        ensures
            ok == self@.fits(),
    {
        proof {
            reveal_strlit("");
        }
        texts_fit(self.name.as_str(), self.team.as_str(), "")
    }

    /// The coach with this payload's fields under the given id.
    pub fn into_coach(self, id: u64) -> (coach: Coach)
        ensures
            coach@ == self@.with_id(id),
    {
        Coach { id, name: self.name, team: self.team }
    }
}

/// The sentence for a payload that `add_coach` or `update_coach` turns down.
pub open spec fn coach_refused() -> Seq<char> {
    "You must fill in all the required fields"@
}

/// The sentence for a coach that `get_coach` does not find.
pub open spec fn coach_not_found(id: u64) -> Seq<char> {
    sentence("Coach"@, id, " cannot be found"@)
}

/// The sentence for a coach that `update_coach` or `delete_coach` does not
/// find.
pub open spec fn coach_missing(id: u64) -> Seq<char> {
    sentence("Coach"@, id, " not found"@)
}

} // verus!
