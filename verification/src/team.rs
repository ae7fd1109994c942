//! Teams.

use crate::record::{texts_fit, Record};
use crate::stable::{row_fits, Row, RowView};
use crate::text::sentence;
use vstd::prelude::*;

verus! {

/// A team as it is stored and returned.
#[derive(Debug, PartialEq, Eq)]
pub struct Team {
    pub id: u64,
    pub name: String,
    pub manager: String,
    /// Free text; no stadium record has to exist under this name.
    pub stadium: String,
}

/// What a caller supplies to create or update a team.
#[derive(Debug, PartialEq, Eq)]
pub struct TeamPayload {
    pub name: String,
    pub manager: String,
    pub stadium: String,
}

/// A [`Team`] in specifications.
pub struct TeamView {
    pub id: u64,
    pub name: Seq<char>,
    pub manager: Seq<char>,
    pub stadium: Seq<char>,
}

/// A [`TeamPayload`] in specifications.
pub struct TeamPayloadView {
    pub name: Seq<char>,
    pub manager: Seq<char>,
    pub stadium: Seq<char>,
}

impl TeamView {
    /// The fields that a caller supplied.
    pub open spec fn payload(self) -> TeamPayloadView {
        TeamPayloadView { name: self.name, manager: self.manager, stadium: self.stadium }
    }
}

impl TeamPayloadView {
    /// Every required field is filled in: no text is empty.
    pub open spec fn valid(self) -> bool {
        self.name.len() > 0 && self.manager.len() > 0 && self.stadium.len() > 0
    }

    /// The team with this payload's fields under the given id.
    pub open spec fn with_id(self, id: u64) -> TeamView {
        TeamView { id, name: self.name, manager: self.manager, stadium: self.stadium }
    }

    /// A table can hold a team with these fields.
    pub open spec fn fits(self) -> bool {
        row_fits(Team::row_of(self.with_id(0)))
    }
}

impl View for Team {
    type V = TeamView;

    open spec fn view(&self) -> TeamView {
        TeamView { id: self.id, name: self.name@, manager: self.manager@, stadium: self.stadium@ }
    }
}

impl View for TeamPayload {
    type V = TeamPayloadView;

    open spec fn view(&self) -> TeamPayloadView {
        TeamPayloadView { name: self.name@, manager: self.manager@, stadium: self.stadium@ }
    }
}

impl Clone for Team {
    fn clone(&self) -> (copy: Self)
        ensures
            copy@ == self@,
    {
        Team {
            id: self.id,
            name: self.name.clone(),
            manager: self.manager.clone(),
            stadium: self.stadium.clone(),
        }
    }
}

impl Clone for TeamPayload {
    fn clone(&self) -> (copy: Self)
        ensures
            copy@ == self@,
    {
        TeamPayload {
            name: self.name.clone(),
            manager: self.manager.clone(),
            stadium: self.stadium.clone(),
        }
    }
}

impl Default for Team {
    /// The team with id 0 and empty texts.
    fn default() -> (team: Self)
        ensures
            team@ == (TeamView {
                id: 0,
                name: Seq::empty(),
                manager: Seq::empty(),
                stadium: Seq::empty(),
            }),
    {
        Team { id: 0, name: String::new(), manager: String::new(), stadium: String::new() }
    }
}

impl Default for TeamPayload {
    /// The payload with empty texts, which is not valid.
    fn default() -> (payload: Self)
        ensures
            payload@ == (TeamPayloadView {
                name: Seq::empty(),
                manager: Seq::empty(),
                stadium: Seq::empty(),
            }),
            !payload@.valid(),
    {
        TeamPayload { name: String::new(), manager: String::new(), stadium: String::new() }
    }
}

impl Record for Team {
    open spec fn row_of(v: TeamView) -> RowView {
        (v.id, (v.name, v.manager, v.stadium), 0)
    }

    open spec fn of_row(row: RowView) -> TeamView {
        TeamView { id: row.0, name: row.1.0, manager: row.1.1, stadium: row.1.2 }
    }

    proof fn lemma_round_trip(v: TeamView) {
    }

    fn to_row(&self) -> (row: Row) {
        (self.id, (self.name.clone(), self.manager.clone(), self.stadium.clone()), 0)
    }

    fn from_row(row: Row) -> (rec: Team) {
        Team { id: row.0, name: row.1.0, manager: row.1.1, stadium: row.1.2 }
    }
}

impl TeamPayload {
    /// Whether every required field is filled in.
    pub fn is_valid(&self) -> (ok: bool)
        ensures
            ok == self@.valid(),
    {
        !self.name.as_str().is_empty() && !self.manager.as_str().is_empty()
            && !self.stadium.as_str().is_empty()
    }

    /// Whether a table can hold a team with these fields.
    pub fn fits(&self) -> (ok: bool)
        ensures
            ok == self@.fits(),
    {
        texts_fit(self.name.as_str(), self.manager.as_str(), self.stadium.as_str())
    }

    /// The team with this payload's fields under the given id.
    pub fn into_team(self, id: u64) -> (team: Team)
        ensures
            team@ == self@.with_id(id),
    {
        Team { id, name: self.name, manager: self.manager, stadium: self.stadium }
    }
}

/// The sentence for a payload that `add_team` turns down.
pub open spec fn team_add_refused() -> Seq<char> {
    "Please fill in all the required fields to add a team"@
}

/// The sentence for a payload that `update_team` turns down.
pub open spec fn team_update_refused() -> Seq<char> {
    "You must fill all of the required fields"@
}

/// The sentence for a team that `get_team` does not find.
pub open spec fn team_not_found(id: u64) -> Seq<char> {
    sentence("Team"@, id, " cannot be found"@)
}

/// The sentence for a team that `update_team` or `delete_team` does not find.
pub open spec fn team_missing(id: u64) -> Seq<char> {
    sentence("Team"@, id, " not found"@)
}

} // verus!
