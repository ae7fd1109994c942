//! Matches.

use crate::record::{texts_fit, Record};
use crate::stable::{row_fits, Row, RowView};
use crate::text::sentence;
use vstd::prelude::*;

verus! {

/// A match as it is stored and returned.
#[derive(Debug, PartialEq, Eq)]
pub struct Match {
    pub id: u64,
    /// Free text; no team record has to exist under this name.
    pub home_team: String,
    /// Free text, as `home_team`.
    pub away_team: String,
    /// Free text; no stadium record has to exist under this name.
    pub venue: String,
    /// Seconds since the Unix epoch.
    pub match_date: u64,
}

/// What a caller supplies to create or update a match.
#[derive(Debug, PartialEq, Eq)]
pub struct MatchPayload {
    pub home_team: String,
    pub away_team: String,
    pub venue: String,
    pub match_date: u64,
}

/// A [`Match`] in specifications.
pub struct MatchView {
    pub id: u64,
    pub home_team: Seq<char>,
    pub away_team: Seq<char>,
    pub venue: Seq<char>,
    pub match_date: u64,
}

/// A [`MatchPayload`] in specifications.
pub struct MatchPayloadView {
    pub home_team: Seq<char>,
    pub away_team: Seq<char>,
    pub venue: Seq<char>,
    pub match_date: u64,
}

impl MatchView {
    /// The fields that a caller supplied.
    pub open spec fn payload(self) -> MatchPayloadView {
        MatchPayloadView {
            home_team: self.home_team,
            away_team: self.away_team,
            venue: self.venue,
            match_date: self.match_date,
        }
    }
}

impl MatchPayloadView {
    /// Every required field is filled in: no text is empty. Any date is
    /// accepted.
    pub open spec fn valid(self) -> bool {
        self.home_team.len() > 0 && self.away_team.len() > 0 && self.venue.len() > 0
    }

    /// The match with this payload's fields under the given id.
    pub open spec fn with_id(self, id: u64) -> MatchView {
        MatchView {
            id,
            home_team: self.home_team,
            away_team: self.away_team,
            venue: self.venue,
            match_date: self.match_date,
        }
    }

    /// A table can hold a match with these fields.
    pub open spec fn fits(self) -> bool {
        row_fits(Match::row_of(self.with_id(0)))
    }
}

impl View for Match {
    type V = MatchView;

    open spec fn view(&self) -> MatchView {
        MatchView {
            id: self.id,
            home_team: self.home_team@,
            away_team: self.away_team@,
            venue: self.venue@,
            match_date: self.match_date,
        }
    }
}

impl View for MatchPayload {
    type V = MatchPayloadView;

    open spec fn view(&self) -> MatchPayloadView {
        MatchPayloadView {
            home_team: self.home_team@,
            away_team: self.away_team@,
            venue: self.venue@,
            match_date: self.match_date,
        }
    }
}

impl Clone for Match {
    fn clone(&self) -> (copy: Self)
        ensures
            copy@ == self@,
    {
        Match {
            id: self.id,
            home_team: self.home_team.clone(),
            away_team: self.away_team.clone(),
            venue: self.venue.clone(),
            match_date: self.match_date,
        }
    }
}

impl Clone for MatchPayload {
    fn clone(&self) -> (copy: Self)
        ensures
            copy@ == self@,
    {
        MatchPayload {
            home_team: self.home_team.clone(),
            away_team: self.away_team.clone(),
            venue: self.venue.clone(),
            match_date: self.match_date,
        }
    }
}

impl Default for Match {
    /// The match with id 0, empty texts and date 0.
    fn default() -> (game: Self)
        ensures
            game@ == (MatchView {
                id: 0,
                home_team: Seq::empty(),
                away_team: Seq::empty(),
                venue: Seq::empty(),
                match_date: 0,
            }),
    {
        Match {
            id: 0,
            home_team: String::new(),
            away_team: String::new(),
            venue: String::new(),
            match_date: 0,
        }
    }
}

impl Default for MatchPayload {
    /// The payload with empty texts and date 0, which is not valid.
    fn default() -> (payload: Self)
        ensures
            payload@ == (MatchPayloadView {
                home_team: Seq::empty(),
                away_team: Seq::empty(),
                venue: Seq::empty(),
                match_date: 0,
            }),
            !payload@.valid(),
    {
        MatchPayload {
            home_team: String::new(),
            away_team: String::new(),
            venue: String::new(),
            match_date: 0,
        }
    }
}

impl Record for Match {
    open spec fn row_of(v: MatchView) -> RowView {
        (v.id, (v.home_team, v.away_team, v.venue), v.match_date)
    }

    open spec fn of_row(row: RowView) -> MatchView {
        MatchView {
            id: row.0,
            home_team: row.1.0,
            away_team: row.1.1,
            venue: row.1.2,
            match_date: row.2,
        }
    }

    proof fn lemma_round_trip(v: MatchView) {
    }

    fn to_row(&self) -> (row: Row) {
        (
            self.id,
            (self.home_team.clone(), self.away_team.clone(), self.venue.clone()),
            self.match_date,
        )
    }

    fn from_row(row: Row) -> (rec: Match) {
        Match {
            id: row.0,
            home_team: row.1.0,
            away_team: row.1.1,
            venue: row.1.2,
            match_date: row.2,
        }
    }
}

impl MatchPayload {
    /// Whether every required field is filled in.
    pub fn is_valid(&self) -> (ok: bool)
        ensures
            ok == self@.valid(),
    {
        !self.home_team.as_str().is_empty() && !self.away_team.as_str().is_empty()
            && !self.venue.as_str().is_empty()
    }

    /// Whether a table can hold a match with these fields.
    pub fn fits(&self) -> (ok: bool)
        ensures
            ok == self@.fits(),
    {
        texts_fit(self.home_team.as_str(), self.away_team.as_str(), self.venue.as_str())
    }

    /// The match with this payload's fields under the given id.
    pub fn into_match(self, id: u64) -> (game: Match)
        ensures
            game@ == self@.with_id(id),
    {
        Match {
            id,
            home_team: self.home_team,
            away_team: self.away_team,
            venue: self.venue,
            match_date: self.match_date,
        }
    }
}

/// The sentence for a payload that `add_match` or `update_match` turns down.
pub open spec fn match_refused() -> Seq<char> {
    "Please fill in all the required fields"@
}

/// The sentence for a match that is not found.
pub open spec fn match_missing(id: u64) -> Seq<char> {
    sentence("Match"@, id, " not found"@)
}

} // verus!
