//! The service as a mathematical object: its state, and what each operation
//! makes of a state.
//!
//! The executable operations in [`crate::handlers`] are specified by the
//! functions here, and the laws in [`crate::laws`] are proved of them.

use crate::coach::{coach_missing, coach_not_found, coach_refused, CoachPayloadView, CoachView};
use crate::error::{ids_exhausted, record_too_large, Failure};
use crate::fixture::{match_missing, match_refused, MatchPayloadView, MatchView};
use crate::stadium::{stadium_missing, stadium_refused, StadiumPayloadView, StadiumView};
use crate::team::{
    team_add_refused, team_missing, team_not_found, team_update_refused, TeamPayloadView, TeamView,
};
use vstd::prelude::*;

verus! {

/// The state of the service: the last identifier issued and, for each kind,
/// the records by identifier.
pub struct StateView {
    pub last_id: u64,
    pub teams: Map<u64, TeamView>,
    pub coaches: Map<u64, CoachView>,
    pub stadiums: Map<u64, StadiumView>,
    pub matches: Map<u64, MatchView>,
}

impl StateView {
    /// The state without records in which `last_id` was issued last.
    pub open spec fn empty(last_id: u64) -> StateView {
        StateView {
            last_id,
            teams: Map::empty(),
            coaches: Map::empty(),
            stadiums: Map::empty(),
            matches: Map::empty(),
        }
    }

    /// An identifier that is in use has been issued: it lies between 1 and
    /// the last one issued.
    pub open spec fn issued(self, id: u64) -> bool {
        1 <= id <= self.last_id
    }

    /// What holds of every state that the operations reach: each record sits
    /// under its own identifier, that identifier has been issued, and the
    /// record's required fields are filled in.
    pub open spec fn wf(self) -> bool {
        &&& forall|id: u64| #[trigger]
            self.teams.dom().contains(id) ==> self.issued(id) && self.teams[id].id == id
                && self.teams[id].payload().valid()
        &&& forall|id: u64| #[trigger]
            self.coaches.dom().contains(id) ==> self.issued(id) && self.coaches[id].id == id
                && self.coaches[id].payload().valid()
        &&& forall|id: u64| #[trigger]
            self.stadiums.dom().contains(id) ==> self.issued(id) && self.stadiums[id].id == id
                && self.stadiums[id].payload().valid()
        &&& forall|id: u64| #[trigger]
            self.matches.dom().contains(id) ==> self.issued(id) && self.matches[id].id == id
                && self.matches[id].payload().valid()
    }

    /// Creating a team.
    ///
    /// A payload with a required field left empty is turned down. Otherwise
    /// the next identifier is issued and the team stored under it, unless the
    /// storage cannot take it. A request that fails leaves the state as it
    /// was.
    pub open spec fn add_team(self, p: TeamPayloadView) -> (
        StateView,
        Result<TeamView, Failure>,
    ) {
        if !p.valid() {
            (self, Err(Failure::EmptyFields(team_add_refused())))
        } else if !p.fits() {
            (self, Err(Failure::StorageFailure(record_too_large())))
        } else if self.last_id == u64::MAX {
            (self, Err(Failure::StorageFailure(ids_exhausted())))
        } else {
            let id = (self.last_id + 1) as u64;
            let team = p.with_id(id);
            (
                StateView { last_id: id, teams: self.teams.insert(id, team), ..self },
                Ok(team),
            )
        }
    }

    /// Looking a team up.
    pub open spec fn get_team(self, id: u64) -> Result<TeamView, Failure> {
        if self.teams.dom().contains(id) {
            Ok(self.teams[id])
        } else {
            Err(Failure::NotFound(team_not_found(id)))
        }
    }

    /// Replacing the fields of a team.
    ///
    /// The payload is judged first, whether or not the team exists. The
    /// stored team keeps its identifier and takes every other field from
    /// the payload.
    pub open spec fn update_team(self, id: u64, p: TeamPayloadView) -> (
        StateView,
        Result<TeamView, Failure>,
    ) {
        if !p.valid() {
            (self, Err(Failure::EmptyFields(team_update_refused())))
        } else if !self.teams.dom().contains(id) {
            (self, Err(Failure::NotFound(team_missing(id))))
        } else if !p.fits() {
            (self, Err(Failure::StorageFailure(record_too_large())))
        } else {
            let team = p.with_id(self.teams[id].id);
            (StateView { teams: self.teams.insert(id, team), ..self }, Ok(team))
        }
    }

    /// Removing a team.
    pub open spec fn delete_team(self, id: u64) -> (StateView, Result<(), Failure>) {
        if self.teams.dom().contains(id) {
            (StateView { teams: self.teams.remove(id), ..self }, Ok(()))
        } else {
            (self, Err(Failure::NotFound(team_missing(id))))
        }
    }

    /// Creating a coach.
    ///
    /// A payload with a required field left empty is turned down. Otherwise
    /// the next identifier is issued and the coach stored under it, unless the
    /// storage cannot take it. A request that fails leaves the state as it
    /// was.
    pub open spec fn add_coach(self, p: CoachPayloadView) -> (
        StateView,
        Result<CoachView, Failure>,
    ) {
        if !p.valid() {
            (self, Err(Failure::EmptyFields(coach_refused())))
        } else if !p.fits() {
            (self, Err(Failure::StorageFailure(record_too_large())))
        } else if self.last_id == u64::MAX {
            (self, Err(Failure::StorageFailure(ids_exhausted())))
        } else {
            let id = (self.last_id + 1) as u64;
            let coach = p.with_id(id);
            (
                StateView { last_id: id, coaches: self.coaches.insert(id, coach), ..self },
                Ok(coach),
            )
        }
    }

    /// Looking a coach up.
    pub open spec fn get_coach(self, id: u64) -> Result<CoachView, Failure> {
        if self.coaches.dom().contains(id) {
            Ok(self.coaches[id])
        } else {
            Err(Failure::NotFound(coach_not_found(id)))
        }
    }

    /// Replacing the fields of a coach.
    ///
    /// The payload is judged first, whether or not the coach exists. The
    /// stored coach keeps its identifier and takes every other field from
    /// the payload.
    pub open spec fn update_coach(self, id: u64, p: CoachPayloadView) -> (
        StateView,
        Result<CoachView, Failure>,
    ) {
        if !p.valid() {
            (self, Err(Failure::EmptyFields(coach_refused())))
        } else if !self.coaches.dom().contains(id) {
            (self, Err(Failure::NotFound(coach_missing(id))))
        } else if !p.fits() {
            (self, Err(Failure::StorageFailure(record_too_large())))
        } else {
            let coach = p.with_id(self.coaches[id].id);
            (StateView { coaches: self.coaches.insert(id, coach), ..self }, Ok(coach))
        }
    }

    /// Removing a coach.
    pub open spec fn delete_coach(self, id: u64) -> (StateView, Result<(), Failure>) {
        if self.coaches.dom().contains(id) {
            (StateView { coaches: self.coaches.remove(id), ..self }, Ok(()))
        } else {
            (self, Err(Failure::NotFound(coach_missing(id))))
        }
    }

    /// Creating a stadium.
    ///
    /// A payload with a required field left empty is turned down. Otherwise
    /// the next identifier is issued and the stadium stored under it, unless the
    /// storage cannot take it. A request that fails leaves the state as it
    /// was.
    pub open spec fn add_stadium(self, p: StadiumPayloadView) -> (
        StateView,
        Result<StadiumView, Failure>,
    ) {
        if !p.valid() {
            (self, Err(Failure::EmptyFields(stadium_refused())))
        } else if !p.fits() {
            (self, Err(Failure::StorageFailure(record_too_large())))
        } else if self.last_id == u64::MAX {
            (self, Err(Failure::StorageFailure(ids_exhausted())))
        } else {
            let id = (self.last_id + 1) as u64;
            let stadium = p.with_id(id);
            (
                StateView { last_id: id, stadiums: self.stadiums.insert(id, stadium), ..self },
                Ok(stadium),
            )
        }
    }

    /// Looking a stadium up.
    pub open spec fn get_stadium(self, id: u64) -> Result<StadiumView, Failure> {
        if self.stadiums.dom().contains(id) {
            Ok(self.stadiums[id])
        } else {
            Err(Failure::NotFound(stadium_missing(id)))
        }
    }

    /// Replacing the fields of a stadium.
    ///
    /// The payload is judged first, whether or not the stadium exists. The
    /// stored stadium keeps its identifier and takes every other field from
    /// the payload.
    pub open spec fn update_stadium(self, id: u64, p: StadiumPayloadView) -> (
        StateView,
        Result<StadiumView, Failure>,
    ) {
        if !p.valid() {
            (self, Err(Failure::EmptyFields(stadium_refused())))
        } else if !self.stadiums.dom().contains(id) {
            (self, Err(Failure::NotFound(stadium_missing(id))))
        } else if !p.fits() {
            (self, Err(Failure::StorageFailure(record_too_large())))
        } else {
            let stadium = p.with_id(self.stadiums[id].id);
            (StateView { stadiums: self.stadiums.insert(id, stadium), ..self }, Ok(stadium))
        }
    }

    /// Removing a stadium.
    pub open spec fn delete_stadium(self, id: u64) -> (StateView, Result<(), Failure>) {
        if self.stadiums.dom().contains(id) {
            (StateView { stadiums: self.stadiums.remove(id), ..self }, Ok(()))
        } else {
            (self, Err(Failure::NotFound(stadium_missing(id))))
        }
    }

    /// Creating a match.
    ///
    /// A payload with a required field left empty is turned down. Otherwise
    /// the next identifier is issued and the match stored under it, unless the
    /// storage cannot take it. A request that fails leaves the state as it
    /// was.
    pub open spec fn add_match(self, p: MatchPayloadView) -> (
        StateView,
        Result<MatchView, Failure>,
    ) {
        if !p.valid() {
            (self, Err(Failure::EmptyFields(match_refused())))
        } else if !p.fits() {
            (self, Err(Failure::StorageFailure(record_too_large())))
        } else if self.last_id == u64::MAX {
            (self, Err(Failure::StorageFailure(ids_exhausted())))
        } else {
            let id = (self.last_id + 1) as u64;
            let game = p.with_id(id);
            (
                StateView { last_id: id, matches: self.matches.insert(id, game), ..self },
                Ok(game),
            )
        }
    }

    /// Looking a match up.
    pub open spec fn get_match(self, id: u64) -> Result<MatchView, Failure> {
        if self.matches.dom().contains(id) {
            Ok(self.matches[id])
        } else {
            Err(Failure::NotFound(match_missing(id)))
        }
    }

    /// Replacing the fields of a match.
    ///
    /// The payload is judged first, whether or not the match exists. The
    /// stored match keeps its identifier and takes every other field from
    /// the payload.
    pub open spec fn update_match(self, id: u64, p: MatchPayloadView) -> (
        StateView,
        Result<MatchView, Failure>,
    ) {
        if !p.valid() {
            (self, Err(Failure::EmptyFields(match_refused())))
        } else if !self.matches.dom().contains(id) {
            (self, Err(Failure::NotFound(match_missing(id))))
        } else if !p.fits() {
            (self, Err(Failure::StorageFailure(record_too_large())))
        } else {
            let game = p.with_id(self.matches[id].id);
            (StateView { matches: self.matches.insert(id, game), ..self }, Ok(game))
        }
    }

    /// Removing a match.
    pub open spec fn delete_match(self, id: u64) -> (StateView, Result<(), Failure>) {
        if self.matches.dom().contains(id) {
            (StateView { matches: self.matches.remove(id), ..self }, Ok(()))
        } else {
            (self, Err(Failure::NotFound(match_missing(id))))
        }
    }
}

} // verus!
