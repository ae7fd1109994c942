//! Requests as values, and what a whole sequence of them makes of a state.

use crate::coach::{CoachPayloadView, CoachView};
use crate::error::Failure;
use crate::fixture::{MatchPayloadView, MatchView};
use crate::model::StateView;
use crate::stadium::{StadiumPayloadView, StadiumView};
use crate::team::{TeamPayloadView, TeamView};
use vstd::prelude::*;

verus! {

/// One request to the service.
pub enum Op {
    AddTeam(TeamPayloadView),
    GetTeam(u64),
    UpdateTeam(u64, TeamPayloadView),
    DeleteTeam(u64),
    AddCoach(CoachPayloadView),
    GetCoach(u64),
    UpdateCoach(u64, CoachPayloadView),
    DeleteCoach(u64),
    AddStadium(StadiumPayloadView),
    GetStadium(u64),
    UpdateStadium(u64, StadiumPayloadView),
    DeleteStadium(u64),
    AddMatch(MatchPayloadView),
    GetMatch(u64),
    UpdateMatch(u64, MatchPayloadView),
    DeleteMatch(u64),
}

/// What the service answers to one request.
pub enum Reply {
    Team(TeamView),
    Coach(CoachView),
    Stadium(StadiumView),
    Match(MatchView),
    Deleted,
    Failed(Failure),
}

impl Reply {
    /// The reply that carries the result of a request about a team.
    pub open spec fn of_team(r: Result<TeamView, Failure>) -> Reply {
        match r {
            Ok(team) => Reply::Team(team),
            Err(failure) => Reply::Failed(failure),
        }
    }

    /// The reply that carries the result of a request about a coach.
    pub open spec fn of_coach(r: Result<CoachView, Failure>) -> Reply {
        match r {
            Ok(coach) => Reply::Coach(coach),
            Err(failure) => Reply::Failed(failure),
        }
    }

    /// The reply that carries the result of a request about a stadium.
    pub open spec fn of_stadium(r: Result<StadiumView, Failure>) -> Reply {
        match r {
            Ok(stadium) => Reply::Stadium(stadium),
            Err(failure) => Reply::Failed(failure),
        }
    }

    /// The reply that carries the result of a request about a match.
    pub open spec fn of_match(r: Result<MatchView, Failure>) -> Reply {
        match r {
            Ok(game) => Reply::Match(game),
            Err(failure) => Reply::Failed(failure),
        }
    }

    /// The reply that carries the result of a delete.
    pub open spec fn of_delete(r: Result<(), Failure>) -> Reply {
        match r {
            Ok(_) => Reply::Deleted,
            Err(failure) => Reply::Failed(failure),
        }
    }

    /// The identifier of the record in the reply, if it holds one.
    pub open spec fn record_id(self) -> Option<u64> {
        match self {
            Reply::Team(team) => Some(team.id),
            Reply::Coach(coach) => Some(coach.id),
            Reply::Stadium(stadium) => Some(stadium.id),
            Reply::Match(game) => Some(game.id),
            Reply::Deleted => None,
            Reply::Failed(_) => None,
        }
    }
}

impl Op {
    /// Whether the request creates a record.
    pub open spec fn is_add(self) -> bool {
        self is AddTeam || self is AddCoach || self is AddStadium || self is AddMatch
    }

    /// Whether the request removes a record.
    pub open spec fn is_delete(self) -> bool {
        self is DeleteTeam || self is DeleteCoach || self is DeleteStadium || self is DeleteMatch
    }

    /// For a request that names a record: the identifier it names.
    pub open spec fn target(self) -> Option<u64> {
        match self {
            Op::GetTeam(id) | Op::UpdateTeam(id, _) | Op::DeleteTeam(id) => Some(id),
            Op::GetCoach(id) | Op::UpdateCoach(id, _) | Op::DeleteCoach(id) => Some(id),
            Op::GetStadium(id) | Op::UpdateStadium(id, _) | Op::DeleteStadium(id) => Some(id),
            Op::GetMatch(id) | Op::UpdateMatch(id, _) | Op::DeleteMatch(id) => Some(id),
            _ => None,
        }
    }

    /// The request that looks up, in the store this request works on, the
    /// record under `id`.
    pub open spec fn lookup(self, id: u64) -> Op {
        match self {
            Op::AddTeam(_) | Op::GetTeam(_) | Op::UpdateTeam(_, _) | Op::DeleteTeam(_) => {
                Op::GetTeam(id)
            },
            Op::AddCoach(_) | Op::GetCoach(_) | Op::UpdateCoach(_, _) | Op::DeleteCoach(_) => {
                Op::GetCoach(id)
            },
            Op::AddStadium(_)
            | Op::GetStadium(_)
            | Op::UpdateStadium(_, _)
            | Op::DeleteStadium(_) => Op::GetStadium(id),
            Op::AddMatch(_) | Op::GetMatch(_) | Op::UpdateMatch(_, _) | Op::DeleteMatch(_) => {
                Op::GetMatch(id)
            },
        }
    }
}

/// Whether the store that `op` works on holds a record under `id`.
pub open spec fn in_store_of(s: StateView, op: Op, id: u64) -> bool {
    match op.lookup(id) {
        Op::GetTeam(_) => s.teams.dom().contains(id),
        Op::GetCoach(_) => s.coaches.dom().contains(id),
        Op::GetStadium(_) => s.stadiums.dom().contains(id),
        _ => s.matches.dom().contains(id),
    }
}

/// The state after one request, and the reply to it.
pub open spec fn step(s: StateView, op: Op) -> (StateView, Reply) {
    match op {
        Op::AddTeam(p) => (s.add_team(p).0, Reply::of_team(s.add_team(p).1)),
        Op::GetTeam(id) => (s, Reply::of_team(s.get_team(id))),
        Op::UpdateTeam(id, p) => (s.update_team(id, p).0, Reply::of_team(s.update_team(id, p).1)),
        Op::DeleteTeam(id) => (s.delete_team(id).0, Reply::of_delete(s.delete_team(id).1)),
        Op::AddCoach(p) => (s.add_coach(p).0, Reply::of_coach(s.add_coach(p).1)),
        Op::GetCoach(id) => (s, Reply::of_coach(s.get_coach(id))),
        Op::UpdateCoach(id, p) => (
            s.update_coach(id, p).0,
            Reply::of_coach(s.update_coach(id, p).1),
        ),
        Op::DeleteCoach(id) => (s.delete_coach(id).0, Reply::of_delete(s.delete_coach(id).1)),
        Op::AddStadium(p) => (s.add_stadium(p).0, Reply::of_stadium(s.add_stadium(p).1)),
        Op::GetStadium(id) => (s, Reply::of_stadium(s.get_stadium(id))),
        Op::UpdateStadium(id, p) => (
            s.update_stadium(id, p).0,
            Reply::of_stadium(s.update_stadium(id, p).1),
        ),
        Op::DeleteStadium(id) => (
            s.delete_stadium(id).0,
            Reply::of_delete(s.delete_stadium(id).1),
        ),
        Op::AddMatch(p) => (s.add_match(p).0, Reply::of_match(s.add_match(p).1)),
        Op::GetMatch(id) => (s, Reply::of_match(s.get_match(id))),
        Op::UpdateMatch(id, p) => (
            s.update_match(id, p).0,
            Reply::of_match(s.update_match(id, p).1),
        ),
        Op::DeleteMatch(id) => (s.delete_match(id).0, Reply::of_delete(s.delete_match(id).1)),
    }
}

/// The state after a sequence of requests, made in order.
pub open spec fn after(s: StateView, ops: Seq<Op>) -> StateView
    decreases ops.len(),
{
    if ops.len() == 0 {
        s
    } else {
        step(after(s, ops.drop_last()), ops.last()).0
    }
}

/// The reply to the request at position `i` of a sequence made from `s`.
pub open spec fn reply_at(s: StateView, ops: Seq<Op>, i: int) -> Reply {
    step(after(s, ops.take(i)), ops[i]).1
}

/// The identifier that the request at position `i` had issued, if it created
/// a record.
pub open spec fn issued_at(s: StateView, ops: Seq<Op>, i: int) -> Option<u64> {
    if ops[i].is_add() {
        reply_at(s, ops, i).record_id()
    } else {
        None
    }
}

} // verus!
