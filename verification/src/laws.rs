//! What holds of the service whatever requests it is sent.
//!
//! The laws are stated of the model in [`crate::model`] and
//! [`crate::history`]. Every operation in [`crate::handlers`] is specified to
//! do exactly what the model does, so they hold of the executable service
//! too.

use crate::coach::{coach_missing, coach_not_found, coach_refused, CoachPayloadView};
use crate::error::Failure;
use crate::fixture::{match_missing, match_refused, MatchPayloadView};
use crate::history::{after, in_store_of, issued_at, step, Op, Reply};
use crate::model::StateView;
use crate::stadium::{stadium_missing, stadium_refused, StadiumPayloadView};
use crate::team::{
    team_add_refused, team_missing, team_not_found, team_update_refused, TeamPayloadView,
};
use vstd::prelude::*;

verus! {

/// No request takes the state out of the well-formed ones.
pub proof fn law_step_keeps_wf(s: StateView, op: Op)
    requires
        s.wf(),
    ensures
        step(s, op).0.wf(),
{
}

/// No sequence of requests takes the state out of the well-formed ones.
pub proof fn law_wf_is_kept(s: StateView, ops: Seq<Op>)
    requires
        s.wf(),
    ensures
        after(s, ops).wf(),
    decreases ops.len(),
{
    if ops.len() > 0 {
        law_wf_is_kept(s, ops.drop_last());
        law_step_keeps_wf(after(s, ops.drop_last()), ops.last());
    }
}

/// The counter never goes back, and a request that creates a record moves it
/// forward to that record's identifier.
pub proof fn law_counter_only_grows(s: StateView, op: Op)
    ensures
        s.last_id <= step(s, op).0.last_id,
        op.is_add() ==> (step(s, op).1.record_id() matches Some(id) ==> s.last_id < id && id
            == step(s, op).0.last_id),
{
}

/// The state after the first `i + 1` requests is the state after the first
/// `i`, stepped by the request at `i`.
proof fn lemma_after_unfolds(s: StateView, ops: Seq<Op>, i: int)
    requires
        0 <= i < ops.len(),
    ensures
        after(s, ops.take(i + 1)) == step(after(s, ops.take(i)), ops[i]).0,
{
    assert(ops.take(i + 1).drop_last() =~= ops.take(i));
}

/// Along a sequence of requests the counter never goes back.
proof fn lemma_counter_along(s: StateView, ops: Seq<Op>, i: int, j: int)
    requires
        0 <= i <= j <= ops.len(),
    ensures
        after(s, ops.take(i)).last_id <= after(s, ops.take(j)).last_id,
    decreases j - i,
{
    if i < j {
        lemma_counter_along(s, ops, i, j - 1);
        lemma_after_unfolds(s, ops, j - 1);
        law_counter_only_grows(after(s, ops.take(j - 1)), ops[j - 1]);
    }
}

/// Identifiers are issued in strictly increasing order: in any sequence of
/// requests, of whatever kinds and from whatever state, a record created
/// later has a greater identifier than one created earlier.
pub proof fn law_ids_increase(s: StateView, ops: Seq<Op>, i: int, j: int)
    requires
        0 <= i < j < ops.len(),
    ensures
        issued_at(s, ops, i) matches Some(earlier) ==> (issued_at(s, ops, j) matches Some(later)
            ==> earlier < later),
{
    law_counter_only_grows(after(s, ops.take(i)), ops[i]);
    lemma_after_unfolds(s, ops, i);
    lemma_counter_along(s, ops, i + 1, j);
    law_counter_only_grows(after(s, ops.take(j)), ops[j]);
}

/// Identifiers are unique: in any sequence of requests, of whatever kinds and
/// from whatever state, no two records are created under the same identifier.
pub proof fn law_ids_unique(s: StateView, ops: Seq<Op>, i: int, j: int)
    requires
        0 <= i < ops.len(),
        0 <= j < ops.len(),
        i != j,
    ensures
        issued_at(s, ops, i) matches Some(a) ==> (issued_at(s, ops, j) matches Some(b) ==> a
            != b),
{
    if i < j {
        law_ids_increase(s, ops, i, j);
    } else {
        law_ids_increase(s, ops, j, i);
    }
}

/// A record is created under an identifier that no store holds a record
/// under, so creating never overwrites.
pub proof fn law_new_id_is_fresh(s: StateView, op: Op)
    requires
        s.wf(),
        op.is_add(),
    ensures
        step(s, op).1.record_id() matches Some(id) ==> !s.teams.dom().contains(id)
            && !s.coaches.dom().contains(id) && !s.stadiums.dom().contains(id)
            && !s.matches.dom().contains(id),
{
}

/// No identifier is issued twice: one that has been issued and is not in a
/// store does not come into that store by any requests.
pub proof fn law_issued_id_never_returns(s: StateView, kind: Op, id: u64, ops: Seq<Op>)
    requires
        s.issued(id),
        !in_store_of(s, kind, id),
    ensures
        after(s, ops).issued(id),
        !in_store_of(after(s, ops), kind, id),
    decreases ops.len(),
{
    if ops.len() > 0 {
        law_issued_id_never_returns(s, kind, id, ops.drop_last());
    }
}

/// Looking up the identifier of a record just created returns that record:
/// the lookup answers what the create answered.
pub proof fn law_get_returns_what_add_returned(
    s: StateView,
    team: TeamPayloadView,
    coach: CoachPayloadView,
    stadium: StadiumPayloadView,
    game: MatchPayloadView,
)
    ensures
        s.add_team(team).1 matches Ok(t) ==>
            s.add_team(team).0.get_team(t.id) == s.add_team(team).1,
        s.add_coach(coach).1 matches Ok(c) ==>
            s.add_coach(coach).0.get_coach(c.id) == s.add_coach(coach).1,
        s.add_stadium(stadium).1 matches Ok(d) ==>
            s.add_stadium(stadium).0.get_stadium(d.id) == s.add_stadium(stadium).1,
        s.add_match(game).1 matches Ok(m) ==>
            s.add_match(game).0.get_match(m.id) == s.add_match(game).1,
{
}

/// An update returns, and stores, a record under the identifier it was asked
/// to update.
pub proof fn law_update_keeps_id(
    s: StateView,
    id: u64,
    team: TeamPayloadView,
    coach: CoachPayloadView,
    stadium: StadiumPayloadView,
    game: MatchPayloadView,
)
    requires
        s.wf(),
    ensures
        s.update_team(id, team).1 matches Ok(t) ==>
            t.id == id && s.update_team(id, team).0.teams[id] == t,
        s.update_coach(id, coach).1 matches Ok(c) ==>
            c.id == id && s.update_coach(id, coach).0.coaches[id] == c,
        s.update_stadium(id, stadium).1 matches Ok(d) ==>
            d.id == id && s.update_stadium(id, stadium).0.stadiums[id] == d,
        s.update_match(id, game).1 matches Ok(m) ==>
            m.id == id && s.update_match(id, game).0.matches[id] == m,
{
}

/// An update of an identifier that is in use succeeds whenever the payload is
/// valid and the record can be stored, and the record then has that
/// identifier and the payload's fields.
pub proof fn law_update_succeeds_on_existing(
    s: StateView,
    id: u64,
    team: TeamPayloadView,
    coach: CoachPayloadView,
    stadium: StadiumPayloadView,
    game: MatchPayloadView,
)
    requires
        s.wf(),
    ensures
        s.teams.dom().contains(id) && team.valid() && team.fits() ==>
            (s.update_team(id, team).1 matches Ok(t) && t == team.with_id(id)),
        s.coaches.dom().contains(id) && coach.valid() && coach.fits() ==>
            (s.update_coach(id, coach).1 matches Ok(c) && c == coach.with_id(id)),
        s.stadiums.dom().contains(id) && stadium.valid() && stadium.fits() ==>
            (s.update_stadium(id, stadium).1 matches Ok(d) && d == stadium.with_id(id)),
        s.matches.dom().contains(id) && game.valid() && game.fits() ==>
            (s.update_match(id, game).1 matches Ok(m) && m == game.with_id(id)),
{
}

/// Right after a delete that succeeded, looking the identifier up and
/// deleting it again both fail with `NotFound`.
pub proof fn law_delete_is_terminal(s: StateView, id: u64)
    ensures
        s.delete_team(id).1 is Ok ==>
            (s.delete_team(id).0.get_team(id) matches Err(e)
                && e == Failure::NotFound(team_not_found(id))),
        s.delete_team(id).1 is Ok ==>
            (s.delete_team(id).0.delete_team(id).1 matches Err(e)
                && e == Failure::NotFound(team_missing(id))),
        s.delete_coach(id).1 is Ok ==>
            (s.delete_coach(id).0.get_coach(id) matches Err(e)
                && e == Failure::NotFound(coach_not_found(id))),
        s.delete_coach(id).1 is Ok ==>
            (s.delete_coach(id).0.delete_coach(id).1 matches Err(e)
                && e == Failure::NotFound(coach_missing(id))),
        s.delete_stadium(id).1 is Ok ==>
            (s.delete_stadium(id).0.get_stadium(id) matches Err(e)
                && e == Failure::NotFound(stadium_missing(id))),
        s.delete_stadium(id).1 is Ok ==>
            (s.delete_stadium(id).0.delete_stadium(id).1 matches Err(e)
                && e == Failure::NotFound(stadium_missing(id))),
        s.delete_match(id).1 is Ok ==>
            (s.delete_match(id).0.get_match(id) matches Err(e)
                && e == Failure::NotFound(match_missing(id))),
        s.delete_match(id).1 is Ok ==>
            (s.delete_match(id).0.delete_match(id).1 matches Err(e)
                && e == Failure::NotFound(match_missing(id))),
{
}

/// A delete is final: once a delete has succeeded, then whatever requests
/// follow, looking the identifier up and deleting it again both fail with
/// `NotFound`, because no identifier is issued twice.
pub proof fn law_deleted_stays_deleted(s: StateView, delete: Op, ops: Seq<Op>)
    requires
        s.wf(),
        delete.is_delete(),
        step(s, delete).1 == Reply::Deleted,
    ensures
        ({
            let id = delete.target()->0;
            let later = after(step(s, delete).0, ops);
            &&& step(later, delete.lookup(id)).1 matches Reply::Failed(Failure::NotFound(_))
            &&& step(later, delete).1 matches Reply::Failed(Failure::NotFound(_))
        }),
{
    law_issued_id_never_returns(step(s, delete).0, delete, delete.target()->0, ops);
}

/// Validation comes before any change: a create or an update whose payload
/// leaves a required field empty, or zero where a number is required, fails
/// with `EmptyFields` and leaves the state as it was, so that no identifier
/// is used up and no record written. For an update this is so whether or not
/// the identifier is in use.
pub proof fn law_refusal_changes_nothing(
    s: StateView,
    id: u64,
    team: TeamPayloadView,
    coach: CoachPayloadView,
    stadium: StadiumPayloadView,
    game: MatchPayloadView,
)
    ensures
        !team.valid() ==> s.add_team(team).0 == s && s.update_team(id, team).0 == s,
        !team.valid() ==>
            (s.add_team(team).1 matches Err(e) && e == Failure::EmptyFields(team_add_refused())),
        !team.valid() ==>
            (s.update_team(id, team).1 matches Err(e)
                && e == Failure::EmptyFields(team_update_refused())),
        !coach.valid() ==> s.add_coach(coach).0 == s && s.update_coach(id, coach).0 == s,
        !coach.valid() ==>
            (s.add_coach(coach).1 matches Err(e) && e == Failure::EmptyFields(coach_refused())),
        !coach.valid() ==>
            (s.update_coach(id, coach).1 matches Err(e)
                && e == Failure::EmptyFields(coach_refused())),
        !stadium.valid() ==> s.add_stadium(stadium).0 == s && s.update_stadium(id, stadium).0 == s,
        !stadium.valid() ==>
            (s.add_stadium(stadium).1 matches Err(e)
                && e == Failure::EmptyFields(stadium_refused())),
        !stadium.valid() ==>
            (s.update_stadium(id, stadium).1 matches Err(e)
                && e == Failure::EmptyFields(stadium_refused())),
        !game.valid() ==> s.add_match(game).0 == s && s.update_match(id, game).0 == s,
        !game.valid() ==>
            (s.add_match(game).1 matches Err(e) && e == Failure::EmptyFields(match_refused())),
        !game.valid() ==>
            (s.update_match(id, game).1 matches Err(e)
                && e == Failure::EmptyFields(match_refused())),
{
}

/// Every request that fails leaves the state as it was.
pub proof fn law_failure_changes_nothing(s: StateView, op: Op)
    ensures
        step(s, op).1 is Failed ==> step(s, op).0 == s,
{
}

/// A request changes no store but its own, and a lookup changes nothing: an
/// identifier in use in one store need not be in use in another.
pub proof fn law_stores_are_apart(s: StateView, op: Op)
    ensures
        !(op is AddTeam || op is UpdateTeam || op is DeleteTeam) ==> step(s, op).0.teams
            == s.teams,
        !(op is AddCoach || op is UpdateCoach || op is DeleteCoach) ==> step(s, op).0.coaches
            == s.coaches,
        !(op is AddStadium || op is UpdateStadium || op is DeleteStadium) ==> step(
            s,
            op,
        ).0.stadiums == s.stadiums,
        !(op is AddMatch || op is UpdateMatch || op is DeleteMatch) ==> step(s, op).0.matches
            == s.matches,
{
}

} // verus!
