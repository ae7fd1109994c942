//! The operations on records: create, look up, update and delete, for each
//! kind of record.
//!
//! Every operation is specified by the function of the same name on
//! [`crate::model::StateView`]: the state afterwards and the value returned
//! are exactly what that function gives for the state before.

use crate::coach::{Coach, CoachPayload};
use crate::error::{exhausted_error, outcome, too_large_error, CustomError};
use crate::fixture::{Match, MatchPayload};
use crate::stadium::{Stadium, StadiumPayload};
use crate::state::State;
use crate::team::{Team, TeamPayload};
use crate::text::make_sentence;
use vstd::prelude::*;

verus! {

/// Creates a team from the payload under the next identifier and returns
/// it.
///
/// A payload with a required field left empty is turned down before anything
/// is changed. The identifier is recorded before the team is stored.
pub fn add_team(state: &mut State, payload: TeamPayload) -> (r: Result<Team, CustomError>)
    requires
        old(state).wf(),
    ensures
        final(state).wf(),
        final(state)@ == old(state)@.add_team(payload@).0,
        outcome(r) == old(state)@.add_team(payload@).1,
{
    if !payload.is_valid() {
        return Err(
            CustomError::EmptyFields(
                String::from_str("Please fill in all the required fields to add a team"),
            ),
        );
    }
    if !payload.fits() {
        return Err(too_large_error());
    }
    let id: u64 = match state.counter.next_id() {
        Some(id) => id,
        None => {
            return Err(exhausted_error());
        },
    };
    let team = payload.into_team(id);
    let _ = state.teams.insert(id, team.clone());
    Ok(team)
}

/// Returns the team stored under `id`.
pub fn get_team(state: &State, id: u64) -> (r: Result<Team, CustomError>)
    requires
        state.wf(),
    ensures
        outcome(r) == state@.get_team(id),
{
    match state.teams.get(id) {
        Some(team) => Ok(team),
        None => Err(CustomError::NotFound(make_sentence("Team", id, " cannot be found"))),
    }
}

/// Replaces every field of the team stored under `id`, but for the
/// identifier, by the payload's, and returns the team as it is now.
///
/// The payload is judged first, whether or not the team exists.
pub fn update_team(state: &mut State, id: u64, payload: TeamPayload) -> (r: Result<
    Team,
    CustomError,
>)
    requires
        old(state).wf(),
    ensures
        final(state).wf(),
        final(state)@ == old(state)@.update_team(id, payload@).0,
        outcome(r) == old(state)@.update_team(id, payload@).1,
{
    if !payload.is_valid() {
        return Err(
            CustomError::EmptyFields(String::from_str("You must fill all of the required fields")),
        );
    }
    let existing = match state.teams.get(id) {
        Some(team) => team,
        None => {
            return Err(CustomError::NotFound(make_sentence("Team", id, " not found")));
        },
    };
    if !payload.fits() {
        return Err(too_large_error());
    }
    let team = payload.into_team(existing.id);
    let _ = state.teams.insert(id, team.clone());
    Ok(team)
}

/// Removes the team stored under `id`.
pub fn delete_team(state: &mut State, id: u64) -> (r: Result<(), CustomError>)
    requires
        old(state).wf(),
    ensures
        final(state).wf(),
        final(state)@ == old(state)@.delete_team(id).0,
        outcome(r) == old(state)@.delete_team(id).1,
{
    match state.teams.remove(id) {
        Some(_) => Ok(()),
        None => {
            assert(state@.teams =~= old(state)@.teams);
            Err(CustomError::NotFound(make_sentence("Team", id, " not found")))
        },
    }
}

/// Creates a coach from the payload under the next identifier and returns
/// it.
///
/// A payload with a required field left empty is turned down before anything
/// is changed. The identifier is recorded before the coach is stored.
pub fn add_coach(state: &mut State, payload: CoachPayload) -> (r: Result<Coach, CustomError>)
    requires
        old(state).wf(),
    ensures
        final(state).wf(),
        final(state)@ == old(state)@.add_coach(payload@).0,
        outcome(r) == old(state)@.add_coach(payload@).1,
{
    if !payload.is_valid() {
        return Err(
            CustomError::EmptyFields(String::from_str("You must fill in all the required fields")),
        );
    }
    if !payload.fits() {
        return Err(too_large_error());
    }
    let id: u64 = match state.counter.next_id() {
        Some(id) => id,
        None => {
            return Err(exhausted_error());
        },
    };
    let coach = payload.into_coach(id);
    let _ = state.coaches.insert(id, coach.clone());
    Ok(coach)
}

/// Returns the coach stored under `id`.
pub fn get_coach(state: &State, id: u64) -> (r: Result<Coach, CustomError>)
    requires
        state.wf(),
    ensures
        outcome(r) == state@.get_coach(id),
{
    match state.coaches.get(id) {
        Some(coach) => Ok(coach),
        None => Err(CustomError::NotFound(make_sentence("Coach", id, " cannot be found"))),
    }
}

/// Replaces every field of the coach stored under `id`, but for the
/// identifier, by the payload's, and returns the coach as it is now.
///
/// The payload is judged first, whether or not the coach exists.
pub fn update_coach(state: &mut State, id: u64, payload: CoachPayload) -> (r: Result<
    Coach,
    CustomError,
>)
    requires
        old(state).wf(),
    ensures
        final(state).wf(),
        final(state)@ == old(state)@.update_coach(id, payload@).0,
        outcome(r) == old(state)@.update_coach(id, payload@).1,
{
    if !payload.is_valid() {
        return Err(
            CustomError::EmptyFields(String::from_str("You must fill in all the required fields")),
        );
    }
    let existing = match state.coaches.get(id) {
        Some(coach) => coach,
        None => {
            return Err(CustomError::NotFound(make_sentence("Coach", id, " not found")));
        },
    };
    if !payload.fits() {
        return Err(too_large_error());
    }
    let coach = payload.into_coach(existing.id);
    let _ = state.coaches.insert(id, coach.clone());
    Ok(coach)
}

/// Removes the coach stored under `id`.
pub fn delete_coach(state: &mut State, id: u64) -> (r: Result<(), CustomError>)
    requires
        old(state).wf(),
    ensures
        final(state).wf(),
        final(state)@ == old(state)@.delete_coach(id).0,
        outcome(r) == old(state)@.delete_coach(id).1,
{
    match state.coaches.remove(id) {
        Some(_) => Ok(()),
        None => {
            assert(state@.coaches =~= old(state)@.coaches);
            Err(CustomError::NotFound(make_sentence("Coach", id, " not found")))
        },
    }
}

/// Creates a stadium from the payload under the next identifier and returns
/// it.
///
/// A payload with a required field left empty is turned down before anything
/// is changed. The identifier is recorded before the stadium is stored.
pub fn add_stadium(state: &mut State, payload: StadiumPayload) -> (r: Result<Stadium, CustomError>)
    requires
        old(state).wf(),
    ensures
        final(state).wf(),
        final(state)@ == old(state)@.add_stadium(payload@).0,
        outcome(r) == old(state)@.add_stadium(payload@).1,
{
    if !payload.is_valid() {
        return Err(
            CustomError::EmptyFields(String::from_str("Please fill in all the required fields")),
        );
    }
    if !payload.fits() {
        return Err(too_large_error());
    }
    let id: u64 = match state.counter.next_id() {
        Some(id) => id,
        None => {
            return Err(exhausted_error());
        },
    };
    let stadium = payload.into_stadium(id);
    let _ = state.stadiums.insert(id, stadium.clone());
    Ok(stadium)
}

/// Returns the stadium stored under `id`.
pub fn get_stadium(state: &State, id: u64) -> (r: Result<Stadium, CustomError>)
    requires
        state.wf(),
    ensures
        outcome(r) == state@.get_stadium(id),
{
    match state.stadiums.get(id) {
        Some(stadium) => Ok(stadium),
        None => Err(CustomError::NotFound(make_sentence("Stadium", id, " not found"))),
    }
}

/// Replaces every field of the stadium stored under `id`, but for the
/// identifier, by the payload's, and returns the stadium as it is now.
///
/// The payload is judged first, whether or not the stadium exists.
pub fn update_stadium(state: &mut State, id: u64, payload: StadiumPayload) -> (r: Result<
    Stadium,
    CustomError,
>)
    requires
        old(state).wf(),
    ensures
        final(state).wf(),
        final(state)@ == old(state)@.update_stadium(id, payload@).0,
        outcome(r) == old(state)@.update_stadium(id, payload@).1,
{
    if !payload.is_valid() {
        return Err(
            CustomError::EmptyFields(String::from_str("Please fill in all the required fields")),
        );
    }
    let existing = match state.stadiums.get(id) {
        Some(stadium) => stadium,
        None => {
            return Err(CustomError::NotFound(make_sentence("Stadium", id, " not found")));
        },
    };
    if !payload.fits() {
        return Err(too_large_error());
    }
    let stadium = payload.into_stadium(existing.id);
    let _ = state.stadiums.insert(id, stadium.clone());
    Ok(stadium)
}

/// Removes the stadium stored under `id`.
pub fn delete_stadium(state: &mut State, id: u64) -> (r: Result<(), CustomError>)
    requires
        old(state).wf(),
    ensures
        final(state).wf(),
        final(state)@ == old(state)@.delete_stadium(id).0,
        outcome(r) == old(state)@.delete_stadium(id).1,
{
    match state.stadiums.remove(id) {
        Some(_) => Ok(()),
        None => {
            assert(state@.stadiums =~= old(state)@.stadiums);
            Err(CustomError::NotFound(make_sentence("Stadium", id, " not found")))
        },
    }
}

/// Creates a match from the payload under the next identifier and returns
/// it.
///
/// A payload with a required field left empty is turned down before anything
/// is changed. The identifier is recorded before the match is stored.
pub fn add_match(state: &mut State, payload: MatchPayload) -> (r: Result<Match, CustomError>)
    requires
        old(state).wf(),
    ensures
        final(state).wf(),
        final(state)@ == old(state)@.add_match(payload@).0,
        outcome(r) == old(state)@.add_match(payload@).1,
{
    if !payload.is_valid() {
        return Err(
            CustomError::EmptyFields(String::from_str("Please fill in all the required fields")),
        );
    }
    if !payload.fits() {
        return Err(too_large_error());
    }
    let id: u64 = match state.counter.next_id() {
        Some(id) => id,
        None => {
            return Err(exhausted_error());
        },
    };
    let game = payload.into_match(id);
    let _ = state.matches.insert(id, game.clone());
    Ok(game)
}

/// Returns the match stored under `id`.
pub fn get_match(state: &State, id: u64) -> (r: Result<Match, CustomError>)
    requires
        state.wf(),
    ensures
        outcome(r) == state@.get_match(id),
{
    match state.matches.get(id) {
        Some(game) => Ok(game),
        None => Err(CustomError::NotFound(make_sentence("Match", id, " not found"))),
    }
}

/// Replaces every field of the match stored under `id`, but for the
/// identifier, by the payload's, and returns the match as it is now.
///
/// The payload is judged first, whether or not the match exists.
pub fn update_match(state: &mut State, id: u64, payload: MatchPayload) -> (r: Result<
    Match,
    CustomError,
>)
    requires
        old(state).wf(),
    ensures
        final(state).wf(),
        final(state)@ == old(state)@.update_match(id, payload@).0,
        outcome(r) == old(state)@.update_match(id, payload@).1,
{
    if !payload.is_valid() {
        return Err(
            CustomError::EmptyFields(String::from_str("Please fill in all the required fields")),
        );
    }
    let existing = match state.matches.get(id) {
        Some(game) => game,
        None => {
            return Err(CustomError::NotFound(make_sentence("Match", id, " not found")));
        },
    };
    if !payload.fits() {
        return Err(too_large_error());
    }
    let game = payload.into_match(existing.id);
    let _ = state.matches.insert(id, game.clone());
    Ok(game)
}

/// Removes the match stored under `id`.
pub fn delete_match(state: &mut State, id: u64) -> (r: Result<(), CustomError>)
    requires
        old(state).wf(),
    ensures
        final(state).wf(),
        final(state)@ == old(state)@.delete_match(id).0,
        outcome(r) == old(state)@.delete_match(id).1,
{
    match state.matches.remove(id) {
        Some(_) => Ok(()),
        None => {
            assert(state@.matches =~= old(state)@.matches);
            Err(CustomError::NotFound(make_sentence("Match", id, " not found")))
        },
    }
}

} // verus!
