use epl_backend::coach::CoachPayload;
use epl_backend::error::CustomError;
use epl_backend::fixture::MatchPayload;
use epl_backend::handlers::{
    add_coach, add_match, add_stadium, add_team, delete_coach, delete_team, get_coach, get_match,
    get_stadium, get_team, update_team,
};
use epl_backend::stadium::StadiumPayload;
use epl_backend::state::State;
use epl_backend::team::TeamPayload;

fn team() -> TeamPayload {
    TeamPayload { name: "t".to_string(), manager: "m".to_string(), stadium: "s".to_string() }
}

fn coach() -> CoachPayload {
    CoachPayload { name: "c".to_string(), team: "t".to_string() }
}

fn stadium() -> StadiumPayload {
    StadiumPayload { name: "s".to_string(), location: "l".to_string(), capacity: 5 }
}

fn game() -> MatchPayload {
    MatchPayload {
        home_team: "h".to_string(),
        away_team: "a".to_string(),
        venue: "v".to_string(),
        match_date: 7,
    }
}

#[test]
fn ids_are_one_sequence_across_kinds() {
    let mut state = State::new();
    assert_eq!(state.last_id(), 0);
    assert_eq!(add_team(&mut state, team()).unwrap().id, 1);
    assert_eq!(add_coach(&mut state, coach()).unwrap().id, 2);
    assert_eq!(add_stadium(&mut state, stadium()).unwrap().id, 3);
    assert_eq!(add_match(&mut state, game()).unwrap().id, 4);
    assert_eq!(add_team(&mut state, team()).unwrap().id, 5);
    assert_eq!(state.last_id(), 5);
    assert!(get_team(&state, 1).is_ok());
    assert!(get_team(&state, 2).is_err());
    assert!(get_coach(&state, 2).is_ok());
    assert!(get_coach(&state, 3).is_err());
    assert!(get_stadium(&state, 3).is_ok());
    assert!(get_stadium(&state, 4).is_err());
    assert!(get_match(&state, 4).is_ok());
    assert!(get_match(&state, 5).is_err());
    assert!(get_team(&state, 5).is_ok());
}

#[test]
fn ids_are_unique_and_increasing_under_any_mix() {
    let mut state = State::new();
    let mut issued: Vec<u64> = Vec::new();
    let mut round: u64 = 0;
    while round < 40 {
        let id = match round % 4 {
            0 => add_team(&mut state, team()).unwrap().id,
            1 => add_coach(&mut state, coach()).unwrap().id,
            2 => add_stadium(&mut state, stadium()).unwrap().id,
            _ => add_match(&mut state, game()).unwrap().id,
        };
        issued.push(id);
        if round % 3 == 0 {
            let _ = delete_team(&mut state, id);
            let _ = delete_coach(&mut state, id);
        }
        if round % 5 == 0 {
            assert!(add_team(&mut state, TeamPayload::default()).is_err());
            let _ = update_team(&mut state, id, team());
        }
        round += 1;
    }
    let mut i = 1;
    while i < issued.len() {
        assert!(issued[i - 1] < issued[i]);
        i += 1;
    }
    let expected: Vec<u64> = (1..=40).collect();
    assert_eq!(issued, expected);
}

#[test]
fn failed_requests_use_up_no_id() {
    let mut state = State::new();
    assert!(add_team(&mut state, TeamPayload::default()).is_err());
    assert!(add_coach(&mut state, CoachPayload::default()).is_err());
    assert!(add_stadium(&mut state, StadiumPayload::default()).is_err());
    assert!(add_match(&mut state, MatchPayload::default()).is_err());
    assert!(update_team(&mut state, 1, team()).is_err());
    assert!(delete_team(&mut state, 1).is_err());
    assert_eq!(state.last_id(), 0);
    assert_eq!(add_coach(&mut state, coach()).unwrap().id, 1);
}

#[test]
fn a_state_can_start_after_a_given_id() {
    let mut state = State::starting_after(41);
    assert_eq!(state.last_id(), 41);
    assert!(get_team(&state, 41).is_err());
    assert_eq!(add_team(&mut state, team()).unwrap().id, 42);
    assert_eq!(state.last_id(), 42);
}

#[test]
fn the_last_id_can_be_issued() {
    let mut state = State::starting_after(u64::MAX - 1);
    let last = add_team(&mut state, team()).unwrap();
    assert_eq!(last.id, u64::MAX);
    assert_eq!(get_team(&state, u64::MAX), Ok(last));
}

#[test]
fn an_exhausted_sequence_fails_the_create_and_changes_nothing() {
    let mut state = State::starting_after(u64::MAX);
    let exhausted =
        CustomError::StorageFailure("The identifier sequence is exhausted".to_string());
    assert_eq!(add_team(&mut state, team()), Err(exhausted.clone()));
    assert_eq!(add_coach(&mut state, coach()), Err(exhausted.clone()));
    assert_eq!(add_stadium(&mut state, stadium()), Err(exhausted.clone()));
    assert_eq!(add_match(&mut state, game()), Err(exhausted));
    assert_eq!(state.last_id(), u64::MAX);
    assert!(get_team(&state, u64::MAX).is_err());
    assert!(get_team(&state, 0).is_err());
    assert_eq!(
        add_team(&mut state, TeamPayload::default()),
        Err(CustomError::EmptyFields(
            "Please fill in all the required fields to add a team".to_string()
        ))
    );
}
