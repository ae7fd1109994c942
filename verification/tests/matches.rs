use epl_backend::error::CustomError;
use epl_backend::fixture::{Match, MatchPayload};
use epl_backend::handlers::{add_match, delete_match, get_match, update_match};
use epl_backend::state::State;

fn payload(home: &str, away: &str, venue: &str, date: u64) -> MatchPayload {
    MatchPayload {
        home_team: home.to_string(),
        away_team: away.to_string(),
        venue: venue.to_string(),
        match_date: date,
    }
}

#[test]
fn add_match_returns_the_record_under_the_first_id() {
    let mut state = State::new();
    let game = add_match(&mut state, payload("Arsenal", "Chelsea", "Emirates", 1_700_000_000));
    let expected = Match {
        id: 1,
        home_team: "Arsenal".to_string(),
        away_team: "Chelsea".to_string(),
        venue: "Emirates".to_string(),
        match_date: 1_700_000_000,
    };
    assert_eq!(game, Ok(expected.clone()));
    assert_eq!(get_match(&state, 1), Ok(expected));
}

#[test]
fn add_match_turns_down_each_empty_text_and_takes_any_date() {
    let mut state = State::new();
    let refused =
        Err(CustomError::EmptyFields("Please fill in all the required fields".to_string()));
    assert_eq!(add_match(&mut state, payload("", "b", "c", 1)), refused);
    assert_eq!(add_match(&mut state, payload("a", "", "c", 1)), refused);
    assert_eq!(add_match(&mut state, payload("a", "b", "", 1)), refused);
    assert_eq!(add_match(&mut state, MatchPayload::default()), refused);
    assert_eq!(state.last_id(), 0);
    assert_eq!(add_match(&mut state, payload("a", "b", "c", 0)).unwrap().match_date, 0);
    let late = add_match(&mut state, payload("a", "b", "c", u64::MAX)).unwrap();
    assert_eq!(get_match(&state, late.id).unwrap().match_date, u64::MAX);
}

#[test]
fn update_match_replaces_every_field_but_the_id() {
    let mut state = State::new();
    let game = add_match(&mut state, payload("a", "b", "c", 1)).unwrap();
    let updated = update_match(&mut state, game.id, payload("d", "e", "f", 2));
    let expected = Match {
        id: 1,
        home_team: "d".to_string(),
        away_team: "e".to_string(),
        venue: "f".to_string(),
        match_date: 2,
    };
    assert_eq!(updated, Ok(expected.clone()));
    assert_eq!(get_match(&state, 1), Ok(expected));
    assert_eq!(
        update_match(&mut state, 1, payload("", "e", "f", 2)),
        Err(CustomError::EmptyFields("Please fill in all the required fields".to_string()))
    );
    assert_eq!(
        update_match(&mut state, 5, payload("d", "e", "f", 2)),
        Err(CustomError::NotFound("Match with ID 5 not found".to_string()))
    );
}

#[test]
fn delete_match_is_terminal() {
    let mut state = State::new();
    let game = add_match(&mut state, payload("a", "b", "c", 1)).unwrap();
    assert_eq!(delete_match(&mut state, game.id), Ok(()));
    assert_eq!(
        get_match(&state, game.id),
        Err(CustomError::NotFound("Match with ID 1 not found".to_string()))
    );
    assert_eq!(
        delete_match(&mut state, game.id),
        Err(CustomError::NotFound("Match with ID 1 not found".to_string()))
    );
}

#[test]
fn match_defaults_are_empty() {
    assert_eq!(
        Match::default(),
        Match {
            id: 0,
            home_team: String::new(),
            away_team: String::new(),
            venue: String::new(),
            match_date: 0,
        }
    );
    assert!(!MatchPayload::default().is_valid());
    assert!(payload("a", "b", "c", 0).is_valid());
    assert!(payload("a", "b", "c", 0).fits());
    let game = payload("a", "b", "c", 4);
    assert_eq!(game.clone(), game);
}
