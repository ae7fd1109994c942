use epl_backend::error::CustomError;
use epl_backend::handlers::{add_coach, add_team, delete_team, get_coach, get_team, update_team};
use epl_backend::state::State;
use epl_backend::team::{Team, TeamPayload};

fn payload(name: &str, manager: &str, stadium: &str) -> TeamPayload {
    TeamPayload {
        name: name.to_string(),
        manager: manager.to_string(),
        stadium: stadium.to_string(),
    }
}

fn arsenal() -> TeamPayload {
    payload("Arsenal", "Arteta", "Emirates")
}

#[test]
fn add_team_returns_the_record_under_the_first_id() {
    let mut state = State::new();
    let team = add_team(&mut state, arsenal()).unwrap();
    assert_eq!(
        team,
        Team {
            id: 1,
            name: "Arsenal".to_string(),
            manager: "Arteta".to_string(),
            stadium: "Emirates".to_string(),
        }
    );
}

#[test]
fn get_team_returns_what_add_team_returned() {
    let mut state = State::new();
    let first = add_team(&mut state, arsenal()).unwrap();
    let second = add_team(&mut state, payload("Chelsea", "Maresca", "Stamford Bridge")).unwrap();
    assert_eq!(get_team(&state, first.id), Ok(first));
    assert_eq!(get_team(&state, second.id), Ok(second));
}

#[test]
fn team_id_is_not_a_coach_id() {
    let mut state = State::new();
    let team = add_team(&mut state, arsenal()).unwrap();
    assert_eq!(team.id, 1);
    assert_eq!(
        get_coach(&state, 1),
        Err(CustomError::NotFound("Coach with ID 1 cannot be found".to_string()))
    );
}

#[test]
fn get_team_names_the_missing_id() {
    let state = State::new();
    assert_eq!(
        get_team(&state, 42),
        Err(CustomError::NotFound("Team with ID 42 cannot be found".to_string()))
    );
    assert_eq!(
        get_team(&state, 0),
        Err(CustomError::NotFound("Team with ID 0 cannot be found".to_string()))
    );
    assert_eq!(
        get_team(&state, u64::MAX),
        Err(CustomError::NotFound(
            "Team with ID 18446744073709551615 cannot be found".to_string()
        ))
    );
}

#[test]
fn add_team_turns_down_each_empty_field() {
    let mut state = State::new();
    let refused = Err(CustomError::EmptyFields(
        "Please fill in all the required fields to add a team".to_string(),
    ));
    assert_eq!(add_team(&mut state, payload("", "Arteta", "Emirates")), refused);
    assert_eq!(add_team(&mut state, payload("Arsenal", "", "Emirates")), refused);
    assert_eq!(add_team(&mut state, payload("Arsenal", "Arteta", "")), refused);
    assert_eq!(add_team(&mut state, TeamPayload::default()), refused);
    assert_eq!(state.last_id(), 0);
    assert!(get_team(&state, 1).is_err());
    assert_eq!(add_team(&mut state, arsenal()).unwrap().id, 1);
}

#[test]
fn update_team_replaces_every_field_but_the_id() {
    let mut state = State::new();
    let team = add_team(&mut state, arsenal()).unwrap();
    let updated = update_team(&mut state, team.id, payload("Arsenal FC", "Wenger", "Highbury"));
    let expected = Team {
        id: 1,
        name: "Arsenal FC".to_string(),
        manager: "Wenger".to_string(),
        stadium: "Highbury".to_string(),
    };
    assert_eq!(updated, Ok(expected.clone()));
    assert_eq!(get_team(&state, 1), Ok(expected));
    assert_eq!(state.last_id(), 1);
}

#[test]
fn update_team_judges_the_payload_before_the_id() {
    let mut state = State::new();
    let team = add_team(&mut state, arsenal()).unwrap();
    let refused = Err(CustomError::EmptyFields(
        "You must fill all of the required fields".to_string(),
    ));
    assert_eq!(update_team(&mut state, 99, payload("", "x", "y")), refused);
    assert_eq!(update_team(&mut state, team.id, payload("x", "", "y")), refused);
    assert_eq!(get_team(&state, team.id), Ok(team));
    assert_eq!(
        update_team(&mut state, 99, arsenal()),
        Err(CustomError::NotFound("Team with ID 99 not found".to_string()))
    );
    assert!(get_team(&state, 99).is_err());
}

#[test]
fn delete_team_is_terminal() {
    let mut state = State::new();
    let team = add_team(&mut state, arsenal()).unwrap();
    let other = add_team(&mut state, payload("Chelsea", "Maresca", "Stamford Bridge")).unwrap();
    assert_eq!(delete_team(&mut state, team.id), Ok(()));
    assert_eq!(
        get_team(&state, team.id),
        Err(CustomError::NotFound("Team with ID 1 cannot be found".to_string()))
    );
    assert_eq!(
        delete_team(&mut state, team.id),
        Err(CustomError::NotFound("Team with ID 1 not found".to_string()))
    );
    assert_eq!(
        update_team(&mut state, team.id, arsenal()),
        Err(CustomError::NotFound("Team with ID 1 not found".to_string()))
    );
    assert_eq!(get_team(&state, other.id), Ok(other));
}

#[test]
fn deleted_team_id_is_not_issued_again() {
    let mut state = State::new();
    let team = add_team(&mut state, arsenal()).unwrap();
    assert_eq!(delete_team(&mut state, team.id), Ok(()));
    let again = add_team(&mut state, arsenal()).unwrap();
    assert_eq!(again.id, 2);
    assert!(get_team(&state, 1).is_err());
    let coach = add_coach(
        &mut state,
        epl_backend::coach::CoachPayload { name: "Arteta".to_string(), team: "Arsenal".to_string() },
    )
    .unwrap();
    assert_eq!(coach.id, 3);
}

#[test]
fn teams_may_share_a_name() {
    let mut state = State::new();
    let a = add_team(&mut state, arsenal()).unwrap();
    let b = add_team(&mut state, arsenal()).unwrap();
    assert_ne!(a.id, b.id);
    assert_eq!(a.name, b.name);
    assert_eq!(get_team(&state, a.id), Ok(a));
    assert_eq!(get_team(&state, b.id), Ok(b));
}

#[test]
fn team_text_survives_storage_unchanged() {
    let mut state = State::new();
    let long = "x".repeat(70_000);
    let p = payload("Bayern München ⚽", &long, " ");
    let team = add_team(&mut state, p.clone()).unwrap();
    assert_eq!(team.name, "Bayern München ⚽");
    assert_eq!(team.manager.len(), 70_000);
    assert_eq!(team.stadium, " ");
    assert_eq!(get_team(&state, team.id), Ok(team));
}

#[test]
fn many_teams_are_kept_apart() {
    let mut state = State::new();
    let mut i: u64 = 1;
    while i <= 300 {
        let team = add_team(&mut state, payload(&format!("Team {}", i), "m", "s")).unwrap();
        assert_eq!(team.id, i);
        i += 1;
    }
    let mut i: u64 = 2;
    while i <= 300 {
        assert_eq!(delete_team(&mut state, i), Ok(()));
        i += 2;
    }
    let mut i: u64 = 1;
    while i <= 300 {
        let found = get_team(&state, i);
        if i % 2 == 1 {
            assert_eq!(found.unwrap().name, format!("Team {}", i));
        } else {
            assert!(matches!(found, Err(CustomError::NotFound(_))));
        }
        i += 1;
    }
}

#[test]
fn two_states_share_nothing() {
    let mut one = State::new();
    let mut two = State::new();
    let a = add_team(&mut one, arsenal()).unwrap();
    assert!(get_team(&two, a.id).is_err());
    let b = add_team(&mut two, payload("Chelsea", "Maresca", "Stamford Bridge")).unwrap();
    assert_eq!(b.id, 1);
    assert_eq!(get_team(&one, 1), Ok(a));
    assert_eq!(get_team(&two, 1), Ok(b));
}

#[test]
fn team_defaults_are_empty() {
    assert_eq!(
        Team::default(),
        Team { id: 0, name: String::new(), manager: String::new(), stadium: String::new() }
    );
    assert_eq!(
        TeamPayload::default(),
        TeamPayload { name: String::new(), manager: String::new(), stadium: String::new() }
    );
    assert!(!TeamPayload::default().is_valid());
    assert!(arsenal().is_valid());
    assert!(arsenal().fits());
    assert_eq!(arsenal().clone(), arsenal());
}
