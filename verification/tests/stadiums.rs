use epl_backend::error::CustomError;
use epl_backend::handlers::{add_stadium, delete_stadium, get_stadium, update_stadium};
use epl_backend::stadium::{Stadium, StadiumPayload};
use epl_backend::state::State;

fn payload(name: &str, location: &str, capacity: u32) -> StadiumPayload {
    StadiumPayload { name: name.to_string(), location: location.to_string(), capacity }
}

#[test]
fn add_stadium_returns_the_record_under_the_first_id() {
    let mut state = State::new();
    let stadium = add_stadium(&mut state, payload("Old Trafford", "Manchester", 74000)).unwrap();
    assert_eq!(
        stadium,
        Stadium {
            id: 1,
            name: "Old Trafford".to_string(),
            location: "Manchester".to_string(),
            capacity: 74000,
        }
    );
    assert_eq!(get_stadium(&state, 1), Ok(stadium));
}

#[test]
fn add_stadium_with_empty_name_creates_nothing() {
    let mut state = State::new();
    assert_eq!(
        add_stadium(&mut state, payload("", "London", 60000)),
        Err(CustomError::EmptyFields("Please fill in all the required fields".to_string()))
    );
    assert_eq!(state.last_id(), 0);
    let mut id: u64 = 0;
    while id < 5 {
        assert_eq!(
            get_stadium(&state, id),
            Err(CustomError::NotFound(format!("Stadium with ID {} not found", id)))
        );
        id += 1;
    }
}

#[test]
fn add_stadium_turns_down_each_missing_field() {
    let mut state = State::new();
    let refused =
        Err(CustomError::EmptyFields("Please fill in all the required fields".to_string()));
    assert_eq!(add_stadium(&mut state, payload("Emirates", "", 60000)), refused);
    assert_eq!(add_stadium(&mut state, payload("Emirates", "London", 0)), refused);
    assert_eq!(add_stadium(&mut state, StadiumPayload::default()), refused);
    assert_eq!(state.last_id(), 0);
}

#[test]
fn update_stadium_with_zero_capacity_keeps_the_record() {
    let mut state = State::new();
    let stadium = add_stadium(&mut state, payload("Old Trafford", "Manchester", 74000)).unwrap();
    let n = stadium.id;
    assert_eq!(
        update_stadium(&mut state, n, payload("Old Trafford", "Manchester", 0)),
        Err(CustomError::EmptyFields("Please fill in all the required fields".to_string()))
    );
    assert_eq!(
        get_stadium(&state, n),
        Ok(Stadium {
            id: n,
            name: "Old Trafford".to_string(),
            location: "Manchester".to_string(),
            capacity: 74000,
        })
    );
}

#[test]
fn update_stadium_replaces_every_field_but_the_id() {
    let mut state = State::new();
    let stadium = add_stadium(&mut state, payload("Old Trafford", "Manchester", 74000)).unwrap();
    let updated = update_stadium(&mut state, stadium.id, payload("New Trafford", "Salford", 100000));
    let expected = Stadium {
        id: 1,
        name: "New Trafford".to_string(),
        location: "Salford".to_string(),
        capacity: 100000,
    };
    assert_eq!(updated, Ok(expected.clone()));
    assert_eq!(get_stadium(&state, 1), Ok(expected));
    assert_eq!(
        update_stadium(&mut state, 2, payload("a", "b", 1)),
        Err(CustomError::NotFound("Stadium with ID 2 not found".to_string()))
    );
}

#[test]
fn stadium_capacity_limits_are_stored_exactly() {
    let mut state = State::new();
    let small = add_stadium(&mut state, payload("a", "b", 1)).unwrap();
    let large = add_stadium(&mut state, payload("c", "d", u32::MAX)).unwrap();
    assert_eq!(get_stadium(&state, small.id).unwrap().capacity, 1);
    assert_eq!(get_stadium(&state, large.id).unwrap().capacity, u32::MAX);
}

#[test]
fn delete_stadium_is_terminal() {
    let mut state = State::new();
    let stadium = add_stadium(&mut state, payload("Anfield", "Liverpool", 61000)).unwrap();
    assert_eq!(delete_stadium(&mut state, stadium.id), Ok(()));
    assert_eq!(
        get_stadium(&state, stadium.id),
        Err(CustomError::NotFound("Stadium with ID 1 not found".to_string()))
    );
    assert_eq!(
        delete_stadium(&mut state, stadium.id),
        Err(CustomError::NotFound("Stadium with ID 1 not found".to_string()))
    );
}

#[test]
fn stadium_defaults_are_empty() {
    assert_eq!(
        Stadium::default(),
        Stadium { id: 0, name: String::new(), location: String::new(), capacity: 0 }
    );
    assert_eq!(
        StadiumPayload::default(),
        StadiumPayload { name: String::new(), location: String::new(), capacity: 0 }
    );
    assert!(!StadiumPayload::default().is_valid());
    assert!(payload("a", "b", 1).is_valid());
    assert!(payload("a", "b", 1).fits());
    let stadium = Stadium { id: 3, name: "a".to_string(), location: "b".to_string(), capacity: 9 };
    assert_eq!(stadium.clone(), stadium);
}
