use watchlist::catchers::internal_server_error;
use watchlist::error::{LookupError, StoreError};
use watchlist::error_status::{db, omdb};
use watchlist::movie::{Movie, MovieMetadata};
use watchlist::workflow::{add_step, respond, AddAction, AddEvent, AddState};

fn shawshank() -> MovieMetadata {
    MovieMetadata::new("tt0111161", "The Shawshank Redemption", "1994", "Drama")
}

#[test]
fn respond_passes_a_value_through() {
    let r: Result<u32, _> = respond(Ok(7));
    assert_eq!(r, Ok(7));
}

#[test]
fn respond_maps_each_store_failure() {
    let not_found: Result<u32, _> = respond(Err(StoreError::NotFound));
    assert_eq!(not_found, Err(db(StoreError::NotFound)));
    let conflict: Result<u32, _> = respond(Err(StoreError::Conflict));
    assert_eq!(conflict.unwrap_err().status, 409);
    let unavailable: Result<u32, _> = respond(Err(StoreError::Unavailable));
    assert_eq!(unavailable.unwrap_err().status, 500);
    let unclassified: Result<u32, _> = respond(Err(StoreError::Unclassified));
    assert_eq!(unclassified.unwrap_err().status, 500);
}

#[test]
fn a_movie_from_the_provider_goes_to_the_store() {
    let (state, action) = add_step(AddState::AwaitingLookup, AddEvent::LookedUp(Ok(shawshank())));
    assert_eq!(state, AddState::AwaitingInsert);
    assert_eq!(action, AddAction::Insert(shawshank()));
}

#[test]
fn a_failed_lookup_is_answered_without_an_insertion() {
    for e in [LookupError::NotFound, LookupError::Unreachable, LookupError::Malformed] {
        let (state, action) = add_step(AddState::AwaitingLookup, AddEvent::LookedUp(Err(e)));
        assert_eq!(state, AddState::Done);
        assert_eq!(action, AddAction::Respond(Err(omdb(e))));
    }
}

#[test]
fn an_unknown_movie_is_answered_with_404() {
    let (_, action) =
        add_step(AddState::AwaitingLookup, AddEvent::LookedUp(Err(LookupError::NotFound)));
    match action {
        AddAction::Respond(Err(e)) => assert_eq!(e.status, 404),
        other => panic!("no insertion may follow a failed lookup: {:?}", other),
    }
}

#[test]
fn the_stored_movie_is_the_answer() {
    let stored = Movie::from_metadata(shawshank());
    let (state, action) =
        add_step(AddState::AwaitingInsert, AddEvent::Inserted(Ok(stored.clone())));
    assert_eq!(state, AddState::Done);
    assert_eq!(action, AddAction::Respond(Ok(stored)));
}

#[test]
fn a_failed_insertion_is_answered_with_the_store_failure() {
    for e in [
        StoreError::NotFound,
        StoreError::Conflict,
        StoreError::Unavailable,
        StoreError::Unclassified,
    ] {
        let (state, action) = add_step(AddState::AwaitingInsert, AddEvent::Inserted(Err(e)));
        assert_eq!(state, AddState::Done);
        assert_eq!(action, AddAction::Respond(Err(db(e))));
    }
}

#[test]
fn an_event_out_of_turn_is_an_internal_failure() {
    let stored = Movie::from_metadata(shawshank());
    let (state, action) =
        add_step(AddState::AwaitingLookup, AddEvent::Inserted(Ok(stored.clone())));
    assert_eq!(state, AddState::Done);
    assert_eq!(action, AddAction::Respond(Err(internal_server_error())));

    let (state, action) = add_step(AddState::AwaitingInsert, AddEvent::LookedUp(Ok(shawshank())));
    assert_eq!(state, AddState::Done);
    assert_eq!(action, AddAction::Respond(Err(internal_server_error())));
}

#[test]
fn a_finished_request_stays_finished() {
    let stored = Movie::from_metadata(shawshank());
    let (state, action) = add_step(AddState::Done, AddEvent::LookedUp(Ok(shawshank())));
    assert_eq!(state, AddState::Done);
    assert_eq!(action, AddAction::Respond(Err(internal_server_error())));
    let (state, action) = add_step(AddState::Done, AddEvent::Inserted(Ok(stored)));
    assert_eq!(state, AddState::Done);
    assert_eq!(action, AddAction::Respond(Err(internal_server_error())));
}

#[test]
fn a_request_driven_by_hand_takes_two_steps() {
    let (state, action) = add_step(AddState::AwaitingLookup, AddEvent::LookedUp(Ok(shawshank())));
    let metadata = match action {
        AddAction::Insert(metadata) => metadata,
        other => panic!("expected an insertion, got {:?}", other),
    };
    let stored = Movie::from_metadata(metadata);
    let (state, action) = add_step(state, AddEvent::Inserted(Ok(stored)));
    assert_eq!(state, AddState::Done);
    match action {
        AddAction::Respond(Ok(movie)) => {
            assert_eq!(movie.id, "tt0111161");
            assert_eq!(movie.title, "The Shawshank Redemption");
            assert_eq!(movie.year, "1994");
            assert_eq!(movie.genre, "Drama");
        }
        other => panic!("expected the stored movie, got {:?}", other),
    }
}
