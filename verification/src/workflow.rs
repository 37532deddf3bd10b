//! The decisions of the watchlist operations, apart from the calls that they
//! wait for.
//!
//! Reading and deleting wait for the store once and answer with what it
//! returned ([`respond`]). Adding a movie waits twice, for the provider and
//! then for the store, and decides in between: [`add_step`] takes the state of
//! one such request and what has just come back, and says what to do next. A
//! driver starts in [`AddState::AwaitingLookup`], makes the lookup, and from
//! then on does what each step asks until it is told to respond.

use crate::catchers::{internal_server_error, internal_server_error_view};
use crate::error::{seen, ErrorResponse, ErrorResponseView, LookupError, StoreError};
use crate::error_status::{db, db_view, omdb, omdb_view};
use crate::movie::{one, Movie, MovieData, MovieMetadata};
use vstd::prelude::*;

verus! {

/// Where a request to add a movie stands.
#[derive(Clone, Copy, Debug, PartialEq, Eq, Structural)]
pub enum AddState {
    /// The provider has been asked, or is about to be.
    AwaitingLookup,
    /// The provider has answered with a movie, and the store has been asked
    /// to keep it.
    AwaitingInsert,
    /// The request has been answered.
    Done,
}

/// What came back to a request to add a movie.
#[derive(Debug, PartialEq, Eq)]
pub enum AddEvent {
    /// The provider's answer to the lookup.
    LookedUp(Result<MovieMetadata, LookupError>),
    /// The store's answer to the insertion.
    Inserted(Result<Movie, StoreError>),
}

/// What a request to add a movie does next.
#[derive(Debug, PartialEq, Eq)]
pub enum AddAction {
    /// Ask the store to keep this movie.
    Insert(MovieMetadata),
    /// Answer the client.
    Respond(Result<Movie, ErrorResponse>),
}

/// The content of an [`AddEvent`].
pub ghost enum AddEventView {
    LookedUp(Result<MovieData, LookupError>),
    Inserted(Result<MovieData, StoreError>),
}

/// The content of an [`AddAction`].
pub ghost enum AddActionView {
    Insert(MovieData),
    Respond(Result<MovieData, ErrorResponseView>),
}

impl View for AddEvent {
    type V = AddEventView;

    open spec fn view(&self) -> AddEventView {
        match *self {
            AddEvent::LookedUp(answer) => AddEventView::LookedUp(one(answer)),
            AddEvent::Inserted(outcome) => AddEventView::Inserted(one(outcome)),
        }
    }
}

impl View for AddAction {
    type V = AddActionView;

    open spec fn view(&self) -> AddActionView {
        match *self {
            AddAction::Insert(metadata) => AddActionView::Insert(metadata@),
            AddAction::Respond(reply) => AddActionView::Respond(one(seen(reply))),
        }
    }
}

/// The answer to a request that waited for the store once: what the store
/// returned, or the response that stands for its failure.
pub open spec fn db_reply<T>(outcome: Result<T, StoreError>) -> Result<T, ErrorResponseView> {
    match outcome {
        Ok(v) => Ok(v),
        Err(e) => Err(db_view(e)),
    }
}

/// How many steps a request in `state` can still take.
pub open spec fn steps_left(state: AddState) -> nat {
    match state {
        AddState::AwaitingLookup => 2,
        AddState::AwaitingInsert => 1,
        AddState::Done => 0,
    }
}

/// The next state and the action of a request to add a movie.
///
/// A failed lookup ends the request with the provider's failure; the store is
/// not asked. A movie that the provider returned goes to the store as it is.
/// The store's answer ends the request either way. An event that the state
/// does not wait for ends it as an internal failure.
pub open spec fn add_step_view(state: AddState, event: AddEventView) -> (AddState, AddActionView) {
    match (state, event) {
        (AddState::AwaitingLookup, AddEventView::LookedUp(Ok(m))) => (
            AddState::AwaitingInsert,
            AddActionView::Insert(m),
        ),
        (AddState::AwaitingLookup, AddEventView::LookedUp(Err(e))) => (
            AddState::Done,
            AddActionView::Respond(Err(omdb_view(e))),
        ),
        (AddState::AwaitingInsert, AddEventView::Inserted(outcome)) => (
            AddState::Done,
            AddActionView::Respond(db_reply(outcome)),
        ),
        _ => (AddState::Done, AddActionView::Respond(Err(internal_server_error_view()))),
    }
}

/// Answers a request that waited for the store once.
pub fn respond<T>(outcome: Result<T, StoreError>) -> (r: Result<T, ErrorResponse>)
    ensures
        seen(r) == db_reply(outcome),
{
    match outcome {
        Ok(v) => Ok(v),
        Err(e) => Err(db(e)),
    }
}

/// Takes one step of a request to add a movie.
pub fn add_step(state: AddState, event: AddEvent) -> (r: (AddState, AddAction))
    ensures
        (r.0, r.1@) == add_step_view(state, event@),
{
    match (state, event) {
        (AddState::AwaitingLookup, AddEvent::LookedUp(Ok(metadata))) => (
            AddState::AwaitingInsert,
            AddAction::Insert(metadata),
        ),
        (AddState::AwaitingLookup, AddEvent::LookedUp(Err(e))) => (
            AddState::Done,
            AddAction::Respond(Err(omdb(e))),
        ),
        (AddState::AwaitingInsert, AddEvent::Inserted(outcome)) => (
            AddState::Done,
            AddAction::Respond(respond(outcome)),
        ),
        _ => (AddState::Done, AddAction::Respond(Err(internal_server_error()))),
    }
}

} // verus!
