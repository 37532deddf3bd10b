//! The watchlist service: the operations that a client can ask for, over a
//! metadata provider and a store.
//!
//! Every operation answers with what it found or changed, or with the
//! response that stands for the failure. None of them retries, and a failure
//! leaves the store as it was.

use crate::error::{seen, ErrorResponse, ErrorResponseView, LookupError};
use crate::error_status::omdb_view;
use crate::movie::{many, one, Movie, MovieData, MovieMetadata};
use crate::provider::{Catalog, CatalogState};
use crate::store::{MemoryStore, StoreState};
use crate::workflow::{
    add_step, db_reply, respond, steps_left, AddAction, AddEvent, AddEventView, AddState,
};
use vstd::prelude::*;

verus! {

/// The state of a watchlist service: that of its provider and of its store.
pub ghost struct WatchlistState {
    pub provider: CatalogState,
    pub store: StoreState,
}

impl WatchlistState {
    /// Every movie on the watchlist.
    pub open spec fn list_all(self) -> Result<Seq<MovieData>, ErrorResponseView> {
        db_reply(self.store.list())
    }

    /// What clearing answers: every movie on the watchlist. The store keeps
    /// them.
    pub open spec fn clear(self) -> Result<Seq<MovieData>, ErrorResponseView> {
        db_reply(self.store.list())
    }

    /// The movie added latest under the identifier `id`.
    pub open spec fn find_by_id(self, id: Seq<char>) -> Result<MovieData, ErrorResponseView> {
        db_reply(self.store.find_by_id(id))
    }

    /// The movies titled `title`.
    pub open spec fn find_by_title(self, title: Seq<char>) -> Result<
        Seq<MovieData>,
        ErrorResponseView,
    > {
        db_reply(self.store.find_by_title(title))
    }

    /// The service after a request to add the movie that the provider
    /// answered with, and the answer to the request. A failed lookup is
    /// answered as it is and the store is left alone; a movie is inserted as
    /// the provider gave it.
    pub open spec fn add(self, answer: Result<MovieData, LookupError>) -> (
        WatchlistState,
        Result<MovieData, ErrorResponseView>,
    ) {
        match answer {
            Err(e) => (self, Err(omdb_view(e))),
            Ok(m) => {
                let (store, outcome) = self.store.insert(m);
                (WatchlistState { store, ..self }, db_reply(outcome))
            },
        }
    }

    /// Adding the movie that the provider knows under the identifier `id`:
    /// the provider is asked once, and the request goes on with its answer.
    pub open spec fn add_by_id(self, id: Seq<char>) -> (
        WatchlistState,
        Result<MovieData, ErrorResponseView>,
    ) {
        (WatchlistState { provider: self.provider.asked(), ..self }).add(
            self.provider.lookup_by_id(id),
        )
    }

    /// Adding the movie that the provider knows under the title `title`:
    /// the provider is asked once, and the request goes on with its answer.
    pub open spec fn add_by_title(self, title: Seq<char>) -> (
        WatchlistState,
        Result<MovieData, ErrorResponseView>,
    ) {
        (WatchlistState { provider: self.provider.asked(), ..self }).add(
            self.provider.lookup_by_title(title),
        )
    }

    /// Deleting the movie added latest under the identifier `id`.
    pub open spec fn delete_by_id(self, id: Seq<char>) -> (
        WatchlistState,
        Result<MovieData, ErrorResponseView>,
    ) {
        let (store, outcome) = self.store.delete_by_id(id);
        (WatchlistState { store, ..self }, db_reply(outcome))
    }

    /// Deleting the movies titled `title`.
    pub open spec fn delete_by_title(self, title: Seq<char>) -> (
        WatchlistState,
        Result<Seq<MovieData>, ErrorResponseView>,
    ) {
        let (store, outcome) = self.store.delete_by_title(title);
        (WatchlistState { store, ..self }, db_reply(outcome))
    }
}

/// A watchlist service over a provider and a store in memory.
pub struct Watchlist {
    pub provider: Catalog,
    pub store: MemoryStore,
}

impl View for Watchlist {
    type V = WatchlistState;

    open spec fn view(&self) -> WatchlistState {
        WatchlistState { provider: self.provider@, store: self.store@ }
    }
}

impl Watchlist {
    /// A service over the given provider and store.
    pub fn new(provider: Catalog, store: MemoryStore) -> (w: Watchlist)
        ensures
            w@ == (WatchlistState { provider: provider@, store: store@ }),
    {
        Watchlist { provider, store }
    }

    /// Every movie on the watchlist, in the order in which they were added.
    pub fn list_all(&self) -> (r: Result<Vec<Movie>, ErrorResponse>)
        ensures
            many(seen(r)) == self@.list_all(),
    {
        respond(self.store.list())
    }

    /// Answers with every movie on the watchlist and removes none.
    pub fn clear(&self) -> (r: Result<Vec<Movie>, ErrorResponse>)
        ensures
            many(seen(r)) == self@.clear(),
    {
        respond(self.store.list())
    }

    /// Runs a request to add a movie from the provider's answer to the
    /// response.
    fn add(&mut self, answer: Result<MovieMetadata, LookupError>) -> (r: Result<
        Movie,
        ErrorResponse,
    >)
        ensures
            (final(self)@, one(seen(r))) == old(self)@.add(one(answer)),
    {
        let ghost before = self@;
        let ghost asked = one(answer);
        let mut state = AddState::AwaitingLookup;
        let mut event = AddEvent::LookedUp(answer);
        loop
            invariant
                before == old(self)@,
                asked == one(answer),
                self@.provider == before.provider,
                match state {
                    AddState::AwaitingLookup => {
                        &&& event@ == AddEventView::LookedUp(asked)
                        &&& self@ == before
                    },
                    AddState::AwaitingInsert => {
                        &&& asked matches Ok(m)
                        &&& event@ == AddEventView::Inserted(before.store.insert(m).1)
                        &&& self@.store == before.store.insert(m).0
                    },
                    AddState::Done => false,
                },
            decreases steps_left(state),
        {
            let (next, action) = add_step(state, event);
            match action {
                AddAction::Respond(reply) => {
                    return reply;
                },
                AddAction::Insert(metadata) => {
                    event = AddEvent::Inserted(self.store.insert(metadata));
                    state = next;
                },
            }
        }
    }

    /// Looks the identifier `id` up at the provider and puts the movie on the
    /// watchlist. Every call looks up and inserts anew.
    pub fn add_by_id(&mut self, id: &str) -> (r: Result<Movie, ErrorResponse>)
        ensures
            (final(self)@, one(seen(r))) == old(self)@.add_by_id(id@),
    {
        let answer = self.provider.lookup_by_id(id);
        self.add(answer)
    }

    /// Looks the title `title` up at the provider and puts the movie on the
    /// watchlist. Every call looks up and inserts anew.
    pub fn add_by_title(&mut self, title: &str) -> (r: Result<Movie, ErrorResponse>)
        ensures
            (final(self)@, one(seen(r))) == old(self)@.add_by_title(title@),
    {
        let answer = self.provider.lookup_by_title(title);
        self.add(answer)
    }

    /// The movie on the watchlist with the identifier `id`; where several
    /// have it, the one added latest.
    pub fn find_by_id(&self, id: &str) -> (r: Result<Movie, ErrorResponse>)
        ensures
            one(seen(r)) == self@.find_by_id(id@),
    {
        respond(self.store.find_by_id(id))
    }

    /// The movies on the watchlist titled `title`.
    pub fn find_by_title(&self, title: &str) -> (r: Result<Vec<Movie>, ErrorResponse>)
        ensures
            many(seen(r)) == self@.find_by_title(title@),
    {
        respond(self.store.find_by_title(title))
    }

    /// Takes the movie with the identifier `id` off the watchlist; where
    /// several have it, the one added latest.
    pub fn delete_by_id(&mut self, id: &str) -> (r: Result<Movie, ErrorResponse>)
        ensures
            (final(self)@, one(seen(r))) == old(self)@.delete_by_id(id@),
    {
        respond(self.store.delete_by_id(id))
    }

    /// Takes every movie titled `title` off the watchlist.
    pub fn delete_by_title(&mut self, title: &str) -> (r: Result<Vec<Movie>, ErrorResponse>)
        ensures
            (final(self)@, many(seen(r))) == old(self)@.delete_by_title(title@),
    {
        respond(self.store.delete_by_title(title))
    }
}

} // verus!
