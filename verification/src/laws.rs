//! What holds of the watchlist service whatever its state: each law is proved
//! of the operations as their contracts describe them.

use crate::error::{ErrorResponseView, LookupError, StoreError};
use crate::error_status::{db_view, omdb_view};
use crate::movie::{
    any, is_latest, lemma_latest_exists, lemma_latest_unique, with_id, with_title,
    without_title, MovieData,
};
use crate::service::WatchlistState;
use crate::workflow::{add_step_view, steps_left, AddActionView, AddEventView, AddState};
use vstd::prelude::*;

verus! {

/// A filter that no element passes leaves nothing.
proof fn lemma_filter_none(s: Seq<MovieData>, keep: spec_fn(MovieData) -> bool)
    requires
        forall|i: int| 0 <= i < s.len() ==> !keep(#[trigger] s[i]),
    ensures
        s.filter(keep) == Seq::<MovieData>::empty(),
    decreases s.len(),
{
    reveal(Seq::filter);
    if s.len() > 0 {
        lemma_filter_none(s.drop_last(), keep);
    }
}

/// A filter that every element passes leaves everything.
proof fn lemma_filter_all(s: Seq<MovieData>, keep: spec_fn(MovieData) -> bool)
    requires
        forall|i: int| 0 <= i < s.len() ==> keep(#[trigger] s[i]),
    ensures
        s.filter(keep) == s,
    decreases s.len(),
{
    reveal(Seq::filter);
    if s.len() > 0 {
        lemma_filter_all(s.drop_last(), keep);
    }
}

/// Adding a movie by its identifier and then finding it by that identifier
/// gives a movie with that identifier. Where the addition succeeded, it gives
/// the movie that the provider answered with, and so the provider's title,
/// whatever the watchlist held before.
///
/// This is stated of the requests that are served: the provider knows the
/// identifier and the store is available. The addition then fails only
/// against a store that enforces unique identifiers and holds this one, and
/// what is found is the movie that it holds.
pub proof fn law_add_by_id_then_find_by_id(w: WatchlistState, id: Seq<char>, m: MovieData)
    requires
        w.provider.lookup_by_id(id) == Ok::<MovieData, LookupError>(m),
        w.store.available,
    ensures
        m.id == id,
        w.add_by_id(id).0.find_by_id(id) matches Ok(found) && found.id == id,
        w.add_by_id(id).1 is Ok ==> w.add_by_id(id).1 == Ok::<MovieData, ErrorResponseView>(m)
            && w.add_by_id(id).0.find_by_id(id) == Ok::<MovieData, ErrorResponseView>(m),
        w.add_by_id(id).1 is Err <==> w.store.unique_ids && any(w.store.records, with_id(id)),
{
    lemma_latest_exists(w.provider.entries, with_id(id));
    let old_records = w.store.records;
    let new_records = w.add_by_id(id).0.store.records;
    if w.store.unique_ids && any(old_records, with_id(id)) {
        lemma_latest_exists(old_records, with_id(id));
    } else {
        let i = old_records.len() as int;
        assert(new_records == old_records.push(m));
        assert(is_latest(new_records, with_id(id), i));
        lemma_latest_unique(new_records, with_id(id), i);
    }
}

/// Adding by an identifier that the provider does not know is answered with
/// status 404 and leaves the store as it was: it keeps its movies and was
/// asked for no insertion. The provider was asked once.
pub proof fn law_add_unknown_id(w: WatchlistState, id: Seq<char>)
    requires
        w.provider.lookup_by_id(id) == Err::<MovieData, LookupError>(LookupError::NotFound),
    ensures
        w.add_by_id(id).1 == Err::<MovieData, ErrorResponseView>(omdb_view(LookupError::NotFound)),
        omdb_view(LookupError::NotFound).status == 404,
        w.add_by_id(id).0.store == w.store,
        w.add_by_id(id).0.store.insert_calls == w.store.insert_calls,
        w.add_by_id(id).0.store.records == w.store.records,
        w.add_by_id(id).0.provider == w.provider.asked(),
{
}

/// A request to add a movie asks the provider once and the store once at
/// most: once where the provider answered with a movie, and not at all where
/// the lookup failed. Nothing is asked a second time, whatever came back, and
/// no answer is kept for a later request.
pub proof fn law_add_asks_once(w: WatchlistState, key: Seq<char>)
    ensures
        w.add_by_id(key).0.provider == w.provider.asked(),
        w.add_by_title(key).0.provider == w.provider.asked(),
        w.add_by_id(key).0.store.insert_calls == if w.provider.lookup_by_id(key) is Ok {
            w.store.insert_calls.saturating_add(1)
        } else {
            w.store.insert_calls
        },
        w.add_by_title(key).0.store.insert_calls == if w.provider.lookup_by_title(key) is Ok {
            w.store.insert_calls.saturating_add(1)
        } else {
            w.store.insert_calls
        },
{
}

/// A request to add a movie asks the store to insert only when the provider
/// has just answered with a movie, and then that movie. In particular a
/// failed lookup is followed by no insertion.
pub proof fn law_insert_follows_lookup(state: AddState, event: AddEventView)
    ensures
        add_step_view(state, event).1 matches AddActionView::Insert(m) ==> state
            == AddState::AwaitingLookup && event == AddEventView::LookedUp(
            Ok::<MovieData, LookupError>(m),
        ),
{
}

/// A failed lookup ends the request: the client gets the response that
/// stands for the provider's failure, and whatever comes back afterwards is
/// answered without an action on the store.
pub proof fn law_failed_lookup_ends_request(e: LookupError, later: AddEventView)
    ensures
        add_step_view(AddState::AwaitingLookup, AddEventView::LookedUp(Err(e))) == (
            AddState::Done,
            AddActionView::Respond(Err(omdb_view(e))),
        ),
        add_step_view(AddState::Done, later).0 == AddState::Done,
        add_step_view(AddState::Done, later).1 is Respond,
{
}

/// Every step either answers the client or brings the request closer to its
/// answer, so a request takes two steps at most.
pub proof fn law_add_terminates(state: AddState, event: AddEventView)
    ensures
        add_step_view(state, event).1 is Respond || steps_left(add_step_view(state, event).0)
            < steps_left(state),
{
}

/// Deleting by an identifier that no movie on the watchlist has is answered
/// with status 404, and the watchlist keeps every movie.
pub proof fn law_delete_unknown_id(w: WatchlistState, id: Seq<char>)
    requires
        w.store.available,
        !any(w.store.records, with_id(id)),
    ensures
        w.delete_by_id(id).1 == Err::<MovieData, ErrorResponseView>(db_view(StoreError::NotFound)),
        db_view(StoreError::NotFound).status == 404,
        w.delete_by_id(id).0 == w,
        w.delete_by_id(id).0.store.records.len() == w.store.records.len(),
{
}

/// Deleting by an identifier gives the movie that finding by it gives: where
/// several movies share the identifier, both speak of the one added latest.
pub proof fn law_delete_by_id_gives_what_find_by_id_gives(w: WatchlistState, id: Seq<char>)
    ensures
        w.delete_by_id(id).1 == w.find_by_id(id),
{
}

/// Finding and deleting by a title that no movie on the watchlist bears both
/// succeed with no movie, and the watchlist keeps every movie.
pub proof fn law_no_movie_by_title(w: WatchlistState, title: Seq<char>)
    requires
        w.store.available,
        !any(w.store.records, with_title(title)),
    ensures
        w.find_by_title(title) == Ok::<Seq<MovieData>, ErrorResponseView>(Seq::empty()),
        w.delete_by_title(title).1 == Ok::<Seq<MovieData>, ErrorResponseView>(Seq::empty()),
        w.delete_by_title(title).0 == w,
{
    let records = w.store.records;
    lemma_filter_none(records, with_title(title));
    lemma_filter_all(records, without_title(title));
}

/// Adding twice by the same identifier, to a store that does not enforce
/// unique identifiers, succeeds twice and puts two movies on the watchlist:
/// a request neither looks for the movie on the watchlist nor remembers an
/// earlier request.
pub proof fn law_add_by_id_twice(w: WatchlistState, id: Seq<char>, m: MovieData)
    requires
        w.provider.lookup_by_id(id) == Ok::<MovieData, LookupError>(m),
        w.store.available,
        !w.store.unique_ids,
    ensures
        w.add_by_id(id).1 == Ok::<MovieData, ErrorResponseView>(m),
        w.add_by_id(id).0.add_by_id(id).1 == Ok::<MovieData, ErrorResponseView>(m),
        w.add_by_id(id).0.add_by_id(id).0.store.records == w.store.records.push(m).push(m),
{
}

/// Two requests for the same identifier that both finish their lookup before
/// either insertion runs fare as two requests in a row do: against a store
/// that does not enforce unique identifiers each is told to insert the
/// provider's movie, each insertion succeeds in whichever order they run, and
/// the watchlist ends with two movies more.
pub proof fn law_add_by_id_interleaved(w: WatchlistState, id: Seq<char>, m: MovieData)
    requires
        w.provider.lookup_by_id(id) == Ok::<MovieData, LookupError>(m),
        w.store.available,
        !w.store.unique_ids,
    ensures
        ({
            let looked_up = AddEventView::LookedUp(w.provider.lookup_by_id(id));
            let (state, action) = add_step_view(AddState::AwaitingLookup, looked_up);
            let (store1, outcome1) = w.store.insert(m);
            let (store2, outcome2) = store1.insert(m);
            &&& state == AddState::AwaitingInsert
            &&& action == AddActionView::Insert(m)
            &&& add_step_view(state, AddEventView::Inserted(outcome1)) == (
                AddState::Done,
                AddActionView::Respond(Ok(m)),
            )
            &&& add_step_view(state, AddEventView::Inserted(outcome2)) == (
                AddState::Done,
                AddActionView::Respond(Ok(m)),
            )
            &&& store2.records == w.store.records.push(m).push(m)
        }),
{
}

/// A request that fails leaves every movie where it was: nothing is stored
/// in part, and nothing is deleted by a request that reports a failure.
pub proof fn law_failure_keeps_every_movie(w: WatchlistState, key: Seq<char>)
    ensures
        w.add_by_id(key).1 is Err ==> w.add_by_id(key).0.store.records == w.store.records,
        w.add_by_title(key).1 is Err ==> w.add_by_title(key).0.store.records == w.store.records,
        w.delete_by_id(key).1 is Err ==> w.delete_by_id(key).0.store.records == w.store.records,
        w.delete_by_title(key).1 is Err ==> w.delete_by_title(key).0.store.records
            == w.store.records,
{
}

/// The statuses with which each operation can fail. Listing and the
/// operations by title fail only with the store (500); finding and deleting
/// by identifier also where no movie has it (404); adding fails where the
/// provider knows no such movie (404) or cannot be used (502), where the
/// store refuses a second movie under the identifier (409), or with the
/// store (500).
pub proof fn law_failure_statuses(w: WatchlistState, key: Seq<char>)
    ensures
        w.list_all() matches Err(e) ==> e.status == 500,
        w.clear() matches Err(e) ==> e.status == 500,
        w.find_by_title(key) matches Err(e) ==> e.status == 500,
        w.delete_by_title(key).1 matches Err(e) ==> e.status == 500,
        w.find_by_id(key) matches Err(e) ==> e.status == 404 || e.status == 500,
        w.delete_by_id(key).1 matches Err(e) ==> e.status == 404 || e.status == 500,
        w.add_by_id(key).1 matches Err(e) ==> e.status == 404 || e.status == 502 || e.status
            == 409 || e.status == 500,
        w.add_by_title(key).1 matches Err(e) ==> e.status == 404 || e.status == 502 || e.status
            == 409 || e.status == 500,
{
}

} // verus!
