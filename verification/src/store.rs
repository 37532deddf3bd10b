//! The persistence gateway of the watchlist, kept in memory.
//!
//! The store keeps its movies in the order in which they were inserted. Where
//! several share an identifier, the one inserted latest is the one that is
//! found and deleted under it. The store may enforce that no two of them
//! share an identifier, and it can be switched off, after which every
//! operation fails and every movie stays. It counts the insertions that it is
//! asked for, so that a caller can be held to how often it asked.

use crate::error::StoreError;
use crate::movie::{
    any, is_latest, latest, lemma_filter_push, lemma_latest_unique, many, one, records_of, with_id,
    with_title, without_title, Movie, MovieData, MovieMetadata,
};
use vstd::prelude::*;

verus! {

/// The state of a store: its records in insertion order, its two switches,
/// and how many insertions it was asked for, granted or not. The count stops
/// at the largest `u64`.
pub ghost struct StoreState {
    pub records: Seq<MovieData>,
    pub unique_ids: bool,
    pub available: bool,
    pub insert_calls: u64,
}

impl StoreState {
    /// All records.
    pub open spec fn list(self) -> Result<Seq<MovieData>, StoreError> {
        if !self.available {
            Err(StoreError::Unavailable)
        } else {
            Ok(self.records)
        }
    }

    /// The record inserted latest under the identifier `id`.
    pub open spec fn find_by_id(self, id: Seq<char>) -> Result<MovieData, StoreError> {
        if !self.available {
            Err(StoreError::Unavailable)
        } else if any(self.records, with_id(id)) {
            Ok(self.records[latest(self.records, with_id(id))])
        } else {
            Err(StoreError::NotFound)
        }
    }

    /// The records titled `title`; none is no failure.
    pub open spec fn find_by_title(self, title: Seq<char>) -> Result<Seq<MovieData>, StoreError> {
        if !self.available {
            Err(StoreError::Unavailable)
        } else {
            Ok(self.records.filter(with_title(title)))
        }
    }

    /// The store after an insertion of `m`, and what the insertion returns:
    /// the call is counted, and the record goes to the end, unless the store
    /// enforces unique identifiers and already holds this one.
    pub open spec fn insert(self, m: MovieData) -> (StoreState, Result<MovieData, StoreError>) {
        let asked = StoreState { insert_calls: self.insert_calls.saturating_add(1), ..self };
        if !self.available {
            (asked, Err(StoreError::Unavailable))
        } else if self.unique_ids && any(self.records, with_id(m.id)) {
            (asked, Err(StoreError::Conflict))
        } else {
            (StoreState { records: self.records.push(m), ..asked }, Ok(m))
        }
    }

    /// The store after the deletion of the record inserted latest under the
    /// identifier `id`, and that record.
    pub open spec fn delete_by_id(self, id: Seq<char>) -> (StoreState, Result<MovieData, StoreError>) {
        if !self.available {
            (self, Err(StoreError::Unavailable))
        } else if any(self.records, with_id(id)) {
            let i = latest(self.records, with_id(id));
            (StoreState { records: self.records.remove(i), ..self }, Ok(self.records[i]))
        } else {
            (self, Err(StoreError::NotFound))
        }
    }

    /// The store after the deletion of every record titled `title`, and those
    /// records.
    pub open spec fn delete_by_title(self, title: Seq<char>) -> (
        StoreState,
        Result<Seq<MovieData>, StoreError>,
    ) {
        if !self.available {
            (self, Err(StoreError::Unavailable))
        } else {
            (
                StoreState { records: self.records.filter(without_title(title)), ..self },
                Ok(self.records.filter(with_title(title))),
            )
        }
    }
}

/// A watchlist store in memory.
pub struct MemoryStore {
    records: Vec<Movie>,
    unique_ids: bool,
    available: bool,
    insert_calls: u64,
}

impl View for MemoryStore {
    type V = StoreState;

    closed spec fn view(&self) -> StoreState {
        StoreState {
            records: records_of(self.records@),
            unique_ids: self.unique_ids,
            available: self.available,
            insert_calls: self.insert_calls,
        }
    }
}

impl MemoryStore {
    /// An empty store that is available and was asked for no insertion. With
    /// `unique_ids` it will refuse a second movie under an identifier that it
    /// holds.
    pub fn new(unique_ids: bool) -> (s: MemoryStore)
        ensures
            s@ == (StoreState {
                records: Seq::empty(),
                unique_ids,
                available: true,
                insert_calls: 0,
            }),
    {
        let s = MemoryStore { records: Vec::new(), unique_ids, available: true, insert_calls: 0 };
        assert(records_of(s.records@) =~= Seq::empty());
        s
    }

    /// How many movies the store holds.
    pub fn len(&self) -> (n: usize)
        ensures
            n == self@.records.len(),
    {
        self.records.len()
    }

    /// Whether the store is switched on.
    pub fn is_available(&self) -> (b: bool)
        ensures
            b == self@.available,
    {
        self.available
    }

    /// How many insertions the store was asked for, granted or not.
    pub fn insert_calls(&self) -> (n: u64)
        ensures
            n == self@.insert_calls,
    {
        self.insert_calls
    }

    /// Whether the store refuses a second movie under one identifier.
    pub fn has_unique_ids(&self) -> (b: bool)
        ensures
            b == self@.unique_ids,
    {
        self.unique_ids
    }

    /// Switches the store on or off.
    pub fn set_available(&mut self, available: bool)
        ensures
            final(self)@ == (StoreState { available, ..old(self)@ }),
    {
        self.available = available;
    }

    /// The place of the movie inserted latest under the identifier `key`.
    fn position_of_id(&self, key: &String) -> (r: Option<usize>)
        ensures
            match r {
                Some(i) => is_latest(self@.records, with_id(key@), i as int),
                None => !any(self@.records, with_id(key@)),
            },
    {
        let mut i: usize = self.records.len();
        while i > 0
            invariant
                i <= self.records.len(),
                forall|j: int|
                    i <= j < self.records.len() ==> !with_id(key@)(
                        #[trigger] records_of(self.records@)[j],
                    ),
            decreases i,
        {
            i -= 1;
            if self.records[i].id == *key {
                return Some(i);
            }
        }
        None
    }

    /// All movies, in insertion order.
    pub fn list(&self) -> (r: Result<Vec<Movie>, StoreError>)
        ensures
            many(r) == self@.list(),
    {
        if !self.available {
            return Err(StoreError::Unavailable);
        }
        let mut out: Vec<Movie> = Vec::new();
        let mut i: usize = 0;
        while i < self.records.len()
            invariant
                i <= self.records.len(),
                out@ == self.records@.subrange(0, i as int),
            decreases self.records.len() - i,
        {
            out.push(self.records[i].clone());
            i += 1;
        }
        assert(out@ =~= self.records@);
        Ok(out)
    }

    /// The movie inserted latest under the identifier `id`; `NotFound` where
    /// there is none.
    pub fn find_by_id(&self, id: &str) -> (r: Result<Movie, StoreError>)
        ensures
            one(r) == self@.find_by_id(id@),
    {
        if !self.available {
            return Err(StoreError::Unavailable);
        }
        let key = id.to_owned();
        match self.position_of_id(&key) {
            Some(i) => {
                proof {
                    lemma_latest_unique(self@.records, with_id(id@), i as int);
                }
                Ok(self.records[i].clone())
            },
            None => Err(StoreError::NotFound),
        }
    }

    /// Stores the movie that `metadata` describes and returns it as stored.
    pub fn insert(&mut self, metadata: MovieMetadata) -> (r: Result<Movie, StoreError>)
        ensures
            (final(self)@, one(r)) == old(self)@.insert(metadata@),
    {
        self.insert_calls = self.insert_calls.saturating_add(1);
        if !self.available {
            return Err(StoreError::Unavailable);
        }
        if self.unique_ids {
            if self.position_of_id(&metadata.id).is_some() {
                return Err(StoreError::Conflict);
            }
        }
        let movie = Movie::from_metadata(metadata);
        self.records.push(movie.clone());
        assert(records_of(self.records@) =~= records_of(old(self).records@).push(movie@));
        Ok(movie)
    }

    /// Removes the movie inserted latest under the identifier `id` and
    /// returns it; `NotFound` where there is none.
    pub fn delete_by_id(&mut self, id: &str) -> (r: Result<Movie, StoreError>)
        ensures
            (final(self)@, one(r)) == old(self)@.delete_by_id(id@),
    {
        if !self.available {
            return Err(StoreError::Unavailable);
        }
        let key = id.to_owned();
        match self.position_of_id(&key) {
            Some(i) => {
                proof {
                    lemma_latest_unique(self@.records, with_id(id@), i as int);
                }
                let movie = self.records.remove(i);
                assert(records_of(self.records@) =~= records_of(old(self).records@).remove(
                    i as int,
                ));
                Ok(movie)
            },
            None => Err(StoreError::NotFound),
        }
    }

    /// The movies titled `title`, in insertion order; none is no failure.
    pub fn find_by_title(&self, title: &str) -> (r: Result<Vec<Movie>, StoreError>)
        ensures
            many(r) == self@.find_by_title(title@),
    {
        if !self.available {
            return Err(StoreError::Unavailable);
        }
        let key = title.to_owned();
        let ghost all = records_of(self.records@);
        let mut out: Vec<Movie> = Vec::new();
        let mut i: usize = 0;
        while i < self.records.len()
            invariant
                i <= self.records.len(),
                all == records_of(self.records@),
                key@ == title@,
                records_of(out@) == all.subrange(0, i as int).filter(with_title(title@)),
            decreases self.records.len() - i,
        {
            proof {
                lemma_filter_push(
                    all.subrange(0, i as int),
                    all[i as int],
                    with_title(title@),
                );
                assert(all.subrange(0, i + 1) =~= all.subrange(0, i as int).push(all[i as int]));
            }
            if self.records[i].title == key {
                out.push(self.records[i].clone());
            }
            i += 1;
        }
        assert(all.subrange(0, i as int) =~= all);
        Ok(out)
    }

    /// Removes every movie titled `title` and returns them, in insertion
    /// order; none is no failure.
    pub fn delete_by_title(&mut self, title: &str) -> (r: Result<Vec<Movie>, StoreError>)
        ensures
            (final(self)@, many(r)) == old(self)@.delete_by_title(title@),
    {
        if !self.available {
            return Err(StoreError::Unavailable);
        }
        let key = title.to_owned();
        let ghost all = records_of(self.records@);
        let mut kept: Vec<Movie> = Vec::new();
        let mut removed: Vec<Movie> = Vec::new();
        let mut i: usize = 0;
        while i < self.records.len()
            invariant
                i <= self.records.len(),
                all == records_of(self.records@),
                key@ == title@,
                records_of(removed@) == all.subrange(0, i as int).filter(with_title(title@)),
                records_of(kept@) == all.subrange(0, i as int).filter(without_title(title@)),
            decreases self.records.len() - i,
        {
            proof {
                lemma_filter_push(
                    all.subrange(0, i as int),
                    all[i as int],
                    with_title(title@),
                );
                lemma_filter_push(
                    all.subrange(0, i as int),
                    all[i as int],
                    without_title(title@),
                );
                assert(all.subrange(0, i + 1) =~= all.subrange(0, i as int).push(all[i as int]));
            }
            if self.records[i].title == key {
                removed.push(self.records[i].clone());
            } else {
                kept.push(self.records[i].clone());
            }
            i += 1;
        }
        assert(all.subrange(0, i as int) =~= all);
        self.records = kept;
        Ok(removed)
    }
}

} // verus!
