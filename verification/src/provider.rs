//! The metadata provider client of the watchlist, kept in memory.
//!
//! A catalogue answers a lookup with the entry published latest among those
//! that match. It can be cut off, after which every lookup fails as
//! unreachable. It counts the lookups that it is asked for, so that a caller
//! can be held to how often it asked.

use crate::error::LookupError;
use crate::movie::{
    any, is_latest, latest, lemma_latest_unique, one, records_of, with_id, with_title,
    MovieData, MovieMetadata,
};
use vstd::prelude::*;

verus! {

/// The test that a lookup applies: "is titled `key`" where `by_title` is set,
/// and "has the identifier `key`" where it is not.
pub open spec fn keyed(key: Seq<char>, by_title: bool) -> spec_fn(MovieData) -> bool {
    if by_title {
        with_title(key)
    } else {
        with_id(key)
    }
}

/// The state of a catalogue: its entries in the order of publication,
/// whether it can be reached, and how many lookups it was asked for, answered
/// or not. The count stops at the largest `u64`.
pub ghost struct CatalogState {
    pub entries: Seq<MovieData>,
    pub reachable: bool,
    pub lookup_calls: u64,
}

impl CatalogState {
    /// The catalogue after one lookup: the call is counted, nothing else
    /// changes.
    pub open spec fn asked(self) -> CatalogState {
        CatalogState { lookup_calls: self.lookup_calls.saturating_add(1), ..self }
    }

    /// The entry published latest among those that pass `wanted`.
    pub open spec fn lookup(self, wanted: spec_fn(MovieData) -> bool) -> Result<
        MovieData,
        LookupError,
    > {
        if !self.reachable {
            Err(LookupError::Unreachable)
        } else if any(self.entries, wanted) {
            Ok(self.entries[latest(self.entries, wanted)])
        } else {
            Err(LookupError::NotFound)
        }
    }

    /// The entry published latest under the identifier `id`.
    pub open spec fn lookup_by_id(self, id: Seq<char>) -> Result<MovieData, LookupError> {
        self.lookup(with_id(id))
    }

    /// The entry published latest under the title `title`.
    pub open spec fn lookup_by_title(self, title: Seq<char>) -> Result<MovieData, LookupError> {
        self.lookup(with_title(title))
    }
}

/// A metadata provider in memory.
pub struct Catalog {
    entries: Vec<MovieMetadata>,
    reachable: bool,
    lookup_calls: u64,
}

impl View for Catalog {
    type V = CatalogState;

    closed spec fn view(&self) -> CatalogState {
        CatalogState {
            entries: records_of(self.entries@),
            reachable: self.reachable,
            lookup_calls: self.lookup_calls,
        }
    }
}

impl Catalog {
    /// An empty catalogue that can be reached and was asked for no lookup.
    pub fn new() -> (c: Catalog)
        ensures
            c@ == (CatalogState { entries: Seq::empty(), reachable: true, lookup_calls: 0 }),
    {
        let c = Catalog { entries: Vec::new(), reachable: true, lookup_calls: 0 };
        assert(records_of(c.entries@) =~= Seq::empty());
        c
    }

    /// Adds an entry behind those that the catalogue holds.
    pub fn publish(&mut self, entry: MovieMetadata)
        ensures
            final(self)@ == (CatalogState {
                entries: old(self)@.entries.push(entry@),
                ..old(self)@
            }),
    {
        self.entries.push(entry);
        assert(records_of(self.entries@) =~= records_of(old(self).entries@).push(entry@));
    }

    /// How many entries the catalogue holds.
    pub fn len(&self) -> (n: usize)
        ensures
            n == self@.entries.len(),
    {
        self.entries.len()
    }

    /// Whether the catalogue can be reached.
    pub fn is_reachable(&self) -> (b: bool)
        ensures
            b == self@.reachable,
    {
        self.reachable
    }

    /// How many lookups the catalogue was asked for, answered or not.
    pub fn lookup_calls(&self) -> (n: u64)
        ensures
            n == self@.lookup_calls,
    {
        self.lookup_calls
    }

    /// Connects the catalogue or cuts it off.
    pub fn set_reachable(&mut self, reachable: bool)
        ensures
            final(self)@ == (CatalogState { reachable, ..old(self)@ }),
    {
        self.reachable = reachable;
    }

    /// The place of the entry published latest under the identifier `key`,
    /// or under the title `key` where `by_title` is set.
    fn position_of(&self, key: &String, by_title: bool) -> (r: Option<usize>)
        ensures
            match r {
                Some(i) => is_latest(self@.entries, keyed(key@, by_title), i as int),
                None => !any(self@.entries, keyed(key@, by_title)),
            },
    {
        let mut i: usize = self.entries.len();
        while i > 0
            invariant
                i <= self.entries.len(),
                forall|j: int|
                    i <= j < self.entries.len() ==> !keyed(key@, by_title)(
                        #[trigger] records_of(self.entries@)[j],
                    ),
            decreases i,
        {
            i -= 1;
            let found = if by_title {
                self.entries[i].title == *key
            } else {
                self.entries[i].id == *key
            };
            if found {
                return Some(i);
            }
        }
        None
    }

    /// Runs one lookup: counts it, and answers with the entry published
    /// latest under the key.
    fn lookup(&mut self, key: &str, by_title: bool) -> (r: Result<MovieMetadata, LookupError>)
        ensures
            final(self)@ == old(self)@.asked(),
            one(r) == old(self)@.lookup(keyed(key@, by_title)),
    {
        self.lookup_calls = self.lookup_calls.saturating_add(1);
        if !self.reachable {
            return Err(LookupError::Unreachable);
        }
        let key = key.to_owned();
        match self.position_of(&key, by_title) {
            Some(i) => {
                proof {
                    lemma_latest_unique(self@.entries, keyed(key@, by_title), i as int);
                }
                Ok(self.entries[i].clone())
            },
            None => Err(LookupError::NotFound),
        }
    }

    /// Looks the identifier `id` up: the entry published latest under it;
    /// `NotFound` where there is none. The call is counted.
    pub fn lookup_by_id(&mut self, id: &str) -> (r: Result<MovieMetadata, LookupError>)
        ensures
            final(self)@ == old(self)@.asked(),
            one(r) == old(self)@.lookup_by_id(id@),
    {
        self.lookup(id, false)
    }

    /// Looks the title `title` up: the entry published latest under it;
    /// `NotFound` where there is none. The call is counted.
    pub fn lookup_by_title(&mut self, title: &str) -> (r: Result<MovieMetadata, LookupError>)
        ensures
            final(self)@ == old(self)@.asked(),
            one(r) == old(self)@.lookup_by_title(title@),
    {
        self.lookup(title, true)
    }
}

} // verus!
