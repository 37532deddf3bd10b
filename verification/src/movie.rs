//! The movie record, as the provider describes it and as the store keeps it.

use vstd::prelude::*;

verus! {

/// What is known of a movie: the provider's identifier, the title, and the
/// attributes that the service stores without reading them.
pub ghost struct MovieData {
    pub id: Seq<char>,
    pub title: Seq<char>,
    pub year: Seq<char>,
    pub genre: Seq<char>,
}

/// A provider's answer to one lookup. It lives until it is stored or dropped.
#[derive(Debug, PartialEq, Eq)]
pub struct MovieMetadata {
    pub id: String,
    pub title: String,
    pub year: String,
    pub genre: String,
}

/// A movie on the watchlist.
#[derive(Debug, PartialEq, Eq)]
pub struct Movie {
    pub id: String,
    pub title: String,
    pub year: String,
    pub genre: String,
}

impl View for MovieMetadata {
    type V = MovieData;

    open spec fn view(&self) -> MovieData {
        MovieData { id: self.id@, title: self.title@, year: self.year@, genre: self.genre@ }
    }
}

impl View for Movie {
    type V = MovieData;

    open spec fn view(&self) -> MovieData {
        MovieData { id: self.id@, title: self.title@, year: self.year@, genre: self.genre@ }
    }
}

impl Clone for MovieMetadata {
    fn clone(&self) -> (r: Self)
        ensures
            r == *self,
    {
        MovieMetadata {
            id: self.id.clone(),
            title: self.title.clone(),
            year: self.year.clone(),
            genre: self.genre.clone(),
        }
    }
}

impl Clone for Movie {
    fn clone(&self) -> (r: Self)
        ensures
            r == *self,
    {
        Movie {
            id: self.id.clone(),
            title: self.title.clone(),
            year: self.year.clone(),
            genre: self.genre.clone(),
        }
    }
}

impl MovieMetadata {
    /// A record of the four given strings.
    pub fn new(id: &str, title: &str, year: &str, genre: &str) -> (r: MovieMetadata)
        ensures
            r@ == (MovieData { id: id@, title: title@, year: year@, genre: genre@ }),
    {
        MovieMetadata {
            id: id.to_owned(),
            title: title.to_owned(),
            year: year.to_owned(),
            genre: genre.to_owned(),
        }
    }
}

impl Movie {
    /// The storable record of a provider's answer: every attribute as the
    /// provider gave it, nothing added.
    pub fn from_metadata(metadata: MovieMetadata) -> (r: Movie)
        ensures
            r@ == metadata@,
    {
        Movie {
            id: metadata.id,
            title: metadata.title,
            year: metadata.year,
            genre: metadata.genre,
        }
    }
}

/// What a sequence of movies, stored or looked up, says of each of them, in
/// the same order.
pub open spec fn records_of<T: View>(movies: Seq<T>) -> Seq<T::V> {
    Seq::new(movies.len(), |i: int| movies[i]@)
}

/// What an operation that yields one record returned, with the record as
/// data.
pub open spec fn one<T: View, E>(r: Result<T, E>) -> Result<T::V, E> {
    match r {
        Ok(m) => Ok(m@),
        Err(e) => Err(e),
    }
}

/// What an operation that yields several records returned, with the records
/// as data.
pub open spec fn many<T: View, E>(r: Result<Vec<T>, E>) -> Result<Seq<T::V>, E> {
    match r {
        Ok(v) => Ok(records_of(v@)),
        Err(e) => Err(e),
    }
}

/// The test "has the identifier `id`".
pub open spec fn with_id(id: Seq<char>) -> spec_fn(MovieData) -> bool {
    |m: MovieData| m.id == id
}

/// The test "is titled `title`".
pub open spec fn with_title(title: Seq<char>) -> spec_fn(MovieData) -> bool {
    |m: MovieData| m.title == title
}

/// The test "is not titled `title`".
pub open spec fn without_title(title: Seq<char>) -> spec_fn(MovieData) -> bool {
    |m: MovieData| m.title != title
}

/// Whether `i` is the place of the latest record that passes `wanted`: the
/// one that no later record follows in passing it.
pub open spec fn is_latest(records: Seq<MovieData>, wanted: spec_fn(MovieData) -> bool, i: int) -> bool {
    &&& 0 <= i < records.len()
    &&& wanted(records[i])
    &&& forall|j: int| i < j < records.len() ==> !wanted(#[trigger] records[j])
}

/// Whether some record passes `wanted`.
pub open spec fn any(records: Seq<MovieData>, wanted: spec_fn(MovieData) -> bool) -> bool {
    exists|i: int| 0 <= i < records.len() && wanted(#[trigger] records[i])
}

/// The place of the latest record that passes `wanted`, where one does.
pub open spec fn latest(records: Seq<MovieData>, wanted: spec_fn(MovieData) -> bool) -> int {
    choose|i: int| is_latest(records, wanted, i)
}

/// Where the record at `k` passes a test, some record is the latest to pass.
proof fn lemma_latest_from(records: Seq<MovieData>, wanted: spec_fn(MovieData) -> bool, k: int)
    requires
        0 <= k < records.len(),
        wanted(records[k]),
    ensures
        exists|i: int| is_latest(records, wanted, i),
    decreases records.len() - k,
{
    if forall|j: int| k < j < records.len() ==> !wanted(#[trigger] records[j]) {
        assert(is_latest(records, wanted, k));
    } else {
        let j = choose|j: int| k < j < records.len() && wanted(#[trigger] records[j]);
        lemma_latest_from(records, wanted, j);
    }
}

/// Where some record passes a test, `latest` is the place of the latest that
/// does.
pub proof fn lemma_latest_exists(records: Seq<MovieData>, wanted: spec_fn(MovieData) -> bool)
    requires
        any(records, wanted),
    ensures
        is_latest(records, wanted, latest(records, wanted)),
{
    let k = choose|k: int| 0 <= k < records.len() && wanted(#[trigger] records[k]);
    lemma_latest_from(records, wanted, k);
}

/// At most one place is the latest to pass a test.
pub proof fn lemma_latest_unique(records: Seq<MovieData>, wanted: spec_fn(MovieData) -> bool, i: int)
    requires
        is_latest(records, wanted, i),
    ensures
        any(records, wanted),
        latest(records, wanted) == i,
{
    let j = latest(records, wanted);
    assert(is_latest(records, wanted, j));
}

/// Filtering a sequence grown by one element: the element is kept or it is
/// not, and the rest is filtered as before.
pub proof fn lemma_filter_push<A>(s: Seq<A>, x: A, keep: spec_fn(A) -> bool)
    ensures
        s.push(x).filter(keep) == if keep(x) {
            s.filter(keep).push(x)
        } else {
            s.filter(keep)
        },
{
    reveal(Seq::filter);
    assert(s.push(x).drop_last() =~= s);
}

} // verus!
