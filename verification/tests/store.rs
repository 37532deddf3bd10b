use watchlist::error::{LookupError, StoreError};
use watchlist::movie::{Movie, MovieMetadata};
use watchlist::provider::Catalog;
use watchlist::store::MemoryStore;

fn meta(id: &str, title: &str) -> MovieMetadata {
    MovieMetadata::new(id, title, "1999", "Drama")
}

fn movie(id: &str, title: &str) -> Movie {
    Movie::from_metadata(meta(id, title))
}

#[test]
fn metadata_new_keeps_each_attribute() {
    let m = MovieMetadata::new("tt0133093", "The Matrix", "1999", "Sci-Fi");
    assert_eq!(m.id, "tt0133093");
    assert_eq!(m.title, "The Matrix");
    assert_eq!(m.year, "1999");
    assert_eq!(m.genre, "Sci-Fi");
}

#[test]
fn a_stored_movie_has_the_attributes_of_the_metadata() {
    let m = Movie::from_metadata(MovieMetadata::new("tt0133093", "The Matrix", "1999", "Sci-Fi"));
    assert_eq!(
        m,
        Movie {
            id: "tt0133093".to_string(),
            title: "The Matrix".to_string(),
            year: "1999".to_string(),
            genre: "Sci-Fi".to_string(),
        }
    );
}

#[test]
fn a_clone_equals_its_source() {
    let m = movie("tt1", "One");
    assert_eq!(m.clone(), m);
    let d = meta("tt1", "One");
    assert_eq!(d.clone(), d);
}

#[test]
fn a_new_store_is_empty_and_available() {
    let store = MemoryStore::new(false);
    assert_eq!(store.len(), 0);
    assert!(store.is_available());
    assert!(!store.has_unique_ids());
    assert_eq!(store.insert_calls(), 0);
    assert_eq!(store.list(), Ok(vec![]));
    assert!(MemoryStore::new(true).has_unique_ids());
}

#[test]
fn insert_returns_the_stored_movie_and_appends_it() {
    let mut store = MemoryStore::new(false);
    assert_eq!(store.insert(meta("tt1", "One")), Ok(movie("tt1", "One")));
    assert_eq!(store.insert(meta("tt2", "Two")), Ok(movie("tt2", "Two")));
    assert_eq!(store.len(), 2);
    assert_eq!(store.list(), Ok(vec![movie("tt1", "One"), movie("tt2", "Two")]));
}

#[test]
fn insert_without_uniqueness_keeps_duplicates() {
    let mut store = MemoryStore::new(false);
    assert_eq!(store.insert(meta("tt1", "One")), Ok(movie("tt1", "One")));
    assert_eq!(store.insert(meta("tt1", "One")), Ok(movie("tt1", "One")));
    assert_eq!(store.len(), 2);
}

#[test]
fn insert_with_uniqueness_refuses_a_held_identifier() {
    let mut store = MemoryStore::new(true);
    assert_eq!(store.insert(meta("tt1", "One")), Ok(movie("tt1", "One")));
    assert_eq!(store.insert(meta("tt1", "Another")), Err(StoreError::Conflict));
    assert_eq!(store.len(), 1);
    assert_eq!(store.insert(meta("tt2", "One")), Ok(movie("tt2", "One")));
    assert_eq!(store.len(), 2);
}

#[test]
fn every_insertion_asked_for_is_counted() {
    let mut store = MemoryStore::new(true);
    store.insert(meta("tt1", "One")).unwrap();
    assert_eq!(store.insert_calls(), 1);
    assert_eq!(store.insert(meta("tt1", "One")), Err(StoreError::Conflict));
    assert_eq!(store.insert_calls(), 2);
    store.set_available(false);
    assert_eq!(store.insert(meta("tt2", "Two")), Err(StoreError::Unavailable));
    assert_eq!(store.insert_calls(), 3);
    assert_eq!(store.find_by_id("tt1"), Err(StoreError::Unavailable));
    assert_eq!(store.delete_by_id("tt1"), Err(StoreError::Unavailable));
    assert_eq!(store.insert_calls(), 3);
    assert_eq!(store.len(), 1);
}

#[test]
fn find_by_id_gives_the_movie_inserted_latest() {
    let mut store = MemoryStore::new(false);
    store.insert(meta("tt1", "Older")).unwrap();
    store.insert(meta("tt2", "Two")).unwrap();
    store.insert(meta("tt1", "Newer")).unwrap();
    assert_eq!(store.find_by_id("tt1"), Ok(movie("tt1", "Newer")));
    assert_eq!(store.find_by_id("tt2"), Ok(movie("tt2", "Two")));
    store.insert(meta("tt1", "Newest")).unwrap();
    assert_eq!(store.find_by_id("tt1"), Ok(movie("tt1", "Newest")));
    assert_eq!(store.len(), 4);
}

#[test]
fn find_by_id_without_a_match_is_not_found() {
    let mut store = MemoryStore::new(false);
    assert_eq!(store.find_by_id("tt1"), Err(StoreError::NotFound));
    store.insert(meta("tt1", "One")).unwrap();
    assert_eq!(store.find_by_id("tt"), Err(StoreError::NotFound));
    assert_eq!(store.find_by_id("tt11"), Err(StoreError::NotFound));
    assert_eq!(store.find_by_id(""), Err(StoreError::NotFound));
}

#[test]
fn find_by_title_gives_every_match_in_order() {
    let mut store = MemoryStore::new(false);
    store.insert(meta("tt1", "Dune")).unwrap();
    store.insert(meta("tt2", "Heat")).unwrap();
    store.insert(meta("tt3", "Dune")).unwrap();
    assert_eq!(store.find_by_title("Dune"), Ok(vec![movie("tt1", "Dune"), movie("tt3", "Dune")]));
    assert_eq!(store.find_by_title("Heat"), Ok(vec![movie("tt2", "Heat")]));
    assert_eq!(store.len(), 3);
}

#[test]
fn find_by_title_without_a_match_is_empty() {
    let mut store = MemoryStore::new(false);
    assert_eq!(store.find_by_title("Dune"), Ok(vec![]));
    store.insert(meta("tt1", "Dune")).unwrap();
    assert_eq!(store.find_by_title("dune"), Ok(vec![]));
}

#[test]
fn delete_by_id_removes_the_movie_inserted_latest_only() {
    let mut store = MemoryStore::new(false);
    store.insert(meta("tt1", "Older")).unwrap();
    store.insert(meta("tt2", "Two")).unwrap();
    store.insert(meta("tt1", "Newer")).unwrap();
    assert_eq!(store.delete_by_id("tt1"), Ok(movie("tt1", "Newer")));
    assert_eq!(store.list(), Ok(vec![movie("tt1", "Older"), movie("tt2", "Two")]));
    assert_eq!(store.delete_by_id("tt1"), Ok(movie("tt1", "Older")));
    assert_eq!(store.delete_by_id("tt1"), Err(StoreError::NotFound));
    assert_eq!(store.list(), Ok(vec![movie("tt2", "Two")]));
}

#[test]
fn delete_by_id_gives_what_find_by_id_gave() {
    let mut store = MemoryStore::new(false);
    store.insert(meta("tt1", "Older")).unwrap();
    store.insert(meta("tt1", "Newer")).unwrap();
    let found = store.find_by_id("tt1");
    assert_eq!(store.delete_by_id("tt1"), found);
    let found = store.find_by_id("tt1");
    assert_eq!(found, Ok(movie("tt1", "Older")));
    assert_eq!(store.delete_by_id("tt1"), found);
    assert_eq!(store.find_by_id("tt1"), Err(StoreError::NotFound));
    assert_eq!(store.delete_by_id("tt1"), Err(StoreError::NotFound));
}

#[test]
fn delete_by_id_without_a_match_changes_nothing() {
    let mut store = MemoryStore::new(false);
    store.insert(meta("tt1", "One")).unwrap();
    assert_eq!(store.delete_by_id("tt9"), Err(StoreError::NotFound));
    assert_eq!(store.len(), 1);
    assert_eq!(store.list(), Ok(vec![movie("tt1", "One")]));
}

#[test]
fn delete_by_title_removes_every_match() {
    let mut store = MemoryStore::new(false);
    store.insert(meta("tt1", "Dune")).unwrap();
    store.insert(meta("tt2", "Heat")).unwrap();
    store.insert(meta("tt3", "Dune")).unwrap();
    store.insert(meta("tt4", "Ran")).unwrap();
    assert_eq!(
        store.delete_by_title("Dune"),
        Ok(vec![movie("tt1", "Dune"), movie("tt3", "Dune")])
    );
    assert_eq!(store.list(), Ok(vec![movie("tt2", "Heat"), movie("tt4", "Ran")]));
}

#[test]
fn delete_by_title_without_a_match_is_empty_and_changes_nothing() {
    let mut store = MemoryStore::new(false);
    store.insert(meta("tt1", "Dune")).unwrap();
    assert_eq!(store.delete_by_title("Heat"), Ok(vec![]));
    assert_eq!(store.list(), Ok(vec![movie("tt1", "Dune")]));
}

#[test]
fn a_store_switched_off_fails_and_keeps_its_movies() {
    let mut store = MemoryStore::new(false);
    store.insert(meta("tt1", "Dune")).unwrap();
    store.set_available(false);
    assert!(!store.is_available());
    assert_eq!(store.list(), Err(StoreError::Unavailable));
    assert_eq!(store.find_by_id("tt1"), Err(StoreError::Unavailable));
    assert_eq!(store.find_by_title("Dune"), Err(StoreError::Unavailable));
    assert_eq!(store.insert(meta("tt2", "Heat")), Err(StoreError::Unavailable));
    assert_eq!(store.delete_by_id("tt1"), Err(StoreError::Unavailable));
    assert_eq!(store.delete_by_title("Dune"), Err(StoreError::Unavailable));
    assert_eq!(store.len(), 1);
    store.set_available(true);
    assert_eq!(store.list(), Ok(vec![movie("tt1", "Dune")]));
}

#[test]
fn a_new_catalogue_is_empty_and_reachable() {
    let mut catalogue = Catalog::new();
    assert_eq!(catalogue.len(), 0);
    assert!(catalogue.is_reachable());
    assert_eq!(catalogue.lookup_calls(), 0);
    assert_eq!(catalogue.lookup_by_id("tt1"), Err(LookupError::NotFound));
    assert_eq!(catalogue.lookup_by_title("Dune"), Err(LookupError::NotFound));
}

#[test]
fn a_lookup_gives_the_matching_entry_published_latest() {
    let mut catalogue = Catalog::new();
    catalogue.publish(meta("tt1", "Dune"));
    catalogue.publish(meta("tt2", "Heat"));
    catalogue.publish(meta("tt3", "Dune"));
    assert_eq!(catalogue.len(), 3);
    assert_eq!(catalogue.lookup_by_id("tt1"), Ok(meta("tt1", "Dune")));
    assert_eq!(catalogue.lookup_by_id("tt2"), Ok(meta("tt2", "Heat")));
    assert_eq!(catalogue.lookup_by_id("tt3"), Ok(meta("tt3", "Dune")));
    assert_eq!(catalogue.lookup_by_title("Dune"), Ok(meta("tt3", "Dune")));
    assert_eq!(catalogue.lookup_by_title("Heat"), Ok(meta("tt2", "Heat")));
    assert_eq!(catalogue.lookup_by_id("Dune"), Err(LookupError::NotFound));
    assert_eq!(catalogue.lookup_by_title("tt1"), Err(LookupError::NotFound));
    catalogue.publish(meta("tt1", "Dune: Part One"));
    assert_eq!(catalogue.lookup_by_id("tt1"), Ok(meta("tt1", "Dune: Part One")));
    assert_eq!(catalogue.lookup_by_title("Dune"), Ok(meta("tt3", "Dune")));
}

#[test]
fn every_lookup_asked_for_is_counted() {
    let mut catalogue = Catalog::new();
    catalogue.publish(meta("tt1", "Dune"));
    assert_eq!(catalogue.lookup_calls(), 0);
    catalogue.lookup_by_id("tt1").unwrap();
    assert_eq!(catalogue.lookup_calls(), 1);
    assert_eq!(catalogue.lookup_by_title("Heat"), Err(LookupError::NotFound));
    assert_eq!(catalogue.lookup_calls(), 2);
    catalogue.set_reachable(false);
    assert_eq!(catalogue.lookup_by_id("tt1"), Err(LookupError::Unreachable));
    assert_eq!(catalogue.lookup_calls(), 3);
    assert_eq!(catalogue.len(), 1);
}

#[test]
fn a_catalogue_cut_off_is_unreachable() {
    let mut catalogue = Catalog::new();
    catalogue.publish(meta("tt1", "Dune"));
    catalogue.set_reachable(false);
    assert!(!catalogue.is_reachable());
    assert_eq!(catalogue.lookup_by_id("tt1"), Err(LookupError::Unreachable));
    assert_eq!(catalogue.lookup_by_title("Dune"), Err(LookupError::Unreachable));
    catalogue.set_reachable(true);
    assert_eq!(catalogue.lookup_by_id("tt1"), Ok(meta("tt1", "Dune")));
}
