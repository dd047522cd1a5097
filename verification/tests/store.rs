use movie_service::movie::Movie;
use movie_service::store::{MovieStore, StoreError};

fn movie(id: &str, title: &str, genre: &str) -> Movie {
    Movie { id: id.to_string(), title: title.to_string(), genre: genre.to_string() }
}

fn key(id: &str) -> String {
    id.to_string()
}

#[test]
fn new_store_is_empty() {
    let store = MovieStore::new();
    assert!(!store.is_poisoned());
    assert_eq!(store.list(), Ok(vec![]));
    assert_eq!(store.get(&key("a")), Err(StoreError::NotFound));
    assert_eq!(store.contains(&key("a")), Ok(false));
}

#[test]
fn put_then_get_returns_the_record() {
    let mut store = MovieStore::new();
    assert_eq!(store.put(movie("a", "Dune", "Sci-Fi")), Ok(()));
    assert_eq!(store.get(&key("a")), Ok(movie("a", "Dune", "Sci-Fi")));
    assert_eq!(store.contains(&key("a")), Ok(true));
    assert_eq!(store.get(&key("b")), Err(StoreError::NotFound));
}

#[test]
fn put_overwrites_the_record_under_the_same_id() {
    let mut store = MovieStore::new();
    store.put(movie("a", "Dune", "Sci-Fi")).unwrap();
    store.put(movie("b", "Heat", "Crime")).unwrap();
    store.put(movie("a", "Alien", "Horror")).unwrap();
    assert_eq!(store.get(&key("a")), Ok(movie("a", "Alien", "Horror")));
    assert_eq!(store.get(&key("b")), Ok(movie("b", "Heat", "Crime")));
    assert_eq!(store.list().unwrap().len(), 2);
}

#[test]
fn list_returns_every_record_once() {
    let mut store = MovieStore::new();
    store.put(movie("a", "Dune", "Sci-Fi")).unwrap();
    store.put(movie("b", "Heat", "Crime")).unwrap();
    store.put(movie("c", "Up", "Family")).unwrap();
    let mut listing = store.list().unwrap();
    listing.sort_by(|x, y| x.id.cmp(&y.id));
    assert_eq!(
        listing,
        vec![movie("a", "Dune", "Sci-Fi"), movie("b", "Heat", "Crime"), movie("c", "Up", "Family")]
    );
}

#[test]
fn delete_reports_whether_a_record_was_removed() {
    let mut store = MovieStore::new();
    store.put(movie("a", "Dune", "Sci-Fi")).unwrap();
    store.put(movie("b", "Heat", "Crime")).unwrap();
    assert_eq!(store.delete(&key("a")), Ok(true));
    assert_eq!(store.delete(&key("a")), Ok(false));
    assert_eq!(store.delete(&key("zz")), Ok(false));
    assert_eq!(store.get(&key("a")), Err(StoreError::NotFound));
    assert_eq!(store.list(), Ok(vec![movie("b", "Heat", "Crime")]));
}

#[test]
fn delete_in_the_middle_keeps_the_others() {
    let mut store = MovieStore::new();
    for id in ["a", "b", "c", "d"] {
        store.put(movie(id, id, "g")).unwrap();
    }
    assert_eq!(store.delete(&key("b")), Ok(true));
    for id in ["a", "c", "d"] {
        assert_eq!(store.get(&key(id)), Ok(movie(id, id, "g")));
    }
    assert_eq!(store.list().unwrap().len(), 3);
}

#[test]
fn a_poisoned_store_fails_every_operation() {
    let mut store = MovieStore::new();
    store.put(movie("a", "Dune", "Sci-Fi")).unwrap();
    store.poison();
    assert!(store.is_poisoned());
    assert_eq!(store.put(movie("b", "Heat", "Crime")), Err(StoreError::Lock));
    assert_eq!(store.get(&key("a")), Err(StoreError::Lock));
    assert_eq!(store.contains(&key("a")), Err(StoreError::Lock));
    assert_eq!(store.list(), Err(StoreError::Lock));
    assert_eq!(store.delete(&key("a")), Err(StoreError::Lock));
}

#[test]
fn the_empty_identifier_is_a_key_like_any_other() {
    let mut store = MovieStore::new();
    store.put(movie("", "Untitled", "None")).unwrap();
    assert_eq!(store.get(&key("")), Ok(movie("", "Untitled", "None")));
    assert_eq!(store.delete(&key("")), Ok(true));
}
