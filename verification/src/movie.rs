//! The record and the messages of the five operations.

use vstd::prelude::*;
use crate::propagation::{metadata_len, metadata_text, no_entries};

verus! {

/// What a [`Movie`] is in contracts: its three texts.
pub struct MovieView {
    pub id: Seq<char>,
    pub title: Seq<char>,
    pub genre: Seq<char>,
}

/// A movie record. `id` is the key under which the store keeps it.
#[derive(Debug, PartialEq, Eq)]
pub struct Movie {
    pub id: String,
    pub title: String,
    pub genre: String,
}

impl View for Movie {
    type V = MovieView;

    open spec fn view(&self) -> MovieView {
        MovieView { id: self.id@, title: self.title@, genre: self.genre@ }
    }
}

impl Clone for Movie {
    fn clone(&self) -> (copy: Self)
        ensures
            copy@ == self@,
    {
        Movie { id: self.id.clone(), title: self.title.clone(), genre: self.genre.clone() }
    }
}

/// The views of a sequence of records, in the same order.
pub open spec fn movie_views(movies: Seq<Movie>) -> Seq<MovieView> {
    movies.map_values(|m: Movie| m@)
}

/// `uuid::Uuid::new_v4` followed by `to_string`: a random identifier in the
/// hyphenated form, which has 36 characters.
#[verifier::external_body]
pub(crate) fn fresh_id() -> (id: String)
    ensures
        id@.len() == 36,
{
    uuid::Uuid::new_v4().to_string()
}

/// The view of an optional record.
pub open spec fn optional_view(movie: Option<Movie>) -> Option<MovieView> {
    match movie {
        Some(m) => Some(m@),
        None => None,
    }
}

/// A message on its way to the service, with the metadata of the call.
#[derive(Debug)]
pub struct Request<T> {
    pub metadata: tonic::metadata::MetadataMap,
    pub message: T,
}

impl<T> Request<T> {
    /// A request with the given message and no metadata.
    pub fn new(message: T) -> (request: Request<T>)
        ensures
            request.message == message,
            metadata_text(request.metadata) == no_entries(),
            metadata_len(request.metadata) == 0,
    {
        Request { metadata: tonic::metadata::MetadataMap::new(), message }
    }

    /// The metadata of the call.
    pub fn metadata(&self) -> (metadata: &tonic::metadata::MetadataMap)
        ensures
            *metadata == self.metadata,
    {
        &self.metadata
    }

    /// The message.
    pub fn get_ref(&self) -> (message: &T)
        ensures
            *message == self.message,
    {
        &self.message
    }

    /// The message, without the metadata.
    pub fn into_inner(self) -> (message: T)
        ensures
            message == self.message,
    {
        self.message
    }
}

/// Asks the service to keep a record.
#[derive(Debug, PartialEq, Eq)]
pub struct CreateMovieRequest {
    pub movie: Option<Movie>,
}

/// The record that the service kept.
#[derive(Debug, PartialEq, Eq)]
pub struct CreateMovieResponse {
    pub movie: Option<Movie>,
}

/// Asks the service for the record kept under `id`.
#[derive(Debug, PartialEq, Eq)]
pub struct ReadMovieRequest {
    pub id: String,
}

/// The record that was asked for.
#[derive(Debug, PartialEq, Eq)]
pub struct ReadMovieResponse {
    pub movie: Option<Movie>,
}

/// Asks the service for all records.
#[derive(Debug, PartialEq, Eq)]
pub struct ReadMoviesRequest {}

/// All records of the service.
#[derive(Debug, PartialEq, Eq)]
pub struct ReadMoviesResponse {
    pub movies: Vec<Movie>,
}

/// Asks the service to replace the record kept under the identifier of
/// `movie`.
#[derive(Debug, PartialEq, Eq)]
pub struct UpdateMovieRequest {
    pub movie: Option<Movie>,
}

/// The record as the service keeps it after the update.
#[derive(Debug, PartialEq, Eq)]
pub struct UpdateMovieResponse {
    pub movie: Option<Movie>,
}

/// Asks the service to remove the record kept under `id`.
#[derive(Debug, PartialEq, Eq)]
pub struct DeleteMovieRequest {
    pub id: String,
}

/// Whether a record was removed.
#[derive(Debug, PartialEq, Eq)]
pub struct DeleteMovieResponse {
    pub success: bool,
}

impl View for CreateMovieRequest {
    type V = Option<MovieView>;

    open spec fn view(&self) -> Option<MovieView> {
        optional_view(self.movie)
    }
}

impl View for UpdateMovieRequest {
    type V = Option<MovieView>;

    open spec fn view(&self) -> Option<MovieView> {
        optional_view(self.movie)
    }
}

impl View for CreateMovieResponse {
    type V = Option<MovieView>;

    open spec fn view(&self) -> Option<MovieView> {
        optional_view(self.movie)
    }
}

impl View for ReadMovieResponse {
    type V = Option<MovieView>;

    open spec fn view(&self) -> Option<MovieView> {
        optional_view(self.movie)
    }
}

impl View for ReadMoviesResponse {
    type V = Seq<MovieView>;

    open spec fn view(&self) -> Seq<MovieView> {
        movie_views(self.movies@)
    }
}

impl View for UpdateMovieResponse {
    type V = Option<MovieView>;

    open spec fn view(&self) -> Option<MovieView> {
        optional_view(self.movie)
    }
}

impl View for DeleteMovieResponse {
    type V = bool;

    open spec fn view(&self) -> bool {
        self.success
    }
}

} // verus!
