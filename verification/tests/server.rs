use movie_service::movie::{
    CreateMovieRequest, DeleteMovieRequest, Movie, ReadMovieRequest, ReadMoviesRequest, Request,
    UpdateMovieRequest,
};
use movie_service::propagation::inject;
use movie_service::server::MovieServiceImpl;
use movie_service::status::{Code, Status};
use movie_service::trace::{AttributeValue, KeyValue, Span, SpanEvent, SpanKind, TraceContext};

fn movie(id: &str, title: &str, genre: &str) -> Movie {
    Movie { id: id.to_string(), title: title.to_string(), genre: genre.to_string() }
}

fn create(movie: Movie) -> Request<CreateMovieRequest> {
    Request::new(CreateMovieRequest { movie: Some(movie) })
}

fn read(id: &str) -> Request<ReadMovieRequest> {
    Request::new(ReadMovieRequest { id: id.to_string() })
}

fn update(movie: Movie) -> Request<UpdateMovieRequest> {
    Request::new(UpdateMovieRequest { movie: Some(movie) })
}

fn delete(id: &str) -> Request<DeleteMovieRequest> {
    Request::new(DeleteMovieRequest { id: id.to_string() })
}

fn plain(name: &str) -> SpanEvent {
    SpanEvent { name: name.to_string(), attributes: vec![] }
}

fn text(key: &str, value: &str) -> KeyValue {
    KeyValue { key: key.to_string(), value: AttributeValue::Text(value.to_string()) }
}

fn done(name: &str, status: &str, fields: Vec<KeyValue>) -> SpanEvent {
    let mut attributes = vec![text("status", status)];
    attributes.extend(fields);
    SpanEvent { name: name.to_string(), attributes }
}

fn lock_failed() -> SpanEvent {
    done("Lock error", "Internal error", vec![])
}

fn no_movie() -> SpanEvent {
    done("No movie provided", "Client specified an invalid argument", vec![])
}

fn listed(count: i64) -> SpanEvent {
    let mut event = done(&format!("Retrieved {} movies", count), "OK", vec![]);
    event.attributes.push(KeyValue { key: "movie_count".to_string(), value: AttributeValue::Number(count) });
    event
}

fn deleted(id: &str, removed: bool) -> SpanEvent {
    let mut event = done(
        &format!("Delete movie operation: ID = {}, Success = {}", id, removed),
        "OK",
        vec![text("movie.id", id)],
    );
    event.attributes.push(KeyValue { key: "success".to_string(), value: AttributeValue::Flag(removed) });
    event
}

fn server_span(name: &str, events: Vec<SpanEvent>) -> Span {
    Span {
        name: name.to_string(),
        kind: SpanKind::Server,
        parent: TraceContext::empty(),
        attributes: vec![],
        events,
    }
}

#[test]
fn create_keeps_a_supplied_identifier() {
    let mut service = MovieServiceImpl::new();
    let handled = service.create_movie(create(movie("m1", "Dune", "Sci-Fi")));
    assert_eq!(handled.result.unwrap().movie, Some(movie("m1", "Dune", "Sci-Fi")));
    assert_eq!(
        handled.span,
        server_span("CreateMovie", vec![done("Movie created successfully", "OK", vec![text("movie.id", "m1")])])
    );
    let found = service.get_movie(read("m1"));
    assert_eq!(found.result.unwrap().movie, Some(movie("m1", "Dune", "Sci-Fi")));
}

#[test]
fn create_generates_an_identifier_for_an_empty_one() {
    let mut service = MovieServiceImpl::new();
    let handled = service.create_movie(create(movie("", "Dune", "Sci-Fi")));
    let created = handled.result.unwrap().movie.unwrap();
    assert_eq!(created.id.len(), 36);
    assert_eq!(created.title, "Dune");
    assert_eq!(created.genre, "Sci-Fi");
    let first = format!("Generated new movie ID: {}", created.id);
    assert_eq!(
        handled.span,
        server_span(
            "CreateMovie",
            vec![
                plain(&first),
                done("Movie created successfully", "OK", vec![text("movie.id", &created.id)])
            ]
        )
    );
    let found = service.get_movie(read(&created.id));
    assert_eq!(found.result.unwrap().movie, Some(created));
}

#[test]
fn create_generates_different_identifiers() {
    let mut service = MovieServiceImpl::new();
    let one = service.create_movie(create(movie("", "Dune", "Sci-Fi"))).result.unwrap();
    let two = service.create_movie(create(movie("", "Dune", "Sci-Fi"))).result.unwrap();
    assert_ne!(one.movie.unwrap().id, two.movie.unwrap().id);
    assert_eq!(service.get_movies(Request::new(ReadMoviesRequest {})).result.unwrap().movies.len(), 2);
}

#[test]
fn create_with_uses_the_given_identifier_only_where_needed() {
    let mut service = MovieServiceImpl::new();
    let handled = service.create_movie_with(create(movie("", "Dune", "Sci-Fi")), "fresh".to_string());
    assert_eq!(handled.result.unwrap().movie, Some(movie("fresh", "Dune", "Sci-Fi")));
    assert_eq!(
        handled.span.events,
        vec![
            plain("Generated new movie ID: fresh"),
            done("Movie created successfully", "OK", vec![text("movie.id", "fresh")])
        ]
    );
    let handled = service.create_movie_with(create(movie("own", "Heat", "Crime")), "unused".to_string());
    assert_eq!(handled.result.unwrap().movie, Some(movie("own", "Heat", "Crime")));
    assert_eq!(service.get_movie(read("unused")).result, Err(Status::not_found("Movie not found")));
}

#[test]
fn create_overwrites_a_record_with_the_same_identifier() {
    let mut service = MovieServiceImpl::new();
    service.create_movie(create(movie("m1", "Dune", "Sci-Fi")));
    service.create_movie(create(movie("m1", "Alien", "Horror")));
    assert_eq!(service.get_movie(read("m1")).result.unwrap().movie, Some(movie("m1", "Alien", "Horror")));
    assert_eq!(service.get_movies(Request::new(ReadMoviesRequest {})).result.unwrap().movies.len(), 1);
}

#[test]
fn create_without_a_record_is_an_invalid_argument() {
    let mut service = MovieServiceImpl::new();
    let handled = service.create_movie(Request::new(CreateMovieRequest { movie: None }));
    assert_eq!(handled.result, Err(Status::invalid_argument("No movie provided")));
    assert_eq!(handled.span, server_span("CreateMovie", vec![no_movie()]));
    assert!(service.get_movies(Request::new(ReadMoviesRequest {})).result.unwrap().movies.is_empty());
}

#[test]
fn get_of_an_unknown_identifier_is_not_found() {
    let service = MovieServiceImpl::new();
    let handled = service.get_movie(read("nope"));
    let status = handled.result.unwrap_err();
    assert_eq!(status.code(), Code::NotFound);
    assert_eq!(status.message(), "Movie not found");
    assert_eq!(
        handled.span,
        server_span(
            "GetMovie",
            vec![
                plain("Fetching movie with ID: nope"),
                done("Movie not found", "Some requested entity was not found", vec![text("movie.id", "nope")])
            ]
        )
    );
}

#[test]
fn get_names_its_events() {
    let mut service = MovieServiceImpl::new();
    service.create_movie(create(movie("m1", "Dune", "Sci-Fi")));
    let handled = service.get_movie(read("m1"));
    assert_eq!(
        handled.span,
        server_span(
            "GetMovie",
            vec![
                plain("Fetching movie with ID: m1"),
                done("Movie retrieved successfully", "OK", vec![text("movie.id", "m1")])
            ]
        )
    );
}

#[test]
fn list_returns_exactly_the_created_records() {
    let mut service = MovieServiceImpl::new();
    for id in ["a", "b", "c"] {
        service.create_movie(create(movie(id, "t", "g")));
    }
    let handled = service.get_movies(Request::new(ReadMoviesRequest {}));
    let mut ids: Vec<String> = handled.result.unwrap().movies.into_iter().map(|m| m.id).collect();
    ids.sort();
    assert_eq!(ids, vec!["a", "b", "c"]);
    assert_eq!(handled.span, server_span("GetMovies", vec![listed(3)]));
}

#[test]
fn list_of_an_empty_service_is_empty() {
    let service = MovieServiceImpl::new();
    let handled = service.get_movies(Request::new(ReadMoviesRequest {}));
    assert!(handled.result.unwrap().movies.is_empty());
    assert_eq!(handled.span, server_span("GetMovies", vec![listed(0)]));
}

#[test]
fn update_replaces_a_known_record() {
    let mut service = MovieServiceImpl::new();
    service.create_movie(create(movie("m1", "Dune", "Sci-Fi")));
    let handled = service.update_movie(update(movie("m1", "Dune 2", "Sci-Fi")));
    assert_eq!(handled.result.unwrap().movie, Some(movie("m1", "Dune 2", "Sci-Fi")));
    assert_eq!(
        handled.span,
        server_span("UpdateMovie", vec![done("Movie updated: m1", "OK", vec![text("movie.id", "m1")])])
    );
    assert_eq!(service.get_movie(read("m1")).result.unwrap().movie, Some(movie("m1", "Dune 2", "Sci-Fi")));
}

#[test]
fn update_of_an_unknown_record_is_not_found_and_changes_nothing() {
    let mut service = MovieServiceImpl::new();
    service.create_movie(create(movie("m1", "Dune", "Sci-Fi")));
    let handled = service.update_movie(update(movie("m2", "Heat", "Crime")));
    assert_eq!(handled.result, Err(Status::not_found("Movie not found")));
    assert_eq!(
        handled.span,
        server_span(
            "UpdateMovie",
            vec![done(
                "Movie not found: m2",
                "Some requested entity was not found",
                vec![text("movie.id", "m2")]
            )]
        )
    );
    assert_eq!(service.get_movie(read("m2")).result, Err(Status::not_found("Movie not found")));
    let listing = service.get_movies(Request::new(ReadMoviesRequest {})).result.unwrap().movies;
    assert_eq!(listing, vec![movie("m1", "Dune", "Sci-Fi")]);
}

#[test]
fn update_without_a_record_is_an_invalid_argument() {
    let mut service = MovieServiceImpl::new();
    let handled = service.update_movie(Request::new(UpdateMovieRequest { movie: None }));
    assert_eq!(handled.result, Err(Status::invalid_argument("No movie provided")));
    assert_eq!(handled.span, server_span("UpdateMovie", vec![no_movie()]));
}

#[test]
fn delete_is_idempotent() {
    let mut service = MovieServiceImpl::new();
    service.create_movie(create(movie("m1", "Dune", "Sci-Fi")));
    let handled = service.delete_movie(delete("m1"));
    assert!(handled.result.unwrap().success);
    assert_eq!(handled.span, server_span("DeleteMovie", vec![deleted("m1", true)]));
    for _ in 0..3 {
        let handled = service.delete_movie(delete("m1"));
        assert!(!handled.result.unwrap().success);
        assert_eq!(handled.span, server_span("DeleteMovie", vec![deleted("m1", false)]));
    }
    assert!(!service.delete_movie(delete("never")).result.unwrap().success);
}

#[test]
fn distinct_creates_are_all_kept_in_any_order() {
    let ids: Vec<String> = (0..50).map(|i| format!("id-{}", i)).collect();
    let mut forward = MovieServiceImpl::new();
    let mut backward = MovieServiceImpl::new();
    for id in ids.iter() {
        assert!(forward.create_movie(create(movie(id, id, "g"))).result.is_ok());
    }
    for id in ids.iter().rev() {
        assert!(backward.create_movie(create(movie(id, id, "g"))).result.is_ok());
    }
    for id in ids.iter() {
        assert_eq!(forward.get_movie(read(id)).result.unwrap().movie, Some(movie(id, id, "g")));
        assert_eq!(backward.get_movie(read(id)).result.unwrap().movie, Some(movie(id, id, "g")));
    }
    assert_eq!(forward.get_movies(Request::new(ReadMoviesRequest {})).result.unwrap().movies.len(), 50);
}

#[test]
fn a_poisoned_lock_is_an_internal_error() {
    let mut service = MovieServiceImpl::new();
    service.create_movie(create(movie("m1", "Dune", "Sci-Fi")));
    service.poison();
    assert!(service.is_poisoned());
    let lock_error = Status::internal("Lock error");
    let handled = service.create_movie(create(movie("m2", "Heat", "Crime")));
    assert_eq!(handled.result, Err(lock_error.clone()));
    assert_eq!(handled.span, server_span("CreateMovie", vec![lock_failed()]));
    assert_eq!(
        service.create_movie(Request::new(CreateMovieRequest { movie: None })).result,
        Err(lock_error.clone())
    );
    assert_eq!(service.get_movie(read("m1")).result, Err(lock_error.clone()));
    assert_eq!(service.get_movie(read("m1")).span, server_span("GetMovie", vec![lock_failed()]));
    assert_eq!(
        service.get_movies(Request::new(ReadMoviesRequest {})).span,
        server_span("GetMovies", vec![lock_failed()])
    );
    assert_eq!(
        service.update_movie(update(movie("m1", "x", "y"))).span,
        server_span("UpdateMovie", vec![lock_failed()])
    );
    assert_eq!(service.get_movies(Request::new(ReadMoviesRequest {})).result, Err(lock_error.clone()));
    assert_eq!(service.update_movie(update(movie("m1", "x", "y"))).result, Err(lock_error.clone()));
    assert_eq!(service.delete_movie(delete("m1")).result, Err(lock_error));
    assert_eq!(service.delete_movie(delete("m1")).span, server_span("DeleteMovie", vec![lock_failed()]));
}

#[test]
fn the_span_is_a_child_of_the_context_in_the_metadata() {
    let mut service = MovieServiceImpl::new();
    let sent = TraceContext {
        trace_id: 0x0af7_6519_16cd_43dd_8448_eb21_1c80_319c,
        span_id: 0xb7ad_6b71_6920_3331,
        sampled: true,
        trace_state: String::new(),
    };
    let mut request = create(movie("m1", "Dune", "Sci-Fi"));
    inject(&sent, &mut request.metadata);
    let handled = service.create_movie(request);
    assert_eq!(handled.span.parent, sent);
    assert_eq!(handled.span.kind, SpanKind::Server);

    let mut request = read("m1");
    inject(&sent, &mut request.metadata);
    assert_eq!(service.get_movie(request).span.parent.trace_id, sent.trace_id);

    let mut request = Request::new(ReadMoviesRequest {});
    inject(&sent, &mut request.metadata);
    assert_eq!(service.get_movies(request).span.parent, sent);

    let mut request = update(movie("m1", "Dune", "Sci-Fi"));
    inject(&sent, &mut request.metadata);
    assert_eq!(service.update_movie(request).span.parent, sent);

    let mut request = delete("m1");
    inject(&sent, &mut request.metadata);
    assert_eq!(service.delete_movie(request).span.parent, sent);
}

#[test]
fn a_request_without_trace_headers_starts_a_root_span() {
    let mut service = MovieServiceImpl::new();
    let handled = service.delete_movie(delete("m1"));
    assert!(!handled.span.parent.is_valid());
    assert_eq!(handled.span.parent, TraceContext::empty());
}
