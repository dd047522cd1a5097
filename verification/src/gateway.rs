//! The gateway: it turns each HTTP request into a call of the record
//! service, and the answer of the service into an HTTP response.
//!
//! The gateway does not make the call itself. For each operation it first
//! counts the request and describes the call and the client span around it,
//! and later, given the answer, it names the completion event and the
//! response.

use vstd::prelude::*;
use crate::metrics::{Method, Metrics, counted, encode_text};
use crate::movie::{
    CreateMovieRequest, CreateMovieResponse, DeleteMovieRequest, DeleteMovieResponse, Movie,
    MovieView, ReadMovieRequest, ReadMovieResponse, ReadMoviesRequest, ReadMoviesResponse,
    Request, UpdateMovieRequest, UpdateMovieResponse, optional_view,
};
use crate::propagation::{inject, injected, metadata_len, metadata_text, no_entries};
use crate::server::{lemma_span_continues_the_trace, server_span};
use crate::status::{Code, Status, StatusView, code_description, outcome};
use crate::trace::{
    KeyValue, KeyValueView, Span, SpanEvent, SpanEventView, SpanKind, SpanView, TraceContext,
    TraceContextView, attribute_views, completion_event, context_is_valid, empty_context,
    number_attribute, text_attribute,
};

verus! {

/// What a client sends to create or update a record.
#[derive(Debug, PartialEq, Eq)]
pub struct MovieInput {
    pub id: Option<String>,
    pub title: String,
    pub genre: String,
}

/// A record as the gateway hands it to a client.
#[derive(Debug, PartialEq, Eq)]
pub struct MovieResponse {
    pub id: String,
    pub title: String,
    pub genre: String,
}

impl View for MovieResponse {
    type V = MovieView;

    open spec fn view(&self) -> MovieView {
        MovieView { id: self.id@, title: self.title@, genre: self.genre@ }
    }
}

/// The views of a sequence of records, in the same order.
pub open spec fn response_views(movies: Seq<MovieResponse>) -> Seq<MovieView> {
    movies.map_values(|m: MovieResponse| m@)
}

/// A call that the gateway is about to make: the client span to open, and
/// the request to send once the context of that span is injected into it.
#[derive(Debug)]
pub struct Call<T> {
    pub span: Span,
    pub request: Request<T>,
}

/// The end of a call: the event that closes the client span, and what the
/// gateway makes of the answer.
#[derive(Debug)]
pub struct Completed<T> {
    pub event: SpanEvent,
    pub result: Result<T, Status>,
}

/// The attribute that every client span carries.
pub open spec fn component() -> KeyValueView {
    text_attribute("component"@, "grpc"@)
}

/// A client span at the root of a trace, with the given name and attributes
/// and no events.
pub open spec fn client_span(name: Seq<char>, attributes: Seq<KeyValueView>) -> SpanView {
    SpanView {
        name,
        kind: SpanKind::Client,
        parent: empty_context(),
        attributes,
        events: Seq::empty(),
    }
}

/// `call` opens the span `span` and sends a request without metadata.
pub open spec fn plans<T>(call: Call<T>, span: SpanView) -> bool {
    &&& call.span@ == span
    &&& metadata_text(call.request.metadata) == no_entries()
    &&& metadata_len(call.request.metadata) == 0
}

/// `after` has counted one request for `method` more than `before`.
pub open spec fn counted_one(before: Metrics, method: Method, after: Metrics) -> bool {
    &&& after.count(method) == counted(before.count(method))
    &&& forall|other: Method| other != method ==> after.count(other) == before.count(other)
}

/// The identifier under which the gateway asks for a record to be created:
/// the one of the input, or the empty one where the input has none. The
/// service gives a record that comes with the empty identifier a fresh one.
pub open spec fn id_to_send(id: Option<String>) -> Seq<char> {
    match id {
        Some(id) => id@,
        None => Seq::empty(),
    }
}

/// The word that a completion event carries for the status of an answer.
pub open spec fn status_word<T>(result: Result<T, Status>) -> Seq<char> {
    match result {
        Ok(_) => "OK"@,
        Err(status) => code_description(status@.code),
    }
}

/// The completion event of a call: its name and the status of the answer.
pub open spec fn call_completed<T>(name: Seq<char>, result: Result<T, Status>) -> SpanEventView {
    completion_event(name, status_word(result), Seq::empty())
}

/// The completion event of a request for all records: where the answer is a
/// listing, the event also carries the number of records.
pub open spec fn list_completed(result: Result<ReadMoviesResponse, Status>) -> SpanEventView {
    match result {
        Ok(response) => completion_event(
            "List movies request completed"@,
            "OK"@,
            seq![number_attribute("movie_count"@, response.movies@.len() as i64)],
        ),
        Err(_) => call_completed("List movies request completed"@, result),
    }
}

/// The status that the gateway makes of an answer that should carry a record
/// and carries none.
pub open spec fn no_movie_in_response() -> StatusView {
    StatusView { code: Code::Internal, message: "No movie in response"@ }
}

/// What the gateway hands on of an answer that should carry one record: the
/// record, the status of a call that failed, or the status for an answer
/// without a record.
pub open spec fn record_of(
    answer: Result<Option<MovieView>, StatusView>,
) -> Result<MovieView, StatusView> {
    match answer {
        Ok(Some(movie)) => Ok(movie),
        Ok(None) => Err(no_movie_in_response()),
        Err(status) => Err(status),
    }
}

/// The record service as the gateway sees it, with the request counters.
pub struct MovieService {
    metrics: Metrics,
}

impl MovieService {
    /// The request counters.
    pub closed spec fn counters(&self) -> Metrics {
        self.metrics
    }

    /// A gateway with the given request counters.
    pub fn new(metrics: Metrics) -> (service: MovieService)
        ensures
            service.counters() == metrics,
    {
        MovieService { metrics }
    }

    /// The request counters.
    pub fn metrics(&self) -> (metrics: Metrics)
        ensures
            metrics == self.counters(),
    {
        self.metrics
    }

    /// Starts the creation of a record: counts a `Post` request and plans
    /// the call. An input without an identifier is sent with the empty one.
    pub fn create_movie(&mut self, input: MovieInput) -> (call: Call<CreateMovieRequest>)
        ensures
            counted_one(old(self).counters(), Method::Post, final(self).counters()),
            plans(
                call,
                client_span(
                    "CreateMovie"@,
                    seq![
                        component(),
                        text_attribute("movie.title"@, input.title@),
                        text_attribute("movie.genre"@, input.genre@),
                    ],
                ),
            ),
            call.request.message@ == Some(
                MovieView { id: id_to_send(input.id), title: input.title@, genre: input.genre@ },
            ),
    {
        self.metrics.inc_requests(Method::Post);
        let mut span = Span::start("CreateMovie", SpanKind::Client, TraceContext::empty());
        span.set_attribute(KeyValue::text("component", "grpc".to_owned()));
        span.set_attribute(KeyValue::text("movie.title", input.title.clone()));
        span.set_attribute(KeyValue::text("movie.genre", input.genre.clone()));
        assert(span@.attributes =~= seq![
            component(),
            text_attribute("movie.title"@, input.title@),
            text_attribute("movie.genre"@, input.genre@),
        ]);
        let id = match input.id {
            Some(id) => id,
            None => String::new(),
        };
        let movie = Movie { id, title: input.title, genre: input.genre };
        Call { span, request: Request::new(CreateMovieRequest { movie: Some(movie) }) }
    }

    /// Starts the reading of one record: counts a `Get` request and plans
    /// the call.
    pub fn get_movie(&mut self, id: String) -> (call: Call<ReadMovieRequest>)
        ensures
            counted_one(old(self).counters(), Method::Get, final(self).counters()),
            plans(call, client_span("GetMovie"@, seq![component(), text_attribute("movie.id"@, id@)])),
            call.request.message.id@ == id@,
    {
        self.metrics.inc_requests(Method::Get);
        let mut span = Span::start("GetMovie", SpanKind::Client, TraceContext::empty());
        span.set_attribute(KeyValue::text("component", "grpc".to_owned()));
        span.set_attribute(KeyValue::text("movie.id", id.clone()));
        assert(span@.attributes =~= seq![component(), text_attribute("movie.id"@, id@)]);
        Call { span, request: Request::new(ReadMovieRequest { id }) }
    }

    /// Starts the reading of all records: counts a `Get` request and plans
    /// the call.
    pub fn list_movies(&mut self) -> (call: Call<ReadMoviesRequest>)
        ensures
            counted_one(old(self).counters(), Method::Get, final(self).counters()),
            plans(call, client_span("ListMovies"@, seq![component()])),
    {
        self.metrics.inc_requests(Method::Get);
        let mut span = Span::start("ListMovies", SpanKind::Client, TraceContext::empty());
        span.set_attribute(KeyValue::text("component", "grpc".to_owned()));
        Call { span, request: Request::new(ReadMoviesRequest {  }) }
    }

    /// Starts the update of the record kept under `id`: counts a `Put`
    /// request and plans the call. The identifier of the input is not used.
    pub fn update_movie(&mut self, id: String, input: MovieInput) -> (call: Call<UpdateMovieRequest>)
        ensures
            counted_one(old(self).counters(), Method::Put, final(self).counters()),
            plans(
                call,
                client_span(
                    "UpdateMovie"@,
                    seq![
                        component(),
                        text_attribute("movie.id"@, id@),
                        text_attribute("movie.title"@, input.title@),
                        text_attribute("movie.genre"@, input.genre@),
                    ],
                ),
            ),
            call.request.message@ == Some(
                MovieView { id: id@, title: input.title@, genre: input.genre@ },
            ),
    {
        self.metrics.inc_requests(Method::Put);
        let mut span = Span::start("UpdateMovie", SpanKind::Client, TraceContext::empty());
        span.set_attribute(KeyValue::text("component", "grpc".to_owned()));
        span.set_attribute(KeyValue::text("movie.id", id.clone()));
        span.set_attribute(KeyValue::text("movie.title", input.title.clone()));
        span.set_attribute(KeyValue::text("movie.genre", input.genre.clone()));
        assert(span@.attributes =~= seq![
            component(),
            text_attribute("movie.id"@, id@),
            text_attribute("movie.title"@, input.title@),
            text_attribute("movie.genre"@, input.genre@),
        ]);
        let movie = Movie { id, title: input.title, genre: input.genre };
        Call { span, request: Request::new(UpdateMovieRequest { movie: Some(movie) }) }
    }

    /// Starts the removal of the record kept under `id`: counts a `Delete`
    /// request and plans the call.
    pub fn delete_movie(&mut self, id: String) -> (call: Call<DeleteMovieRequest>)
        ensures
            counted_one(old(self).counters(), Method::Delete, final(self).counters()),
            plans(
                call,
                client_span("DeleteMovie"@, seq![component(), text_attribute("movie.id"@, id@)]),
            ),
            call.request.message.id@ == id@,
    {
        self.metrics.inc_requests(Method::Delete);
        let mut span = Span::start("DeleteMovie", SpanKind::Client, TraceContext::empty());
        span.set_attribute(KeyValue::text("component", "grpc".to_owned()));
        span.set_attribute(KeyValue::text("movie.id", id.clone()));
        assert(span@.attributes =~= seq![component(), text_attribute("movie.id"@, id@)]);
        Call { span, request: Request::new(DeleteMovieRequest { id }) }
    }

    /// Writes the context of the client span into the metadata of the
    /// request. The message stays as it is.
    pub fn inject_trace_context<T>(&self, cx: &TraceContext, request: &mut Request<T>)
        ensures
            injected(old(request).metadata, cx@, final(request).metadata),
            final(request).message == old(request).message,
    {
        inject(cx, &mut request.metadata);
    }

    /// The event that closes the client span of a call: it carries `OK` for
    /// an answer and the description of the code for a failure.
    pub fn add_completion_event<T>(&self, result: &Result<T, Status>, event_name: String) -> (event: SpanEvent)
        ensures
            event@ == call_completed(event_name@, *result),
    {
        let status = match result {
            Ok(_) => "OK".to_owned(),
            Err(status) => status.code().description(),
        };
        let fields: Vec<KeyValue> = Vec::new();
        assert(attribute_views(fields@) =~= Seq::<KeyValueView>::empty());
        SpanEvent::completion(event_name, status, fields)
    }

    /// Ends the creation of a record: hands on the record of the answer, or
    /// the status. An answer without a record is handed on as a failure.
    pub fn create_movie_completed(&self, result: Result<CreateMovieResponse, Status>) -> (done: Completed<MovieResponse>)
        ensures
            done.event@ == call_completed("Create movie request completed"@, result),
            outcome(done.result) == record_of(outcome(result)),
    {
        let event = self.add_completion_event(&result, "Create movie request completed".to_owned());
        match result {
            Ok(response) => Completed { event, result: handed_on(response.movie) },
            Err(status) => Completed { event, result: Err(status) },
        }
    }

    /// Ends the reading of one record: hands on the record of the answer,
    /// or the status. An answer without a record is handed on as a failure.
    pub fn get_movie_completed(&self, result: Result<ReadMovieResponse, Status>) -> (done: Completed<MovieResponse>)
        ensures
            done.event@ == call_completed("Get movie request completed"@, result),
            outcome(done.result) == record_of(outcome(result)),
    {
        let event = self.add_completion_event(&result, "Get movie request completed".to_owned());
        match result {
            Ok(response) => Completed { event, result: handed_on(response.movie) },
            Err(status) => Completed { event, result: Err(status) },
        }
    }

    /// Ends the reading of all records: hands on the records of the answer
    /// in their order, or the status.
    pub fn list_movies_completed(&self, result: Result<ReadMoviesResponse, Status>) -> (done: Completed<Vec<MovieResponse>>)
        ensures
            done.event@ == list_completed(result),
            match result {
                Ok(response) => done.result is Ok && response_views(done.result->Ok_0@)
                    == response@,
                Err(status) => done.result is Err && done.result->Err_0 == status,
            },
    {
        let event = match &result {
            Ok(response) => {
                let mut fields: Vec<KeyValue> = Vec::new();
                fields.push(KeyValue::number("movie_count", response.movies.len() as i64));
                assert(attribute_views(fields@) =~= seq![
                    number_attribute("movie_count"@, response.movies@.len() as i64),
                ]);
                SpanEvent::completion(
                    "List movies request completed".to_owned(),
                    "OK".to_owned(),
                    fields,
                )
            },
            Err(_) => self.add_completion_event(
                &result,
                "List movies request completed".to_owned(),
            ),
        };
        match result {
            Ok(response) => {
                let mut movies: Vec<MovieResponse> = Vec::new();
                let mut i: usize = 0;
                while i < response.movies.len()
                    invariant
                        i <= response.movies@.len(),
                        movies@.len() == i,
                        forall|j: int| 0 <= j < i ==> (#[trigger] movies@[j])@ == response.movies@[j]@,
                    decreases response.movies@.len() - i,
                {
                    movies.push(response_of(response.movies[i].clone()));
                    i += 1;
                }
                assert(response_views(movies@) =~= response@);
                Completed { event, result: Ok(movies) }
            },
            Err(status) => Completed { event, result: Err(status) },
        }
    }

    /// Ends the update of a record: hands on the record of the answer, or
    /// the status. An answer without a record is handed on as a failure.
    pub fn update_movie_completed(&self, result: Result<UpdateMovieResponse, Status>) -> (done: Completed<MovieResponse>)
        ensures
            done.event@ == call_completed("Update movie request completed"@, result),
            outcome(done.result) == record_of(outcome(result)),
    {
        let event = self.add_completion_event(&result, "Update movie request completed".to_owned());
        match result {
            Ok(response) => Completed { event, result: handed_on(response.movie) },
            Err(status) => Completed { event, result: Err(status) },
        }
    }

    /// Ends the removal of a record: hands on whether a record was removed,
    /// or the status.
    pub fn delete_movie_completed(&self, result: Result<DeleteMovieResponse, Status>) -> (done: Completed<bool>)
        ensures
            done.event@ == call_completed("Delete movie request completed"@, result),
            match result {
                Ok(response) => done.result is Ok && done.result->Ok_0 == response.success,
                Err(status) => done.result is Err && done.result->Err_0 == status,
            },
    {
        let event = self.add_completion_event(&result, "Delete movie request completed".to_owned());
        match result {
            Ok(response) => Completed { event, result: Ok(response.success) },
            Err(status) => Completed { event, result: Err(status) },
        }
    }
}

/// A record as the gateway hands it on.
fn response_of(movie: Movie) -> (response: MovieResponse)
    ensures
        response@ == movie@,
{
    MovieResponse { id: movie.id, title: movie.title, genre: movie.genre }
}

/// The record of an answer as the gateway hands it on; a failure where the
/// answer carries none.
fn handed_on(movie: Option<Movie>) -> (result: Result<MovieResponse, Status>)
    ensures
        outcome(result) == record_of(Ok(optional_view(movie))),
{
    match movie {
        Some(movie) => Ok(response_of(movie)),
        None => Err(Status::internal("No movie in response")),
    }
}

/// The service handles a call of the gateway under the span that the gateway
/// opened for it: where the gateway has planned a call and injected the
/// context of its client span into the request, the span of the service for
/// that request belongs to the same trace, under the client span, with the
/// same sampling decision. This holds of a context that names a span; for
/// any other, nothing is injected and the service starts a trace of its own.
pub proof fn lemma_call_continues_the_trace<T>(
    call: Call<T>,
    planned: SpanView,
    sent: TraceContextView,
    metadata: tonic::metadata::MetadataMap,
    served: SpanView,
    name: Seq<char>,
    events: Seq<SpanEventView>,
)
    requires
        plans(call, planned),
        context_is_valid(sent),
        injected(call.request.metadata, sent, metadata),
        server_span(served, name, metadata, events),
    ensures
        served.parent.trace_id == sent.trace_id,
        served.parent.span_id == sent.span_id,
        served.parent.sampled == sent.sampled,
{
    lemma_span_continues_the_trace(call.request.metadata, sent, metadata, served, name, events);
}

/// What a [`Body`] is in contracts.
pub enum BodyView {
    Movie(MovieView),
    Movies(Seq<MovieView>),
    Success(bool),
    Error(Seq<char>),
    Metrics(Seq<char>),
}

/// The body of a response. A client gets the first four as a JSON document:
/// a record, a list of records, the object with the field `success`, or the
/// object with the field `error`. The last is the exposition of the metrics,
/// which a client gets as it is.
#[derive(Debug, PartialEq, Eq)]
pub enum Body {
    Movie(MovieResponse),
    Movies(Vec<MovieResponse>),
    Success(bool),
    Error(String),
    Metrics(String),
}

impl View for Body {
    type V = BodyView;

    open spec fn view(&self) -> BodyView {
        match self {
            Body::Movie(movie) => BodyView::Movie(movie@),
            Body::Movies(movies) => BodyView::Movies(response_views(movies@)),
            Body::Success(success) => BodyView::Success(*success),
            Body::Error(message) => BodyView::Error(message@),
            Body::Metrics(text) => BodyView::Metrics(text@),
        }
    }
}

/// What an [`HttpResponse`] is in contracts.
pub struct HttpResponseView {
    pub status: u16,
    pub content_type: Seq<char>,
    pub body: BodyView,
}

/// The response to an HTTP request: the status code, the type of the
/// content and the body.
#[derive(Debug, PartialEq, Eq)]
pub struct HttpResponse {
    pub status: u16,
    pub content_type: String,
    pub body: Body,
}

impl View for HttpResponse {
    type V = HttpResponseView;

    open spec fn view(&self) -> HttpResponseView {
        HttpResponseView {
            status: self.status,
            content_type: self.content_type@,
            body: self.body@,
        }
    }
}

/// The status code of a response that delivers.
pub const OK: u16 = 200;

/// The status code of a response for a record that does not exist.
pub const NOT_FOUND: u16 = 404;

/// The status code of a response for any other failure.
pub const INTERNAL_SERVER_ERROR: u16 = 500;

/// The content type of a JSON document.
pub open spec fn json_type() -> Seq<char> {
    "application/json"@
}

/// The content type of the exposition of the metrics.
pub open spec fn openmetrics_type() -> Seq<char> {
    "application/openmetrics-text; version=1.0.0; charset=utf-8"@
}

/// The response with the given status code and a JSON document for its
/// body.
pub open spec fn json(status: u16, body: BodyView) -> HttpResponseView {
    HttpResponseView { status, content_type: json_type(), body }
}

/// The response for a failure: the given status code, with the message of
/// the status of the call in the field `error`.
pub open spec fn failure(code: u16, status: StatusView) -> HttpResponseView {
    json(code, BodyView::Error(status.message))
}

/// The status code for a failed read of one record: only there does the
/// gateway tell a record that does not exist from a call that failed.
pub open spec fn read_failure_code(code: Code) -> u16 {
    if code == Code::NotFound {
        NOT_FOUND
    } else {
        INTERNAL_SERVER_ERROR
    }
}

/// The response that carries the exposition `encoded`; where there is none,
/// the response for a failure, with an empty body.
pub open spec fn exposition_of(encoded: Option<Seq<char>>) -> HttpResponseView {
    match encoded {
        Some(text) => HttpResponseView {
            status: OK,
            content_type: openmetrics_type(),
            body: BodyView::Metrics(text),
        },
        None => HttpResponseView {
            status: INTERNAL_SERVER_ERROR,
            content_type: openmetrics_type(),
            body: BodyView::Metrics(Seq::empty()),
        },
    }
}

/// The response with the given status code and the given JSON body.
fn json_response(status: u16, body: Body) -> (response: HttpResponse)
    ensures
        response@ == json(status, body@),
{
    HttpResponse { status, content_type: "application/json".to_owned(), body }
}

/// The response with the given status code and `message` in the field
/// `error`.
pub fn error_response(code: u16, message: &str) -> (response: HttpResponse)
    ensures
        response@ == json(code, BodyView::Error(message@)),
{
    json_response(code, Body::Error(message.to_owned()))
}

/// The response to a request to create a record.
pub fn create_movie(result: Result<MovieResponse, Status>) -> (response: HttpResponse)
    ensures
        response@ == match result {
            Ok(movie) => json(OK, BodyView::Movie(movie@)),
            Err(status) => failure(INTERNAL_SERVER_ERROR, status@),
        },
{
    match result {
        Ok(movie) => json_response(OK, Body::Movie(movie)),
        Err(status) => error_response(INTERNAL_SERVER_ERROR, status.message()),
    }
}

/// The response to a request for one record.
pub fn get_movie(result: Result<MovieResponse, Status>) -> (response: HttpResponse)
    ensures
        response@ == match result {
            Ok(movie) => json(OK, BodyView::Movie(movie@)),
            Err(status) => failure(read_failure_code(status@.code), status@),
        },
{
    match result {
        Ok(movie) => json_response(OK, Body::Movie(movie)),
        Err(status) => {
            let code = if status.code() == Code::NotFound {
                NOT_FOUND
            } else {
                INTERNAL_SERVER_ERROR
            };
            error_response(code, status.message())
        },
    }
}

/// The response to a request for all records.
pub fn list_movies(result: Result<Vec<MovieResponse>, Status>) -> (response: HttpResponse)
    ensures
        response@ == match result {
            Ok(movies) => json(OK, BodyView::Movies(response_views(movies@))),
            Err(status) => failure(INTERNAL_SERVER_ERROR, status@),
        },
{
    match result {
        Ok(movies) => json_response(OK, Body::Movies(movies)),
        Err(status) => error_response(INTERNAL_SERVER_ERROR, status.message()),
    }
}

/// The response to a request to update a record.
pub fn update_movie(result: Result<MovieResponse, Status>) -> (response: HttpResponse)
    ensures
        response@ == match result {
            Ok(movie) => json(OK, BodyView::Movie(movie@)),
            Err(status) => failure(INTERNAL_SERVER_ERROR, status@),
        },
{
    match result {
        Ok(movie) => json_response(OK, Body::Movie(movie)),
        Err(status) => error_response(INTERNAL_SERVER_ERROR, status.message()),
    }
}

/// The response to a request to remove a record.
pub fn delete_movie(result: Result<bool, Status>) -> (response: HttpResponse)
    ensures
        response@ == match result {
            Ok(success) => json(OK, BodyView::Success(success)),
            Err(status) => failure(INTERNAL_SERVER_ERROR, status@),
        },
{
    match result {
        Ok(success) => json_response(OK, Body::Success(success)),
        Err(status) => error_response(INTERNAL_SERVER_ERROR, status.message()),
    }
}

/// The response that carries the exposition of the metrics.
pub fn exposition(encoded: Option<String>) -> (response: HttpResponse)
    ensures
        response@ == exposition_of(crate::propagation::text_view(encoded)),
{
    let content_type = "application/openmetrics-text; version=1.0.0; charset=utf-8".to_owned();
    match encoded {
        Some(text) => HttpResponse { status: OK, content_type, body: Body::Metrics(text) },
        None => HttpResponse {
            status: INTERNAL_SERVER_ERROR,
            content_type,
            body: Body::Metrics(String::new()),
        },
    }
}

/// The response to a request for the metrics: the exposition of what is
/// registered with `registry`.
pub fn metrics_handler(registry: &prometheus_client::registry::Registry) -> (response: HttpResponse)
    ensures
        exists|encoded: Option<Seq<char>>| response@ == #[trigger] exposition_of(encoded),
{
    let encoded = encode_text(registry);
    let response = exposition(encoded);
    assert(response@ == exposition_of(crate::propagation::text_view(encoded)));
    response
}

} // verus!
