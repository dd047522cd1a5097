//! The record service: the five operations on the store, each answered with
//! a message or a status and described by a server span.

use vstd::prelude::*;
use vstd::string::StringExecFns;
use crate::movie::{
    CreateMovieRequest, CreateMovieResponse, DeleteMovieRequest, DeleteMovieResponse, Movie,
    MovieView, ReadMovieRequest, ReadMovieResponse, ReadMoviesRequest, ReadMoviesResponse,
    Request, UpdateMovieRequest, UpdateMovieResponse, fresh_id, optional_view,
};
use crate::propagation::{
    ASSURED_ROOM, extract, extracted, injected, lemma_trace_continuity, metadata_len,
};
use crate::trace::{TraceContextView, context_is_valid};
use crate::status::{Code, Status, StatusView, code_description, outcome};
use crate::store::{MovieStore, StoreError, lists};
use crate::text::{decimal, decimal_text, joined, truth, truth_text};
use crate::trace::{
    KeyValue, KeyValueView, Span, SpanEvent, SpanEventView, SpanKind, SpanView, attribute_views,
    completion_event, flag_attribute, number_attribute, plain_event, text_attribute,
};

verus! {

/// The answer to a request and the span that describes how it was handled.
#[derive(Debug)]
pub struct Traced<T> {
    pub span: Span,
    pub result: Result<T, Status>,
}

/// The status of a request that found the lock of the store poisoned.
pub open spec fn lock_error() -> StatusView {
    StatusView { code: Code::Internal, message: "Lock error"@ }
}

/// The status of a request that carries no record.
pub open spec fn no_movie_provided() -> StatusView {
    StatusView { code: Code::InvalidArgument, message: "No movie provided"@ }
}

/// The status of a request for a record that the store does not hold.
pub open spec fn movie_not_found() -> StatusView {
    StatusView { code: Code::NotFound, message: "Movie not found"@ }
}

/// The completion event of a request that was answered: it carries the
/// status `OK` and the fields of the operation.
pub open spec fn success_event(name: Seq<char>, fields: Seq<KeyValueView>) -> SpanEventView {
    completion_event(name, "OK"@, fields)
}

/// The completion event of a request that failed with `status`: it is named
/// by the message of the status and carries the description of its code.
pub open spec fn failure_event(status: StatusView, fields: Seq<KeyValueView>) -> SpanEventView {
    completion_event(status.message, code_description(status.code), fields)
}

/// The field that names the record of an operation.
pub open spec fn movie_id(id: Seq<char>) -> KeyValueView {
    text_attribute("movie.id"@, id)
}

/// The span of a request: a server span under the context that came with
/// the request, with the given name and events and no attributes. The last
/// event is the completion event of the request.
pub open spec fn server_span(
    span: SpanView,
    name: Seq<char>,
    metadata: tonic::metadata::MetadataMap,
    events: Seq<SpanEventView>,
) -> bool {
    &&& span.name == name
    &&& span.kind == SpanKind::Server
    &&& extracted(metadata, span.parent)
    &&& span.attributes == Seq::<KeyValueView>::empty()
    &&& span.events == events
}

/// The record that a create request stores: the record of the request, under
/// the fresh identifier where the request names none.
pub open spec fn record_to_create(movie: MovieView, fresh_id: Seq<char>) -> MovieView {
    if movie.id.len() == 0 {
        MovieView { id: fresh_id, ..movie }
    } else {
        movie
    }
}

/// The answer to a create request.
pub open spec fn create_result(
    poisoned: bool,
    movie: Option<MovieView>,
    fresh_id: Seq<char>,
) -> Result<Option<MovieView>, StatusView> {
    if poisoned {
        Err(lock_error())
    } else {
        match movie {
            Some(m) => Ok(Some(record_to_create(m, fresh_id))),
            None => Err(no_movie_provided()),
        }
    }
}

/// The records after a create request.
pub open spec fn create_records(
    records: Map<Seq<char>, MovieView>,
    poisoned: bool,
    movie: Option<MovieView>,
    fresh_id: Seq<char>,
) -> Map<Seq<char>, MovieView> {
    match create_result(poisoned, movie, fresh_id) {
        Ok(Some(m)) => records.insert(m.id, m),
        _ => records,
    }
}

/// The events of a create request: the note of a fresh identifier, where
/// one was needed, and the completion event.
pub open spec fn create_events(
    poisoned: bool,
    movie: Option<MovieView>,
    fresh_id: Seq<char>,
) -> Seq<SpanEventView> {
    if poisoned {
        seq![failure_event(lock_error(), Seq::empty())]
    } else {
        match movie {
            Some(m) => {
                let done = success_event(
                    "Movie created successfully"@,
                    seq![movie_id(record_to_create(m, fresh_id).id)],
                );
                if m.id.len() == 0 {
                    seq![plain_event("Generated new movie ID: "@ + fresh_id), done]
                } else {
                    seq![done]
                }
            },
            None => seq![failure_event(no_movie_provided(), Seq::empty())],
        }
    }
}

/// The answer to a request for one record.
pub open spec fn get_result(
    records: Map<Seq<char>, MovieView>,
    poisoned: bool,
    id: Seq<char>,
) -> Result<Option<MovieView>, StatusView> {
    if poisoned {
        Err(lock_error())
    } else if records.contains_key(id) {
        Ok(Some(records[id]))
    } else {
        Err(movie_not_found())
    }
}

/// The events of a request for one record: the note of the identifier, and
/// the completion event.
pub open spec fn get_events(
    records: Map<Seq<char>, MovieView>,
    poisoned: bool,
    id: Seq<char>,
) -> Seq<SpanEventView> {
    if poisoned {
        seq![failure_event(lock_error(), Seq::empty())]
    } else if records.contains_key(id) {
        seq![
            plain_event("Fetching movie with ID: "@ + id),
            success_event("Movie retrieved successfully"@, seq![movie_id(id)]),
        ]
    } else {
        seq![
            plain_event("Fetching movie with ID: "@ + id),
            failure_event(movie_not_found(), seq![movie_id(id)]),
        ]
    }
}

/// Whether `result` answers a request for all records: with a listing of the
/// records, each once, in any order.
pub open spec fn list_result(
    records: Map<Seq<char>, MovieView>,
    poisoned: bool,
    result: Result<Seq<MovieView>, StatusView>,
) -> bool {
    if poisoned {
        result == Err::<Seq<MovieView>, StatusView>(lock_error())
    } else {
        result is Ok && lists(result->Ok_0, records)
    }
}

/// The events of a request for all records that was answered with `result`:
/// the completion event, which carries the number of records.
pub open spec fn list_events(result: Result<Seq<MovieView>, StatusView>) -> Seq<SpanEventView> {
    match result {
        Ok(listing) => seq![
            success_event(
                "Retrieved "@ + decimal(listing.len()) + " movies"@,
                seq![number_attribute("movie_count"@, listing.len() as i64)],
            ),
        ],
        Err(status) => seq![failure_event(status, Seq::empty())],
    }
}

/// The answer to an update request.
pub open spec fn update_result(
    records: Map<Seq<char>, MovieView>,
    poisoned: bool,
    movie: Option<MovieView>,
) -> Result<Option<MovieView>, StatusView> {
    if poisoned {
        Err(lock_error())
    } else {
        match movie {
            Some(m) => if records.contains_key(m.id) {
                Ok(Some(m))
            } else {
                Err(movie_not_found())
            },
            None => Err(no_movie_provided()),
        }
    }
}

/// The records after an update request.
pub open spec fn update_records(
    records: Map<Seq<char>, MovieView>,
    poisoned: bool,
    movie: Option<MovieView>,
) -> Map<Seq<char>, MovieView> {
    match update_result(records, poisoned, movie) {
        Ok(Some(m)) => records.insert(m.id, m),
        _ => records,
    }
}

/// The events of an update request: the completion event.
pub open spec fn update_events(
    records: Map<Seq<char>, MovieView>,
    poisoned: bool,
    movie: Option<MovieView>,
) -> Seq<SpanEventView> {
    if poisoned {
        seq![failure_event(lock_error(), Seq::empty())]
    } else {
        match movie {
            Some(m) => if records.contains_key(m.id) {
                seq![success_event("Movie updated: "@ + m.id, seq![movie_id(m.id)])]
            } else {
                seq![
                    completion_event(
                        "Movie not found: "@ + m.id,
                        code_description(Code::NotFound),
                        seq![movie_id(m.id)],
                    ),
                ]
            },
            None => seq![failure_event(no_movie_provided(), Seq::empty())],
        }
    }
}

/// The answer to a delete request.
pub open spec fn delete_result(
    records: Map<Seq<char>, MovieView>,
    poisoned: bool,
    id: Seq<char>,
) -> Result<bool, StatusView> {
    if poisoned {
        Err(lock_error())
    } else {
        Ok(records.contains_key(id))
    }
}

/// The records after a delete request.
pub open spec fn delete_records(
    records: Map<Seq<char>, MovieView>,
    poisoned: bool,
    id: Seq<char>,
) -> Map<Seq<char>, MovieView> {
    if poisoned {
        records
    } else {
        records.remove(id)
    }
}

/// The events of a delete request: the completion event, which carries the
/// identifier and whether a record was removed.
pub open spec fn delete_events(
    records: Map<Seq<char>, MovieView>,
    poisoned: bool,
    id: Seq<char>,
) -> Seq<SpanEventView> {
    if poisoned {
        seq![failure_event(lock_error(), Seq::empty())]
    } else {
        seq![
            success_event(
                "Delete movie operation: ID = "@ + id + ", Success = "@ + truth(
                    records.contains_key(id),
                ),
                seq![movie_id(id), flag_attribute("success"@, records.contains_key(id))],
            ),
        ]
    }
}

/// The span of a request is a child of the span whose context was injected
/// into the metadata of the request: it belongs to the same trace, under
/// that span, with the same sampling decision. This holds where the injected
/// context names a span and the metadata had room for it, as the metadata of
/// a new request has.
pub proof fn lemma_span_continues_the_trace(
    before: tonic::metadata::MetadataMap,
    sent: TraceContextView,
    after: tonic::metadata::MetadataMap,
    span: SpanView,
    name: Seq<char>,
    events: Seq<SpanEventView>,
)
    requires
        context_is_valid(sent),
        metadata_len(before) + 2 <= ASSURED_ROOM,
        injected(before, sent, after),
        server_span(span, name, after, events),
    ensures
        span.parent.trace_id == sent.trace_id,
        span.parent.span_id == sent.span_id,
        span.parent.sampled == sent.sampled,
        context_is_valid(span.parent),
{
    lemma_trace_continuity(before, sent, after, span.parent);
}

/// The identifiers of the records in `movies`.
pub open spec fn ids_of(movies: Seq<MovieView>) -> Set<Seq<char>> {
    Set::new(|id: Seq<char>| exists|i: int| 0 <= i < movies.len() && (#[trigger] movies[i]).id == id)
}

/// The records that the create requests for `movies` store, where request
/// `i` finds `fresh_ids[i]` for a fresh identifier.
pub open spec fn created(movies: Seq<MovieView>, fresh_ids: Seq<Seq<char>>) -> Seq<MovieView> {
    Seq::new(movies.len(), |i: int| record_to_create(movies[i], fresh_ids[i]))
}

/// The records after the create requests for `movies` were handled one after
/// another, whichever request came first.
pub open spec fn create_all(
    records: Map<Seq<char>, MovieView>,
    movies: Seq<MovieView>,
    fresh_ids: Seq<Seq<char>>,
) -> Map<Seq<char>, MovieView>
    decreases movies.len(),
{
    if movies.len() == 0 {
        records
    } else {
        create_records(
            create_all(records, movies.drop_last(), fresh_ids.drop_last()),
            false,
            Some(movies.last()),
            fresh_ids.last(),
        )
    }
}

/// A record that was created is read back under the identifier that the
/// answer names: with the title and the genre of the request, under an
/// identifier that is not empty.
pub proof fn lemma_create_then_get(
    records: Map<Seq<char>, MovieView>,
    movie: MovieView,
    fresh_id: Seq<char>,
)
    requires
        fresh_id.len() == 36,
    ensures
        create_result(false, Some(movie), fresh_id) == Ok::<Option<MovieView>, StatusView>(
            Some(record_to_create(movie, fresh_id)),
        ),
        record_to_create(movie, fresh_id).title == movie.title,
        record_to_create(movie, fresh_id).genre == movie.genre,
        record_to_create(movie, fresh_id).id.len() > 0,
        get_result(
            create_records(records, false, Some(movie), fresh_id),
            false,
            record_to_create(movie, fresh_id).id,
        ) == Ok::<Option<MovieView>, StatusView>(Some(record_to_create(movie, fresh_id))),
{
}

/// Deleting what is not there answers `false` and leaves the records as
/// they are, so it does on every further call; and what was deleted is not
/// there any more.
pub proof fn lemma_delete_is_idempotent(records: Map<Seq<char>, MovieView>, id: Seq<char>)
    ensures
        !records.contains_key(id) ==> delete_result(records, false, id) == Ok::<bool, StatusView>(
            false,
        ) && delete_records(records, false, id) == records,
        delete_result(delete_records(records, false, id), false, id) == Ok::<bool, StatusView>(
            false,
        ),
        delete_records(delete_records(records, false, id), false, id) == delete_records(
            records,
            false,
            id,
        ),
{
    assert(records.remove(id).remove(id) =~= records.remove(id));
    if !records.contains_key(id) {
        assert(records.remove(id) =~= records);
    }
}

/// An update of a record that the store does not hold fails with the status
/// for a record that was not found, and leaves the records as they are.
pub proof fn lemma_no_phantom_update(records: Map<Seq<char>, MovieView>, movie: MovieView)
    requires
        !records.contains_key(movie.id),
    ensures
        update_result(records, false, Some(movie)) == Err::<Option<MovieView>, StatusView>(
            movie_not_found(),
        ),
        update_records(records, false, Some(movie)) == records,
{
}

/// After records were created, the store holds what it held before and the
/// identifiers of the records that were created.
pub proof fn lemma_create_all_ids(
    records: Map<Seq<char>, MovieView>,
    movies: Seq<MovieView>,
    fresh_ids: Seq<Seq<char>>,
)
    requires
        movies.len() == fresh_ids.len(),
    ensures
        create_all(records, movies, fresh_ids).dom() == records.dom().union(
            ids_of(created(movies, fresh_ids)),
        ),
    decreases movies.len(),
{
    let all = created(movies, fresh_ids);
    if movies.len() == 0 {
        assert(ids_of(all) =~= Set::<Seq<char>>::empty());
        assert(records.dom().union(ids_of(all)) =~= records.dom());
    } else {
        let front = created(movies.drop_last(), fresh_ids.drop_last());
        lemma_create_all_ids(records, movies.drop_last(), fresh_ids.drop_last());
        let last = record_to_create(movies.last(), fresh_ids.last());
        assert forall|id: Seq<char>| ids_of(all).contains(id) <==> (ids_of(front).contains(id) || id
            == last.id) by {
            if ids_of(all).contains(id) {
                let i = choose|i: int| 0 <= i < all.len() && (#[trigger] all[i]).id == id;
                if i < front.len() {
                    assert(front[i].id == id);
                }
            }
            if ids_of(front).contains(id) {
                let i = choose|i: int| 0 <= i < front.len() && (#[trigger] front[i]).id == id;
                assert(all[i].id == id);
            }
            if id == last.id {
                assert(all[all.len() - 1].id == id);
            }
        }
        assert(create_all(records, movies, fresh_ids).dom() =~= records.dom().union(ids_of(all)));
    }
}

/// A listing of the store names exactly the identifiers that the store
/// holds; after records were created in an empty store, these are the
/// identifiers of the records that were created.
pub proof fn lemma_list_is_complete(
    movies: Seq<MovieView>,
    fresh_ids: Seq<Seq<char>>,
    listing: Seq<MovieView>,
)
    requires
        movies.len() == fresh_ids.len(),
        list_result(
            create_all(Map::empty(), movies, fresh_ids),
            false,
            Ok::<Seq<MovieView>, StatusView>(listing),
        ),
    ensures
        ids_of(listing) == ids_of(created(movies, fresh_ids)),
{
    let records = create_all(Map::empty(), movies, fresh_ids);
    lemma_create_all_ids(Map::empty(), movies, fresh_ids);
    assert forall|id: Seq<char>| ids_of(listing).contains(id) <==> records.dom().contains(id) by {
        if ids_of(listing).contains(id) {
            let i = choose|i: int| 0 <= i < listing.len() && (#[trigger] listing[i]).id == id;
            assert(records.contains_key(listing[i].id));
        }
    }
    assert(ids_of(listing) =~= ids_of(created(movies, fresh_ids)));
}

/// Create requests for records with different identifiers all succeed, and
/// each record is read back afterwards, in whichever order the requests were
/// handled.
pub proof fn lemma_distinct_creates_are_kept(
    records: Map<Seq<char>, MovieView>,
    movies: Seq<MovieView>,
    fresh_ids: Seq<Seq<char>>,
)
    requires
        movies.len() == fresh_ids.len(),
        forall|i: int, j: int|
            0 <= i < movies.len() && 0 <= j < movies.len() && i != j ==> (#[trigger] created(
                movies,
                fresh_ids,
            )[i]).id != (#[trigger] created(movies, fresh_ids)[j]).id,
    ensures
        forall|i: int|
            0 <= i < movies.len() ==> create_result(false, Some(#[trigger] movies[i]), fresh_ids[i])
                is Ok,
        forall|i: int|
            0 <= i < movies.len() ==> get_result(
                create_all(records, movies, fresh_ids),
                false,
                (#[trigger] created(movies, fresh_ids)[i]).id,
            ) == Ok::<Option<MovieView>, StatusView>(Some(created(movies, fresh_ids)[i])),
    decreases movies.len(),
{
    if movies.len() > 0 {
        let all = created(movies, fresh_ids);
        let front = created(movies.drop_last(), fresh_ids.drop_last());
        assert forall|i: int, j: int|
            0 <= i < front.len() && 0 <= j < front.len() && i != j implies (#[trigger] front[i]).id
            != (#[trigger] front[j]).id by {
            assert(front[i] == all[i]);
            assert(front[j] == all[j]);
        }
        lemma_distinct_creates_are_kept(records, movies.drop_last(), fresh_ids.drop_last());
        let last = all.len() - 1;
        assert forall|i: int| 0 <= i < movies.len() implies get_result(
            create_all(records, movies, fresh_ids),
            false,
            (#[trigger] all[i]).id,
        ) == Ok::<Option<MovieView>, StatusView>(Some(all[i])) by {
            if i < last {
                assert(front[i] == all[i]);
                assert(all[i].id != all[last].id);
            }
        }
    }
}

/// The status that the service gives for a failure of the store.
fn status_of(error: StoreError) -> (status: Status)
    ensures
        status@ == match error {
            StoreError::Lock => lock_error(),
            StoreError::NotFound => movie_not_found(),
        },
{
    match error {
        StoreError::Lock => Status::internal("Lock error"),
        StoreError::NotFound => Status::not_found("Movie not found"),
    }
}

/// The field that names the record of an operation.
fn movie_id_field(id: &String) -> (fields: Vec<KeyValue>)
    ensures
        attribute_views(fields@) == seq![movie_id(id@)],
        fields@.len() == 1,
        fields@[0]@ == movie_id(id@),
{
    let mut fields: Vec<KeyValue> = Vec::new();
    fields.push(KeyValue::text("movie.id", id.clone()));
    assert(attribute_views(fields@) =~= seq![movie_id(id@)]);
    fields
}

/// No fields.
fn no_fields() -> (fields: Vec<KeyValue>)
    ensures
        attribute_views(fields@) == Seq::<KeyValueView>::empty(),
{
    let fields: Vec<KeyValue> = Vec::new();
    assert(attribute_views(fields@) =~= Seq::<KeyValueView>::empty());
    fields
}

/// Completes the span of a request that failed with `status`.
fn failed<T: View>(span: Span, status: Status, fields: Vec<KeyValue>) -> (handled: Traced<T>)
    ensures
        handled.span@ == (SpanView {
            events: span@.events.push(failure_event(status@, attribute_views(fields@))),
            ..span@
        }),
        outcome(handled.result) == Err::<T::V, StatusView>(status@),
{
    let mut span = span;
    let name = status.message().to_owned();
    span.add_event(SpanEvent::completion(name, status.code().description(), fields));
    Traced { span, result: Err(status) }
}

/// Completes the span of a request that was answered with `message`.
fn answered<T: View>(span: Span, name: String, fields: Vec<KeyValue>, message: T) -> (handled: Traced<T>)
    ensures
        handled.span@ == (SpanView {
            events: span@.events.push(success_event(name@, attribute_views(fields@))),
            ..span@
        }),
        outcome(handled.result) == Ok::<T::V, StatusView>(message@),
{
    let mut span = span;
    span.add_event(SpanEvent::completion(name, "OK".to_owned(), fields));
    Traced { span, result: Ok(message) }
}

/// The record service over its store.
pub struct MovieServiceImpl {
    store: MovieStore,
}

impl View for MovieServiceImpl {
    type V = Map<Seq<char>, MovieView>;

    closed spec fn view(&self) -> Map<Seq<char>, MovieView> {
        self.store@
    }
}

impl Default for MovieServiceImpl {
    fn default() -> (service: Self)
        ensures
            service@ == Map::<Seq<char>, MovieView>::empty(),
            !service.poisoned(),
    {
        MovieServiceImpl::new()
    }
}

impl MovieServiceImpl {
    /// Whether the lock of the store is poisoned.
    pub closed spec fn poisoned(&self) -> bool {
        self.store.poisoned()
    }

    /// Every record is kept under its own identifier, and the records are
    /// finitely many.
    pub proof fn lemma_keyed_by_id(&self)
        ensures
            self@.dom().finite(),
            forall|id: Seq<char>| self@.contains_key(id) ==> (#[trigger] self@[id]).id == id,
    {
        self.store.lemma_keyed_by_id();
    }

    /// A service without records.
    pub fn new() -> (service: Self)
        ensures
            service@ == Map::<Seq<char>, MovieView>::empty(),
            !service.poisoned(),
    {
        MovieServiceImpl { store: MovieStore::new() }
    }

    /// Marks the lock of the store as poisoned. The records stay as they
    /// are.
    pub fn poison(&mut self)
        ensures
            final(self).poisoned(),
            final(self)@ == old(self)@,
    {
        self.store.poison();
    }

    /// Whether the lock of the store is poisoned.
    pub fn is_poisoned(&self) -> (poisoned: bool)
        ensures
            poisoned == self.poisoned(),
    {
        self.store.is_poisoned()
    }

    /// Handles a create request, with `fresh_id` for the identifier of a
    /// record that comes without one.
    pub fn create_movie_with(
        &mut self,
        request: Request<CreateMovieRequest>,
        fresh_id: String,
    ) -> (handled: Traced<CreateMovieResponse>)
        ensures
            final(self).poisoned() == old(self).poisoned(),
            final(self)@ == create_records(
                old(self)@,
                old(self).poisoned(),
                optional_view(request.message.movie),
                fresh_id@,
            ),
            outcome(handled.result) == create_result(
                old(self).poisoned(),
                optional_view(request.message.movie),
                fresh_id@,
            ),
            server_span(
                handled.span@,
                "CreateMovie"@,
                request.metadata,
                create_events(
                    old(self).poisoned(),
                    optional_view(request.message.movie),
                    fresh_id@,
                ),
            ),
    {
        let parent = extract(request.metadata());
        let mut span = Span::start("CreateMovie", SpanKind::Server, parent);
        if self.store.is_poisoned() {
            return failed(span, status_of(StoreError::Lock), no_fields());
        }
        let mut movie = match request.into_inner().movie {
            Some(movie) => movie,
            None => {
                return failed(span, Status::invalid_argument("No movie provided"), no_fields());
            },
        };
        if movie.id.as_str().is_empty() {
            span.add_event(SpanEvent::plain(joined("Generated new movie ID: ", fresh_id.as_str())));
            movie.id = fresh_id;
        }
        if let Err(error) = self.store.put(movie.clone()) {
            return failed(span, status_of(error), no_fields());
        }
        let handled = answered(
            span,
            "Movie created successfully".to_owned(),
            movie_id_field(&movie.id),
            CreateMovieResponse { movie: Some(movie) },
        );
        assert(handled.span@.events =~= create_events(
            old(self).poisoned(),
            optional_view(request.message.movie),
            fresh_id@,
        ));
        handled
    }

    /// Handles a create request. A record that comes without an identifier
    /// gets a fresh random one.
    pub fn create_movie(&mut self, request: Request<CreateMovieRequest>) -> (handled: Traced<CreateMovieResponse>)
        ensures
            final(self).poisoned() == old(self).poisoned(),
            exists|fresh_id: Seq<char>|
                {
                    &&& fresh_id.len() == 36
                    &&& final(self)@ == #[trigger] create_records(
                        old(self)@,
                        old(self).poisoned(),
                        optional_view(request.message.movie),
                        fresh_id,
                    )
                    &&& outcome(handled.result) == create_result(
                        old(self).poisoned(),
                        optional_view(request.message.movie),
                        fresh_id,
                    )
                    &&& server_span(
                        handled.span@,
                        "CreateMovie"@,
                        request.metadata,
                        create_events(
                            old(self).poisoned(),
                            optional_view(request.message.movie),
                            fresh_id,
                        ),
                    )
                },
    {
        let needs_id = match &request.message.movie {
            Some(movie) => movie.id.as_str().is_empty(),
            None => false,
        };
        let fresh = if needs_id {
            fresh_id()
        } else {
            String::new()
        };
        let ghost before = self@;
        let ghost movie = optional_view(request.message.movie);
        let ghost witness = if needs_id {
            fresh@
        } else {
            Seq::new(36, |i: int| '0')
        };
        let handled = self.create_movie_with(request, fresh);
        proof {
            let poisoned = old(self).poisoned();
            assert(create_result(poisoned, movie, witness) == create_result(poisoned, movie, fresh@));
            assert(create_events(poisoned, movie, witness) == create_events(poisoned, movie, fresh@));
            assert(self@ == create_records(before, poisoned, movie, witness));
        }
        handled
    }

    /// Handles a request for the record kept under an identifier.
    pub fn get_movie(&self, request: Request<ReadMovieRequest>) -> (handled: Traced<ReadMovieResponse>)
        ensures
            outcome(handled.result) == get_result(self@, self.poisoned(), request.message.id@),
            server_span(
                handled.span@,
                "GetMovie"@,
                request.metadata,
                get_events(self@, self.poisoned(), request.message.id@),
            ),
    {
        let parent = extract(request.metadata());
        let mut span = Span::start("GetMovie", SpanKind::Server, parent);
        if self.store.is_poisoned() {
            return failed(span, status_of(StoreError::Lock), no_fields());
        }
        let id = request.into_inner().id;
        span.add_event(SpanEvent::plain(joined("Fetching movie with ID: ", id.as_str())));
        let handled = match self.store.get(&id) {
            Ok(movie) => answered(
                span,
                "Movie retrieved successfully".to_owned(),
                movie_id_field(&id),
                ReadMovieResponse { movie: Some(movie) },
            ),
            Err(error) => failed(span, status_of(error), movie_id_field(&id)),
        };
        assert(handled.span@.events =~= get_events(self@, self.poisoned(), id@));
        handled
    }

    /// Handles a request for all records.
    pub fn get_movies(&self, request: Request<ReadMoviesRequest>) -> (handled: Traced<ReadMoviesResponse>)
        ensures
            list_result(self@, self.poisoned(), outcome(handled.result)),
            server_span(
                handled.span@,
                "GetMovies"@,
                request.metadata,
                list_events(outcome(handled.result)),
            ),
    {
        let parent = extract(request.metadata());
        let span = Span::start("GetMovies", SpanKind::Server, parent);
        let handled = match self.store.list() {
            Ok(movies) => {
                let mut name = joined("Retrieved ", decimal_text(movies.len()).as_str());
                name.append(" movies");
                let mut fields: Vec<KeyValue> = Vec::new();
                fields.push(KeyValue::number("movie_count", movies.len() as i64));
                assert(attribute_views(fields@) =~= seq![
                    number_attribute("movie_count"@, movies@.len() as i64),
                ]);
                answered(span, name, fields, ReadMoviesResponse { movies })
            },
            Err(error) => failed(span, status_of(error), no_fields()),
        };
        assert(handled.span@.events =~= list_events(outcome(handled.result)));
        handled
    }

    /// Handles an update request: the record takes the place of the one kept
    /// under its identifier. An update never adds a record.
    pub fn update_movie(&mut self, request: Request<UpdateMovieRequest>) -> (handled: Traced<UpdateMovieResponse>)
        ensures
            final(self).poisoned() == old(self).poisoned(),
            final(self)@ == update_records(
                old(self)@,
                old(self).poisoned(),
                optional_view(request.message.movie),
            ),
            outcome(handled.result) == update_result(
                old(self)@,
                old(self).poisoned(),
                optional_view(request.message.movie),
            ),
            server_span(
                handled.span@,
                "UpdateMovie"@,
                request.metadata,
                update_events(
                    old(self)@,
                    old(self).poisoned(),
                    optional_view(request.message.movie),
                ),
            ),
    {
        let parent = extract(request.metadata());
        let mut span = Span::start("UpdateMovie", SpanKind::Server, parent);
        if self.store.is_poisoned() {
            return failed(span, status_of(StoreError::Lock), no_fields());
        }
        let movie = match request.into_inner().movie {
            Some(movie) => movie,
            None => {
                return failed(span, Status::invalid_argument("No movie provided"), no_fields());
            },
        };
        let known = self.store.contains(&movie.id);
        if !matches!(known, Ok(true)) {
            let status = status_of(StoreError::NotFound);
            span.add_event(
                SpanEvent::completion(
                    joined("Movie not found: ", movie.id.as_str()),
                    status.code().description(),
                    movie_id_field(&movie.id),
                ),
            );
            assert(span@.events =~= update_events(
                old(self)@,
                old(self).poisoned(),
                optional_view(request.message.movie),
            ));
            return Traced { span, result: Err(status) };
        }
        if let Err(error) = self.store.put(movie.clone()) {
            return failed(span, status_of(error), no_fields());
        }
        let handled = answered(
            span,
            joined("Movie updated: ", movie.id.as_str()),
            movie_id_field(&movie.id),
            UpdateMovieResponse { movie: Some(movie) },
        );
        assert(handled.span@.events =~= update_events(
            old(self)@,
            old(self).poisoned(),
            optional_view(request.message.movie),
        ));
        handled
    }

    /// Handles a delete request. Removing what is not there is no failure:
    /// the answer says that nothing was removed.
    pub fn delete_movie(&mut self, request: Request<DeleteMovieRequest>) -> (handled: Traced<DeleteMovieResponse>)
        ensures
            final(self).poisoned() == old(self).poisoned(),
            final(self)@ == delete_records(old(self)@, old(self).poisoned(), request.message.id@),
            outcome(handled.result) == delete_result(
                old(self)@,
                old(self).poisoned(),
                request.message.id@,
            ),
            server_span(
                handled.span@,
                "DeleteMovie"@,
                request.metadata,
                delete_events(old(self)@, old(self).poisoned(), request.message.id@),
            ),
    {
        let parent = extract(request.metadata());
        let span = Span::start("DeleteMovie", SpanKind::Server, parent);
        let id = request.into_inner().id;
        let handled = match self.store.delete(&id) {
            Ok(removed) => {
                let mut name = joined("Delete movie operation: ID = ", id.as_str());
                name.append(", Success = ");
                name.append(truth_text(removed));
                let mut fields = movie_id_field(&id);
                fields.push(KeyValue::flag("success", removed));
                assert(attribute_views(fields@) =~= seq![
                    movie_id(id@),
                    flag_attribute("success"@, removed),
                ]);
                answered(span, name, fields, DeleteMovieResponse { success: removed })
            },
            Err(error) => failed(span, status_of(error), no_fields()),
        };
        assert(handled.span@.events =~= delete_events(old(self)@, old(self).poisoned(), id@));
        handled
    }
}

} // verus!
