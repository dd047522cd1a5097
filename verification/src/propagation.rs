//! Carrying a trace context across a remote call: the context is written
//! into the metadata of the outgoing request and read back from the metadata
//! of the incoming one.

use vstd::prelude::*;
use crate::trace::{TraceContext, TraceContextView, context_is_valid, empty_context};

verus! {

/// `tonic::metadata::MetadataMap`: the metadata of a call, which carries the
/// trace context. Nothing of its inside is known but what the names below
/// say.
#[verifier::external_type_specification]
#[verifier::external_body]
pub struct ExMetadataMap(tonic::metadata::MetadataMap);

/// The text entries of a metadata map: each name under which the first value
/// is made of visible ASCII characters alone, with that value.
pub uninterp spec fn metadata_text(map: tonic::metadata::MetadataMap) -> Map<Seq<char>, Seq<char>>;

/// The number of values in a metadata map, whatever their keys.
pub uninterp spec fn metadata_len(map: tonic::metadata::MetadataMap) -> nat;

/// The header form of the vendor fields written as `trace_state`, with
/// nothing left of a text that is no list of such fields.
pub uninterp spec fn tracestate_header(trace_state: Seq<char>) -> Seq<char>;

/// The context that the `traceparent` and `tracestate` headers stand for,
/// where an empty text stands for a header that is not there.
pub uninterp spec fn extracted_context(traceparent: Seq<char>, tracestate: Seq<char>) -> TraceContextView;

/// A carrier that holds fewer values than this takes one more, whatever it
/// held before.
pub const ASSURED_ROOM: usize = 4096;

/// The key of the header that names the trace and the span.
pub open spec fn traceparent_key() -> Seq<char> {
    "traceparent"@
}

/// The key of the header that carries the vendor fields.
pub open spec fn tracestate_key() -> Seq<char> {
    "tracestate"@
}

/// `key` ends in `-bin`, as the keys of binary values do.
pub open spec fn ends_with_bin(key: Seq<char>) -> bool {
    key.len() >= 4 && key.subrange(key.len() - 4, key.len() as int) == seq!['-', 'b', 'i', 'n']
}

/// A character that a header name may hold: a letter, a digit, or one of
/// the signs ``! # $ % & ' * + - . ^ _ ` | ~``.
pub open spec fn is_name_char(c: char) -> bool {
    ('a' <= c && c <= 'z') || ('A' <= c && c <= 'Z') || ('0' <= c && c <= '9') || c == '!' || c
        == '#' || c == '$' || c == '%' || c == '&' || c == '\'' || c == '*' || c == '+' || c == '-'
        || c == '.' || c == '^' || c == '_' || c == '`' || c == '|' || c == '~'
}

/// A header name: between 1 and 65535 characters that such a name may hold.
pub open spec fn is_header_name(key: Seq<char>) -> bool {
    &&& 0 < key.len() <= 65535
    &&& forall|i: int| 0 <= i < key.len() ==> is_name_char(#[trigger] key[i])
}

/// The lower-case letter of an upper-case letter; any other character as it
/// is.
pub open spec fn lower(c: char) -> char {
    if 'A' <= c && c <= 'Z' {
        ((c as u8 + 32) as u8) as char
    } else {
        c
    }
}

/// `key` with its upper-case letters in lower case.
pub open spec fn lower_case(key: Seq<char>) -> Seq<char> {
    key.map_values(|c: char| lower(c))
}

/// A character that an ASCII metadata value may hold: a tab, or anything from
/// the space on but the delete character.
pub open spec fn is_accepted_char(c: char) -> bool {
    c == '\t' || (' ' <= c && c != '\x7f')
}

/// A visible ASCII character: a tab, or anything from the space to the tilde.
pub open spec fn is_visible_char(c: char) -> bool {
    c == '\t' || (' ' <= c && c <= '~')
}

/// A text that is accepted as an ASCII metadata value.
pub open spec fn value_is_accepted(value: Seq<char>) -> bool {
    forall|i: int| 0 <= i < value.len() ==> is_accepted_char(#[trigger] value[i])
}

/// A text that a metadata map hands back as text.
pub open spec fn value_is_visible(value: Seq<char>) -> bool {
    forall|i: int| 0 <= i < value.len() ==> is_visible_char(#[trigger] value[i])
}

/// The lower-case hexadecimal digit of `d`.
pub open spec fn hex_digit(d: int) -> char {
    if d == 0 {
        '0'
    } else if d == 1 {
        '1'
    } else if d == 2 {
        '2'
    } else if d == 3 {
        '3'
    } else if d == 4 {
        '4'
    } else if d == 5 {
        '5'
    } else if d == 6 {
        '6'
    } else if d == 7 {
        '7'
    } else if d == 8 {
        '8'
    } else if d == 9 {
        '9'
    } else if d == 10 {
        'a'
    } else if d == 11 {
        'b'
    } else if d == 12 {
        'c'
    } else if d == 13 {
        'd'
    } else if d == 14 {
        'e'
    } else {
        'f'
    }
}

/// The last `width` hexadecimal digits of `n`, most significant first.
pub open spec fn hex(n: nat, width: nat) -> Seq<char>
    decreases width,
{
    if width == 0 {
        Seq::empty()
    } else {
        hex(n / 16, (width - 1) as nat).push(hex_digit((n % 16) as int))
    }
}

/// The `traceparent` header of a span: version `00`, the trace identifier in
/// 32 digits, the span identifier in 16, and the flags, of which only the
/// sampling bit is carried.
pub open spec fn traceparent_text(trace_id: u128, span_id: u64, sampled: bool) -> Seq<char> {
    seq!['0', '0', '-'] + hex(trace_id as nat, 32) + seq!['-'] + hex(span_id as nat, 16) + seq![
        '-',
        '0',
        if sampled {
            '1'
        } else {
            '0'
        },
    ]
}

/// The `traceparent` header that is written for a span: none where one of the
/// identifiers is zero.
pub open spec fn traceparent_field(trace_id: u128, span_id: u64, sampled: bool) -> Option<Seq<char>> {
    if trace_id != 0 && span_id != 0 {
        Some(traceparent_text(trace_id, span_id, sampled))
    } else {
        None
    }
}

/// The `tracestate` header that is written for a span: none where one of the
/// identifiers is zero.
pub open spec fn tracestate_field(trace_id: u128, span_id: u64, header: Seq<char>) -> Option<Seq<char>> {
    if trace_id != 0 && span_id != 0 {
        Some(header)
    } else {
        None
    }
}

/// The name under which a carrier keeps what is set under the key written
/// as `key`: the key in lower case. There is none where `key` is no ASCII
/// metadata key: no header name, or one that ends in `-bin`.
pub open spec fn key_name(key: Seq<char>) -> Option<Seq<char>> {
    if is_header_name(key) && !ends_with_bin(lower_case(key)) {
        Some(lower_case(key))
    } else {
        None
    }
}

/// The name under which a carrier looks for the key written as `key`: the
/// key in lower case. There is none where `key` is no header name or ends in
/// `-bin` as it is written.
pub open spec fn lookup_name(key: Seq<char>) -> Option<Seq<char>> {
    if is_header_name(key) && !ends_with_bin(key) {
        Some(lower_case(key))
    } else {
        None
    }
}

/// What a carrier with the text entries `text` hands out for the key written
/// as `key`.
pub open spec fn found(text: Map<Seq<char>, Seq<char>>, key: Seq<char>) -> Option<Seq<char>> {
    match lookup_name(key) {
        Some(name) => entry(text, name),
        None => None,
    }
}

/// The text entries of a carrier after `value` was set under `key` in a
/// carrier with the text entries `text`: a key that is no ASCII key and a
/// value that is not accepted change nothing, and a value that is accepted
/// but not visible leaves no text under the key.
pub open spec fn text_after_set(
    text: Map<Seq<char>, Seq<char>>,
    key: Seq<char>,
    value: Seq<char>,
) -> Map<Seq<char>, Seq<char>> {
    match key_name(key) {
        Some(name) => if !value_is_accepted(value) {
            text
        } else if value_is_visible(value) {
            text.insert(name, value)
        } else {
            text.remove(name)
        },
        None => text,
    }
}

/// The text entries of a carrier that holds none.
pub open spec fn no_entries() -> Map<Seq<char>, Seq<char>> {
    Map::empty()
}

/// What a map holds under `key`, if anything.
pub open spec fn entry(text: Map<Seq<char>, Seq<char>>, key: Seq<char>) -> Option<Seq<char>> {
    if text.contains_key(key) {
        Some(text[key])
    } else {
        None
    }
}

/// The view of an optional text.
pub open spec fn text_view(text: Option<String>) -> Option<Seq<char>> {
    match text {
        Some(t) => Some(t@),
        None => None,
    }
}

/// A `traceparent` header that was written for a span reads back as that
/// span.
pub open spec fn reads_back(traceparent: Seq<char>, context: TraceContextView) -> bool {
    forall|trace_id: u128, span_id: u64, sampled: bool|
        trace_id != 0 && span_id != 0 && traceparent == #[trigger] traceparent_text(
            trace_id,
            span_id,
            sampled,
        ) ==> context.trace_id == trace_id && context.span_id == span_id && context.sampled
            == sampled
}

/// The text of a header: empty for a header that is not there.
pub open spec fn header_text(header: Option<Seq<char>>) -> Seq<char> {
    match header {
        Some(text) => text,
        None => Seq::empty(),
    }
}

/// `after` holds the entries of `before`.
pub open spec fn same_entries(
    before: tonic::metadata::MetadataMap,
    after: tonic::metadata::MetadataMap,
) -> bool {
    metadata_text(after) == metadata_text(before) && metadata_len(after) == metadata_len(before)
}

/// `after` is `before` with `value` set under `key`: the value stands in
/// place of what was kept under the key, so there is at most one value more.
pub open spec fn entry_set(
    before: tonic::metadata::MetadataMap,
    key: Seq<char>,
    value: Seq<char>,
    after: tonic::metadata::MetadataMap,
) -> bool {
    &&& metadata_text(after) == text_after_set(metadata_text(before), key, value)
    &&& metadata_len(after) <= metadata_len(before) + 1
}

/// What [`set`] makes of a carrier. An entry whose key is no ASCII metadata
/// key, or whose value is not accepted, is dropped: the carrier stays as it
/// is. Any other entry is set, unless the carrier refuses to grow, which a
/// carrier of fewer than [`ASSURED_ROOM`] values never does; a carrier that
/// refuses keeps its entries.
pub open spec fn set_outcome(
    before: tonic::metadata::MetadataMap,
    key: Seq<char>,
    value: Seq<char>,
    after: tonic::metadata::MetadataMap,
) -> bool {
    if key_name(key) is Some && value_is_accepted(value) {
        ||| entry_set(before, key, value, after)
        ||| (metadata_len(before) >= ASSURED_ROOM && same_entries(before, after))
    } else {
        after == before
    }
}

/// `tonic::metadata::MetadataMap::new`: the new map is empty.
pub assume_specification[ tonic::metadata::MetadataMap::new ]() -> (map: tonic::metadata::MetadataMap)
    ensures
        metadata_text(map) == no_entries(),
        metadata_len(map) == 0,
;

/// `tonic::metadata::MetadataKey::<Ascii>::from_bytes` on the bytes of `key`,
/// and the name of the key that it makes. The function refuses what is no
/// header name, puts the name in lower case, and refuses a name that then
/// ends in `-bin`.
#[verifier::external_body]
fn ascii_key(key: &str) -> (name: Option<String>)
    ensures
        text_view(name) == key_name(key@),
{
    match tonic::metadata::AsciiMetadataKey::from_bytes(key.as_bytes()) {
        Ok(name) => Some(name.as_str().to_owned()),
        Err(_) => None,
    }
}

/// `tonic::metadata::AsciiMetadataValue::try_from(&String)`: whether the text
/// is accepted as a value. It is unless one of its bytes is a control
/// character other than the tab.
#[verifier::external_body]
fn ascii_value_accepted(value: &String) -> (accepted: bool)
    ensures
        accepted == value_is_accepted(value@),
{
    tonic::metadata::AsciiMetadataValue::try_from(value).is_ok()
}

/// `http::HeaderMap::try_insert` on the header map of the metadata map, which
/// `into_headers` and `from_headers` take out and put back, with the name and
/// the value that `HeaderName::from_bytes` and `HeaderValue::from_str` make of
/// the arguments. The value takes the place of all values kept under the
/// key. The call refuses, and leaves the entries as they are, only where the
/// table behind the map would have to grow beyond 32768 slots; the table of a
/// map of fewer than 4096 values never has to.
#[verifier::external_body]
fn metadata_insert(map: &mut tonic::metadata::MetadataMap, key: &str, value: &String) -> (inserted: bool)
    requires
        key_name(key@) is Some,
        value_is_accepted(value@),
    ensures
        inserted ==> entry_set(*old(map), key@, value@, *final(map)),
        !inserted ==> same_entries(*old(map), *final(map)),
        metadata_len(*old(map)) < ASSURED_ROOM ==> inserted,
{
    let name = tonic::codegen::http::HeaderName::from_bytes(key.as_bytes()).unwrap();
    let text = tonic::codegen::http::HeaderValue::from_str(value.as_str()).unwrap();
    let mut headers = std::mem::take(map).into_headers();
    let inserted = headers.try_insert(name, text).is_ok();
    *map = tonic::metadata::MetadataMap::from_headers(headers);
    inserted
}

/// `tonic::metadata::MetadataMap::get` with the key as text, and `to_str` on
/// the value found. The map looks under the key in lower case, and finds
/// nothing for a key that is no header name or ends in `-bin` as it is
/// written; the value that it finds is the first under the name, and is text
/// where it is made of visible ASCII characters alone.
#[verifier::external_body]
fn metadata_get(map: &tonic::metadata::MetadataMap, key: &str) -> (text: Option<String>)
    ensures
        text_view(text) == found(metadata_text(*map), key@),
{
    match map.get(key) {
        Some(value) => match value.to_str() {
            Ok(text) => Some(text.to_owned()),
            Err(_) => None,
        },
        None => None,
    }
}

/// `TraceContextPropagator::inject_context` of `opentelemetry_sdk`, for a
/// context that carries the span made of the arguments, into an empty
/// `HashMap`. The result is what the map then holds under `traceparent` and
/// under `tracestate`: nothing for a span with a zero identifier, else the
/// header `00-<trace id>-<span id>-<flags>` and the vendor fields as
/// `TraceState::header` writes them.
#[verifier::external_body]
fn propagator_inject(trace_id: u128, span_id: u64, sampled: bool, trace_state: &str) -> (fields: (Option<String>, Option<String>))
    ensures
        text_view(fields.0) == traceparent_field(trace_id, span_id, sampled),
        text_view(fields.1) == tracestate_field(trace_id, span_id, tracestate_header(trace_state@)),
{
    let state: opentelemetry::trace::TraceState = trace_state.parse().unwrap_or_default();
    let flags = opentelemetry::trace::TraceFlags::new(sampled.into());
    let span = opentelemetry::trace::SpanContext::new(trace_id.into(), span_id.into(), flags, true, state);
    let context = opentelemetry::trace::TraceContextExt::with_remote_span_context(&opentelemetry::Context::new(), span);
    let mut carrier = std::collections::HashMap::<String, String>::new();
    opentelemetry::propagation::TextMapPropagator::inject_context(&opentelemetry_sdk::propagation::TraceContextPropagator::new(), &context, &mut carrier);
    (carrier.remove("traceparent"), carrier.remove("tracestate"))
}

/// `TraceContextPropagator::extract_with_context` of `opentelemetry_sdk`, on
/// an empty context and a `HashMap` that holds the two headers, and the span
/// context of the result. The function yields the empty context unless the
/// `traceparent` header parses to a span with two non-zero identifiers, and it
/// reads a header that `inject_context` wrote back to the identifiers and the
/// sampling bit that were written. It takes an empty header for one that is
/// not there.
#[verifier::external_body]
fn propagator_extract(traceparent: &str, tracestate: &str) -> (context: TraceContext)
    ensures
        context@ == extracted_context(traceparent@, tracestate@),
        traceparent@.len() == 0 ==> context@ == empty_context(),
        context_is_valid(context@) || context@ == empty_context(),
        reads_back(traceparent@, context@),
{
    let mut carrier = std::collections::HashMap::<String, String>::new();
    carrier.insert("traceparent".to_owned(), traceparent.to_owned());
    carrier.insert("tracestate".to_owned(), tracestate.to_owned());
    let found = opentelemetry::propagation::TextMapPropagator::extract_with_context(&opentelemetry_sdk::propagation::TraceContextPropagator::new(), &opentelemetry::Context::new(), &carrier);
    let span = opentelemetry::trace::TraceContextExt::span(&found);
    let span = span.span_context();
    TraceContext {
        trace_id: u128::from_be_bytes(span.trace_id().to_bytes()),
        span_id: u64::from_be_bytes(span.span_id().to_bytes()),
        sampled: span.is_sampled(),
        trace_state: span.trace_state().header(),
    }
}

/// Every digit of a hexadecimal text is a visible character.
pub proof fn lemma_hex_is_visible(n: nat, width: nat)
    ensures
        hex(n, width).len() == width,
        value_is_visible(hex(n, width)),
        value_is_accepted(hex(n, width)),
    decreases width,
{
    if width > 0 {
        lemma_hex_is_visible(n / 16, (width - 1) as nat);
    }
}

/// A `traceparent` header is accepted as a metadata value and is handed back
/// as text.
pub proof fn lemma_traceparent_is_visible(trace_id: u128, span_id: u64, sampled: bool)
    ensures
        traceparent_text(trace_id, span_id, sampled).len() == 55,
        value_is_visible(traceparent_text(trace_id, span_id, sampled)),
        value_is_accepted(traceparent_text(trace_id, span_id, sampled)),
{
    lemma_hex_is_visible(trace_id as nat, 32);
    lemma_hex_is_visible(span_id as nat, 16);
}

/// An ASCII metadata key is looked for under the name under which it is
/// kept.
pub proof fn lemma_names_agree(key: Seq<char>)
    requires
        key_name(key) is Some,
    ensures
        lookup_name(key) == key_name(key),
{
    if ends_with_bin(key) {
        let n = key.len() as int;
        assert(key.subrange(n - 4, n)[0] == '-' && key.subrange(n - 4, n)[1] == 'b' && key.subrange(
            n - 4,
            n,
        )[2] == 'i' && key.subrange(n - 4, n)[3] == 'n');
        assert(lower_case(key).subrange(n - 4, n) =~= seq!['-', 'b', 'i', 'n']);
    }
}

/// The two header keys are ASCII metadata keys, kept and looked for under
/// their own spelling, and they differ.
pub proof fn lemma_header_keys()
    ensures
        key_name(traceparent_key()) == Some(traceparent_key()),
        key_name(tracestate_key()) == Some(tracestate_key()),
        lookup_name(traceparent_key()) == Some(traceparent_key()),
        lookup_name(tracestate_key()) == Some(tracestate_key()),
        traceparent_key() != tracestate_key(),
{
    reveal_strlit("traceparent");
    reveal_strlit("tracestate");
    assert(traceparent_key().len() == 11);
    assert(tracestate_key().len() == 10);
    assert(lower_case(traceparent_key()) =~= traceparent_key());
    assert(lower_case(tracestate_key()) =~= tracestate_key());
    assert(traceparent_key().subrange(7, 11)[0] == 'r');
    assert(tracestate_key().subrange(6, 10)[0] == 't');
}

/// Sets `value` under `key` in the carrier. A key that is no ASCII metadata
/// key and a value that is not accepted are dropped, and so is an entry for
/// which the carrier refuses to grow. Nothing of this is a failure.
pub fn set(carrier: &mut tonic::metadata::MetadataMap, key: &str, value: String)
    ensures
        set_outcome(*old(carrier), key@, value@, *final(carrier)),
{
    if ascii_key(key).is_some() {
        if ascii_value_accepted(&value) {
            metadata_insert(carrier, key, &value);
        }
    }
}

/// What the carrier hands out as text for `key`: the first value under the
/// key in lower case. There is none where the carrier has no entry there, or
/// a value that is no visible ASCII text, and none for a key that is no
/// header name or ends in `-bin`.
pub fn get(carrier: &tonic::metadata::MetadataMap, key: &str) -> (text: Option<String>)
    ensures
        text_view(text) == found(metadata_text(*carrier), key@),
{
    metadata_get(carrier, key)
}

/// The text entries of a carrier after `context` was injected into a carrier
/// with the text entries `text`.
pub open spec fn text_after_inject(
    text: Map<Seq<char>, Seq<char>>,
    context: TraceContextView,
) -> Map<Seq<char>, Seq<char>> {
    text_after_set(
        text.insert(
            traceparent_key(),
            traceparent_text(context.trace_id, context.span_id, context.sampled),
        ),
        tracestate_key(),
        tracestate_header(context.trace_state),
    )
}

/// The `traceparent` header of `context` was set in `before`, which gave
/// `between`, and the `tracestate` header in `between`, which gave `after`,
/// each as [`set`] sets an entry.
pub open spec fn headers_set(
    before: tonic::metadata::MetadataMap,
    context: TraceContextView,
    between: tonic::metadata::MetadataMap,
    after: tonic::metadata::MetadataMap,
) -> bool {
    &&& set_outcome(
        before,
        traceparent_key(),
        traceparent_text(context.trace_id, context.span_id, context.sampled),
        between,
    )
    &&& set_outcome(between, tracestate_key(), tracestate_header(context.trace_state), after)
}

/// What [`inject`] makes of a carrier: for a context that names a span, the
/// two headers were set one after the other; for any other context the
/// carrier stays as it is.
pub open spec fn injected(
    before: tonic::metadata::MetadataMap,
    context: TraceContextView,
    after: tonic::metadata::MetadataMap,
) -> bool {
    if context_is_valid(context) {
        exists|between: tonic::metadata::MetadataMap|
            headers_set(before, context, between, after)
    } else {
        after == before
    }
}

/// Writes the identifiers of `context`, its sampling bit and its vendor
/// fields into the carrier, under the keys `traceparent` and `tracestate`.
/// Nothing is written for a context that names no span.
pub fn inject(context: &TraceContext, carrier: &mut tonic::metadata::MetadataMap)
    ensures
        injected(*old(carrier), context@, *final(carrier)),
{
    let fields = propagator_inject(
        context.trace_id,
        context.span_id,
        context.sampled,
        context.trace_state.as_str(),
    );
    if let Some(traceparent) = fields.0 {
        set(carrier, "traceparent", traceparent);
    }
    let ghost between = *carrier;
    if let Some(tracestate) = fields.1 {
        set(carrier, "tracestate", tracestate);
    }
    proof {
        if context_is_valid(context@) {
            assert(headers_set(*old(carrier), context@, between, *carrier));
        }
    }
}

/// What [`extract`] reads from a carrier.
pub open spec fn extracted(carrier: tonic::metadata::MetadataMap, context: TraceContextView) -> bool {
    let traceparent = header_text(found(metadata_text(carrier), traceparent_key()));
    let tracestate = header_text(found(metadata_text(carrier), tracestate_key()));
    &&& context == extracted_context(traceparent, tracestate)
    &&& traceparent.len() == 0 ==> context == empty_context()
    &&& context_is_valid(context) || context == empty_context()
    &&& reads_back(traceparent, context)
}

/// The text of a header in the carrier: empty where the carrier hands out
/// none for `key`.
fn header(carrier: &tonic::metadata::MetadataMap, key: &str) -> (text: String)
    ensures
        text@ == header_text(found(metadata_text(*carrier), key@)),
{
    match get(carrier, key) {
        Some(text) => text,
        None => String::new(),
    }
}

/// Reads the context that the carrier holds under the keys `traceparent` and
/// `tracestate`. A carrier without a well-formed `traceparent` entry gives the
/// empty context.
pub fn extract(carrier: &tonic::metadata::MetadataMap) -> (context: TraceContext)
    ensures
        extracted(*carrier, context@),
{
    proof {
        lemma_header_keys();
    }
    let traceparent = header(carrier, "traceparent");
    let tracestate = header(carrier, "tracestate");
    propagator_extract(traceparent.as_str(), tracestate.as_str())
}

/// An entry that was set is read back: after `value` was set under `key` in
/// a carrier with room for it, the carrier hands out `value` for `key`, and
/// for a key with another name what it handed out before. This holds of an
/// ASCII metadata key and a value of visible ASCII characters alone.
pub proof fn lemma_set_then_get(
    before: tonic::metadata::MetadataMap,
    key: Seq<char>,
    value: Seq<char>,
    after: tonic::metadata::MetadataMap,
)
    requires
        key_name(key) is Some,
        value_is_visible(value),
        metadata_len(before) < ASSURED_ROOM,
        set_outcome(before, key, value, after),
    ensures
        found(metadata_text(after), key) == Some(value),
        forall|other: Seq<char>|
            lookup_name(other) != lookup_name(key) ==> #[trigger] found(metadata_text(after), other)
                == found(metadata_text(before), other),
        metadata_len(after) <= metadata_len(before) + 1,
{
    lemma_names_agree(key);
    assert forall|i: int| 0 <= i < value.len() implies is_accepted_char(#[trigger] value[i]) by {
        assert(is_visible_char(value[i]));
    }
}

/// An entry that is dropped leaves the carrier as it is: a carrier without
/// entries still has none.
pub proof fn lemma_dropped_entry_changes_nothing(
    before: tonic::metadata::MetadataMap,
    key: Seq<char>,
    value: Seq<char>,
    after: tonic::metadata::MetadataMap,
)
    requires
        key_name(key) is None || !value_is_accepted(value),
        set_outcome(before, key, value, after),
    ensures
        after == before,
{
}

/// Injection into a carrier with room for two more values writes the
/// `traceparent` header of the context, whatever the carrier held.
pub proof fn lemma_inject_writes_traceparent(
    before: tonic::metadata::MetadataMap,
    context: TraceContextView,
    after: tonic::metadata::MetadataMap,
)
    requires
        context_is_valid(context),
        metadata_len(before) + 2 <= ASSURED_ROOM,
        injected(before, context, after),
    ensures
        metadata_text(after) == text_after_inject(metadata_text(before), context),
        entry(metadata_text(after), traceparent_key()) == Some(
            traceparent_text(context.trace_id, context.span_id, context.sampled),
        ),
        metadata_len(after) <= metadata_len(before) + 2,
{
    lemma_header_keys();
    lemma_traceparent_is_visible(context.trace_id, context.span_id, context.sampled);
}

/// The context that is read from a carrier into which a context was injected
/// names the same trace, the same span and the same sampling decision as the
/// context that was injected, provided that the injected context names a span
/// and the carrier had room for two more values.
pub proof fn lemma_trace_continuity(
    before: tonic::metadata::MetadataMap,
    sent: TraceContextView,
    after: tonic::metadata::MetadataMap,
    received: TraceContextView,
)
    requires
        context_is_valid(sent),
        metadata_len(before) + 2 <= ASSURED_ROOM,
        injected(before, sent, after),
        extracted(after, received),
    ensures
        received.trace_id == sent.trace_id,
        received.span_id == sent.span_id,
        received.sampled == sent.sampled,
{
    let header = traceparent_text(sent.trace_id, sent.span_id, sent.sampled);
    lemma_header_keys();
    lemma_inject_writes_traceparent(before, sent, after);
    assert(header_text(found(metadata_text(after), traceparent_key())) == header);
}

} // verus!
