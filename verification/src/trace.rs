//! Trace context and the description of spans and their events.

use vstd::prelude::*;

verus! {

/// What a [`TraceContext`] is in contracts.
pub struct TraceContextView {
    pub trace_id: u128,
    pub span_id: u64,
    pub sampled: bool,
    pub trace_state: Seq<char>,
}

/// The identity of a span as it crosses a process boundary: the trace it
/// belongs to, the span itself, whether the trace is sampled, and the vendor
/// fields in their header form.
#[derive(Debug, PartialEq, Eq)]
pub struct TraceContext {
    pub trace_id: u128,
    pub span_id: u64,
    pub sampled: bool,
    pub trace_state: String,
}

impl View for TraceContext {
    type V = TraceContextView;

    open spec fn view(&self) -> TraceContextView {
        TraceContextView {
            trace_id: self.trace_id,
            span_id: self.span_id,
            sampled: self.sampled,
            trace_state: self.trace_state@,
        }
    }
}

impl Clone for TraceContext {
    fn clone(&self) -> (copy: Self)
        ensures
            copy@ == self@,
    {
        TraceContext {
            trace_id: self.trace_id,
            span_id: self.span_id,
            sampled: self.sampled,
            trace_state: self.trace_state.clone(),
        }
    }
}

/// The context that names no span: a span started under it is a root.
pub open spec fn empty_context() -> TraceContextView {
    TraceContextView { trace_id: 0, span_id: 0, sampled: false, trace_state: Seq::empty() }
}

/// A context names a span when neither identifier is zero.
pub open spec fn context_is_valid(context: TraceContextView) -> bool {
    context.trace_id != 0 && context.span_id != 0
}

impl TraceContext {
    /// The context that names no span.
    pub fn empty() -> (context: TraceContext)
        ensures
            context@ == empty_context(),
    {
        TraceContext { trace_id: 0, span_id: 0, sampled: false, trace_state: String::new() }
    }

    /// Whether the context names a span.
    pub fn is_valid(&self) -> (valid: bool)
        ensures
            valid == context_is_valid(self@),
    {
        self.trace_id != 0 && self.span_id != 0
    }
}

/// On which side of a remote call a span stands.
#[derive(Debug, Clone, Copy, PartialEq, Eq, Structural)]
pub enum SpanKind {
    Client,
    Server,
}

/// What an [`AttributeValue`] is in contracts.
pub enum AttributeValueView {
    Text(Seq<char>),
    Number(i64),
    Flag(bool),
}

/// The value of an attribute: a text, a number or a truth value.
#[derive(Debug, PartialEq, Eq)]
pub enum AttributeValue {
    Text(String),
    Number(i64),
    Flag(bool),
}

impl View for AttributeValue {
    type V = AttributeValueView;

    open spec fn view(&self) -> AttributeValueView {
        match self {
            AttributeValue::Text(text) => AttributeValueView::Text(text@),
            AttributeValue::Number(number) => AttributeValueView::Number(*number),
            AttributeValue::Flag(flag) => AttributeValueView::Flag(*flag),
        }
    }
}

/// What a [`KeyValue`] is in contracts.
pub struct KeyValueView {
    pub key: Seq<char>,
    pub value: AttributeValueView,
}

/// An attribute of a span or of an event.
#[derive(Debug, PartialEq, Eq)]
pub struct KeyValue {
    pub key: String,
    pub value: AttributeValue,
}

impl View for KeyValue {
    type V = KeyValueView;

    open spec fn view(&self) -> KeyValueView {
        KeyValueView { key: self.key@, value: self.value@ }
    }
}

/// The attribute `key` with the text `value`.
pub open spec fn text_attribute(key: Seq<char>, value: Seq<char>) -> KeyValueView {
    KeyValueView { key, value: AttributeValueView::Text(value) }
}

/// The attribute `key` with the number `value`.
pub open spec fn number_attribute(key: Seq<char>, value: i64) -> KeyValueView {
    KeyValueView { key, value: AttributeValueView::Number(value) }
}

/// The attribute `key` with the truth value `value`.
pub open spec fn flag_attribute(key: Seq<char>, value: bool) -> KeyValueView {
    KeyValueView { key, value: AttributeValueView::Flag(value) }
}

impl KeyValue {
    /// An attribute with a truth value for its value.
    pub fn flag(key: &str, value: bool) -> (attribute: KeyValue)
        ensures
            attribute@ == flag_attribute(key@, value),
    {
        KeyValue { key: key.to_owned(), value: AttributeValue::Flag(value) }
    }

    /// An attribute with a text for its value.
    pub fn text(key: &str, value: String) -> (attribute: KeyValue)
        ensures
            attribute@ == text_attribute(key@, value@),
    {
        KeyValue { key: key.to_owned(), value: AttributeValue::Text(value) }
    }

    /// An attribute with a number for its value.
    pub fn number(key: &str, value: i64) -> (attribute: KeyValue)
        ensures
            attribute@ == number_attribute(key@, value),
    {
        KeyValue { key: key.to_owned(), value: AttributeValue::Number(value) }
    }
}

/// The views of a sequence of attributes, in the same order.
pub open spec fn attribute_views(attributes: Seq<KeyValue>) -> Seq<KeyValueView> {
    attributes.map_values(|a: KeyValue| a@)
}

/// What a [`SpanEvent`] is in contracts.
pub struct SpanEventView {
    pub name: Seq<char>,
    pub attributes: Seq<KeyValueView>,
}

/// Something that happened while a span was open.
#[derive(Debug, PartialEq, Eq)]
pub struct SpanEvent {
    pub name: String,
    pub attributes: Vec<KeyValue>,
}

impl View for SpanEvent {
    type V = SpanEventView;

    open spec fn view(&self) -> SpanEventView {
        SpanEventView { name: self.name@, attributes: attribute_views(self.attributes@) }
    }
}

/// The event `name` without attributes.
pub open spec fn plain_event(name: Seq<char>) -> SpanEventView {
    SpanEventView { name, attributes: Seq::empty() }
}

/// The event that completes an operation: it carries the status of the
/// outcome in the attribute `status`, and after it the fields of the
/// operation.
pub open spec fn completion_event(
    name: Seq<char>,
    status: Seq<char>,
    fields: Seq<KeyValueView>,
) -> SpanEventView {
    SpanEventView { name, attributes: seq![text_attribute("status"@, status)] + fields }
}

impl SpanEvent {
    /// The event that completes an operation, with the status of the outcome
    /// and the fields of the operation.
    pub fn completion(name: String, status: String, fields: Vec<KeyValue>) -> (event: SpanEvent)
        ensures
            event@ == completion_event(name@, status@, attribute_views(fields@)),
    {
        let mut attributes = fields;
        attributes.insert(0, KeyValue::text("status", status));
        let event = SpanEvent { name, attributes };
        assert(event@.attributes =~= seq![text_attribute("status"@, status@)] + attribute_views(
            fields@,
        ));
        event
    }

    /// An event without attributes.
    pub fn plain(name: String) -> (event: SpanEvent)
        ensures
            event@ == plain_event(name@),
    {
        let event = SpanEvent { name, attributes: Vec::new() };
        assert(event@.attributes =~= Seq::empty());
        event
    }
}

/// The views of a sequence of events, in the same order.
pub open spec fn event_views(events: Seq<SpanEvent>) -> Seq<SpanEventView> {
    events.map_values(|e: SpanEvent| e@)
}

/// What a [`Span`] is in contracts.
pub struct SpanView {
    pub name: Seq<char>,
    pub kind: SpanKind,
    pub parent: TraceContextView,
    pub attributes: Seq<KeyValueView>,
    pub events: Seq<SpanEventView>,
}

/// The description of one span: what a tracer is asked to record for one
/// operation. A span whose parent is not valid is the root of a new trace.
#[derive(Debug, PartialEq, Eq)]
pub struct Span {
    pub name: String,
    pub kind: SpanKind,
    pub parent: TraceContext,
    pub attributes: Vec<KeyValue>,
    pub events: Vec<SpanEvent>,
}

impl View for Span {
    type V = SpanView;

    open spec fn view(&self) -> SpanView {
        SpanView {
            name: self.name@,
            kind: self.kind,
            parent: self.parent@,
            attributes: attribute_views(self.attributes@),
            events: event_views(self.events@),
        }
    }
}

impl Span {
    /// A span without attributes and events.
    pub fn start(name: &str, kind: SpanKind, parent: TraceContext) -> (span: Span)
        ensures
            span@ == (SpanView {
                name: name@,
                kind,
                parent: parent@,
                attributes: Seq::empty(),
                events: Seq::empty(),
            }),
    {
        let span = Span {
            name: name.to_owned(),
            kind,
            parent,
            attributes: Vec::new(),
            events: Vec::new(),
        };
        assert(span@.attributes =~= Seq::empty());
        assert(span@.events =~= Seq::empty());
        span
    }

    /// Adds an attribute after those that the span has.
    pub fn set_attribute(&mut self, attribute: KeyValue)
        ensures
            final(self)@ == (SpanView {
                attributes: old(self)@.attributes.push(attribute@),
                ..old(self)@
            }),
    {
        self.attributes.push(attribute);
        assert(final(self)@.attributes =~= old(self)@.attributes.push(attribute@));
    }

    /// Adds an event after those that the span has.
    pub fn add_event(&mut self, event: SpanEvent)
        ensures
            final(self)@ == (SpanView { events: old(self)@.events.push(event@), ..old(self)@ }),
    {
        self.events.push(event);
        assert(final(self)@.events =~= old(self)@.events.push(event@));
    }
}

} // verus!
