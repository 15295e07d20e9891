//! Spans and their events.

use std::borrow::Cow;

use vstd::prelude::*;

use crate::time::{utc_now, Timestamp};
use crate::trace::ctx::{handle_cloned, is_child, SpanContext, SpanContextView, SpanId, TraceId};
use crate::trace::metadata::{clone_cow, MetaValue, Metadata};

verus! {

/// How the operation of a span ended.
#[derive(Debug, Copy, Clone, Eq, PartialEq, Structural)]
pub enum SpanStatus {
    Unknown,
    Success,
    Failure,
}

/// Something that happened during a span.
#[derive(Debug)]
pub struct SpanEvent {
    pub time: Timestamp,
    pub msg: Cow<'static, str>,
    pub metadata: Metadata,
}

/// What a [`SpanEvent`] stands for.
#[verifier::ext_equal]
pub struct SpanEventView {
    pub time: Timestamp,
    pub msg: Seq<char>,
    pub metadata: Map<Seq<char>, MetaValue>,
}

impl View for SpanEvent {
    type V = SpanEventView;

    open spec fn view(&self) -> SpanEventView {
        SpanEventView { time: self.time, msg: self.msg@, metadata: self.metadata@ }
    }
}

impl SpanEventView {
    /// An event with this message at this time, without metadata.
    pub open spec fn fresh(msg: Seq<char>, time: Timestamp) -> SpanEventView {
        SpanEventView { time, msg, metadata: Map::empty() }
    }
}

impl SpanEvent {
    /// Creates an event that happens now.
    pub fn new(msg: Cow<'static, str>) -> (event: SpanEvent)
        ensures
            event@ == SpanEventView::fresh(msg@, event.time),
            event.time.is_clock_reading(),
    {
        SpanEvent::at(msg, utc_now())
    }

    /// Creates an event that happened at `time`.
    pub fn at(msg: Cow<'static, str>, time: Timestamp) -> (event: SpanEvent)
        ensures
            event@ == SpanEventView::fresh(msg@, time),
    {
        SpanEvent { time, msg, metadata: Metadata::new() }
    }

    /// Sets a value of the metadata.
    pub fn set_metadata(&mut self, key: Cow<'static, str>, value: MetaValue)
        ensures
            final(self)@ == (SpanEventView {
                metadata: old(self)@.metadata.insert(key@, value),
                ..old(self)@
            }),
    {
        self.metadata.insert(key, value);
    }
}

impl Clone for SpanEvent {
    fn clone(&self) -> (copy: SpanEvent)
        ensures
            copy@ == self@,
    {
        SpanEvent {
            time: self.time,
            msg: clone_cow(&self.msg),
            metadata: self.metadata.clone(),
        }
    }
}

/// A representation of an interval of time spent performing some operation.
///
/// A span has a name, metadata, a start and an end time and a unique ID. It has
/// relationships with other spans that together comprise a trace.
#[derive(Debug)]
pub struct Span<C> {
    pub name: Cow<'static, str>,
    pub ctx: SpanContext<C>,
    pub start: Option<Timestamp>,
    pub end: Option<Timestamp>,
    pub status: SpanStatus,
    pub metadata: Metadata,
    pub events: Vec<SpanEvent>,
}

/// What a [`Span`] stands for.
#[verifier::ext_equal]
pub struct SpanView<C> {
    pub name: Seq<char>,
    pub ctx: SpanContextView<C>,
    pub start: Option<Timestamp>,
    pub end: Option<Timestamp>,
    pub status: SpanStatus,
    pub metadata: Map<Seq<char>, MetaValue>,
    pub events: Seq<SpanEventView>,
}

impl<C> View for Span<C> {
    type V = SpanView<C>;

    open spec fn view(&self) -> SpanView<C> {
        SpanView {
            name: self.name@,
            ctx: self.ctx@,
            start: self.start,
            end: self.end,
            status: self.status,
            metadata: self.metadata@,
            events: self.events@.map_values(|event: SpanEvent| event@),
        }
    }
}

impl<C> SpanView<C> {
    /// A span with nothing recorded on it yet.
    pub open spec fn fresh(name: Seq<char>, ctx: SpanContextView<C>) -> SpanView<C> {
        SpanView {
            name,
            ctx,
            start: None,
            end: None,
            status: SpanStatus::Unknown,
            metadata: Map::empty(),
            events: Seq::empty(),
        }
    }

    /// The span with one more event.
    pub open spec fn with_event(self, event: SpanEventView) -> SpanView<C> {
        SpanView { events: self.events.push(event), ..self }
    }

    /// The span with this status, unless it has one already.
    pub open spec fn with_status(self, status: SpanStatus) -> SpanView<C> {
        if self.status == SpanStatus::Unknown {
            SpanView { status, ..self }
        } else {
            self
        }
    }

    /// The span with a value of its metadata set.
    pub open spec fn with_metadata(self, key: Seq<char>, value: MetaValue) -> SpanView<C> {
        SpanView { metadata: self.metadata.insert(key, value), ..self }
    }

    /// The span with one more link.
    pub open spec fn with_link(self, other: SpanContextView<C>) -> SpanView<C> {
        SpanView {
            ctx: SpanContextView {
                links: self.ctx.links.push((other.trace_id, other.span_id)),
                ..self.ctx
            },
            ..self
        }
    }

    /// The span started at `now`.
    pub open spec fn started(self, now: Timestamp) -> SpanView<C> {
        SpanView { start: Some(now), ..self }
    }

    /// The span ended at `now`. It starts no later than `now` and ends no
    /// earlier, whatever the clock said before.
    pub open spec fn finished(self, now: Timestamp) -> SpanView<C> {
        SpanView {
            start: Some(
                match self.start {
                    Some(start) => start.earlier_of(now),
                    None => now,
                },
            ),
            end: Some(
                match self.end {
                    Some(end) => end.later_of(now),
                    None => now,
                },
            ),
            ..self
        }
    }

    /// The span without its collector.
    pub open spec fn detached(self) -> SpanView<C> {
        SpanView { ctx: SpanContextView { collector: None, ..self.ctx }, ..self }
    }
}

/// A span on its way to a collector.
#[derive(Debug)]
pub struct Export<C> {
    /// The collector that is to receive the span.
    pub collector: C,
    /// The span. It no longer refers to the collector.
    pub span: Span<C>,
}

/// `export` hands `span` to its collector, if and only if it has one.
pub open spec fn exports<C>(span: SpanView<C>, export: Option<Export<C>>) -> bool {
    match (span.ctx.collector, export) {
        (Some(collector), Some(e)) => e.collector == collector && e.span@ == span.detached(),
        (None, None) => true,
        _ => false,
    }
}

impl<C> Span<C> {
    /// Creates a span with the given name and context.
    pub(crate) fn new(name: Cow<'static, str>, ctx: SpanContext<C>) -> (span: Span<C>)
        ensures
            span@ == SpanView::fresh(name@, ctx@),
    {
        let span = Span {
            name,
            ctx,
            start: None,
            end: None,
            status: SpanStatus::Unknown,
            metadata: Metadata::new(),
            events: Vec::new(),
        };
        assert(span@.events =~= Seq::<SpanEventView>::empty());
        span
    }

    /// Creates a root span, the first of a new trace.
    ///
    /// The caller draws the identifiers.
    pub fn root(
        name: Cow<'static, str>,
        collector: C,
        trace_id: TraceId,
        span_id: SpanId,
    ) -> (span: Span<C>)
        ensures
            span@ == SpanView::fresh(
                name@,
                SpanContextView {
                    trace_id,
                    parent_span_id: None,
                    span_id,
                    links: Seq::empty(),
                    collector: Some(collector),
                },
            ),
    {
        let ctx = SpanContext::new(collector, trace_id, span_id);
        Span::new(name, ctx)
    }

    /// Records an event on this span.
    pub fn event(&mut self, event: SpanEvent)
        ensures
            final(self)@ == old(self)@.with_event(event@),
    {
        self.events.push(event);
        assert(self@.events =~= old(self)@.events.push(event@));
    }

    /// Records success on this span, setting the status if it isn't already
    /// set.
    pub fn ok(&mut self, msg: Cow<'static, str>)
        ensures
            ({
                let time = final(self)@.events.last().time;
                &&& time.is_clock_reading()
                &&& final(self)@ == old(self)@.with_event(
                    SpanEventView::fresh(msg@, time),
                ).with_status(SpanStatus::Success)
            }),
    {
        self.event(SpanEvent::new(msg));
        self.status(SpanStatus::Success);
    }

    /// Records an error on this span, setting the status if it isn't already
    /// set.
    pub fn error(&mut self, msg: Cow<'static, str>)
        ensures
            ({
                let time = final(self)@.events.last().time;
                &&& time.is_clock_reading()
                &&& final(self)@ == old(self)@.with_event(
                    SpanEventView::fresh(msg@, time),
                ).with_status(SpanStatus::Failure)
            }),
    {
        self.event(SpanEvent::new(msg));
        self.status(SpanStatus::Failure);
    }

    /// Sets the status of this span, if it isn't already set.
    pub fn status(&mut self, status: SpanStatus)
        ensures
            final(self)@ == old(self)@.with_status(status),
    {
        if self.status == SpanStatus::Unknown {
            self.status = status;
        }
    }

    /// Parts this span from its collector, if it has one, for the one to be
    /// sent to the other.
    pub fn export(self) -> (export: Option<Export<C>>)
        ensures
            exports(self@, export),
    {
        let mut span = self;
        match span.ctx.collector.take() {
            Some(collector) => Some(Export { collector, span }),
            None => None,
        }
    }

    /// Links this span to another context.
    pub fn link(&mut self, other: &SpanContext<C>)
        ensures
            final(self)@ == old(self)@.with_link(other@),
    {
        self.ctx.links.push((other.trace_id, other.span_id));
    }
}

impl<C: Clone> Span<C> {
    /// Creates a child span with the specified name.
    ///
    /// The created span is not exported on its own. The caller draws its
    /// identifier.
    pub fn child(&self, name: Cow<'static, str>, span_id: SpanId) -> (span: Span<C>)
        ensures
            is_child(self@.ctx, name@, span_id, span@),
    {
        self.ctx.child(name, span_id)
    }
}

impl<C: Clone> Clone for Span<C> {
    fn clone(&self) -> (copy: Span<C>)
        ensures
            copy@ == (SpanView {
                ctx: SpanContextView { collector: copy.ctx.collector, ..self@.ctx },
                ..self@
            }),
            handle_cloned(self.ctx.collector, copy.ctx.collector),
    {
        let mut events: Vec<SpanEvent> = Vec::new();
        let mut i: usize = 0;
        while i < self.events.len()
            invariant
                i <= self.events.len(),
                events.len() == i,
                forall|k: int| 0 <= k < i ==> (#[trigger] events@[k])@ == self.events@[k]@,
            decreases self.events.len() - i,
        {
            events.push(self.events[i].clone());
            i += 1;
        }
        let copy = Span {
            name: clone_cow(&self.name),
            ctx: self.ctx.clone(),
            start: self.start,
            end: self.end,
            status: self.status,
            metadata: self.metadata.clone(),
            events,
        };
        assert(copy@.events =~= self@.events);
        copy
    }
}

} // verus!
