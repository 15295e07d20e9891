//! A recorder that fills in a span as an operation goes on.

use std::borrow::Cow;

use vstd::prelude::*;

use crate::time::{utc_now, Timestamp};
use crate::trace::ctx::{is_child, SpanContext, SpanId};
use crate::trace::metadata::MetaValue;
use crate::trace::span::{exports, Export, Span, SpanEvent, SpanEventView, SpanStatus, SpanView};

verus! {

/// Utility for instrumenting code that produces a [`Span`].
///
/// A recorder that is created from a span sets the span's start time on
/// creation and, when it is finished, its end time, and hands the span over for
/// export.
///
/// If it is not created with a span, for instance because the request is not
/// being sampled, all operations on it do nothing.
#[derive(Debug)]
pub struct SpanRecorder<C> {
    span: Option<Span<C>>,
}

impl<C> View for SpanRecorder<C> {
    type V = Option<SpanView<C>>;

    closed spec fn view(&self) -> Option<SpanView<C>> {
        match self.span {
            Some(span) => Some(span@),
            None => None,
        }
    }
}

impl<C> Default for SpanRecorder<C> {
    /// A recorder without a span.
    fn default() -> (recorder: SpanRecorder<C>)
        ensures
            recorder@ is None,
    {
        SpanRecorder { span: None }
    }
}

impl<C> SpanRecorder<C> {
    /// Creates a recorder for `span`, which starts now.
    pub fn new(span: Option<Span<C>>) -> (recorder: SpanRecorder<C>)
        ensures
            match (span, recorder@) {
                (Some(s), Some(r)) => {
                    &&& r.start is Some
                    &&& r.start->0.is_clock_reading()
                    &&& r == s@.started(r.start->0)
                },
                (None, None) => true,
                _ => false,
            },
    {
        match span {
            Some(span) => SpanRecorder::starting_at(Some(span), utc_now()),
            None => SpanRecorder { span: None },
        }
    }

    /// Creates a recorder for `span`, which starts at `now`.
    pub fn starting_at(span: Option<Span<C>>, now: Timestamp) -> (recorder: SpanRecorder<C>)
        ensures
            recorder@ == match span {
                Some(s) => Some(s@.started(now)),
                None => None,
            },
    {
        match span {
            Some(span) => {
                let mut span = span;
                span.start = Some(now);
                SpanRecorder { span: Some(span) }
            },
            None => SpanRecorder { span: None },
        }
    }

    /// Sets a value of the metadata of the contained span, if any.
    pub fn set_metadata(&mut self, key: Cow<'static, str>, value: MetaValue)
        ensures
            final(self)@ == match old(self)@ {
                Some(span) => Some(span.with_metadata(key@, value)),
                None => None,
            },
    {
        match &mut self.span {
            Some(span) => span.metadata.insert(key, value),
            None => {},
        }
    }

    /// Records an event on the contained span, if any.
    pub fn event(&mut self, event: SpanEvent)
        ensures
            final(self)@ == match old(self)@ {
                Some(span) => Some(span.with_event(event@)),
                None => None,
            },
    {
        match &mut self.span {
            Some(span) => span.event(event),
            None => {},
        }
    }

    /// Records success on the contained span, if any.
    pub fn ok(&mut self, meta: Cow<'static, str>)
        ensures
            match (old(self)@, final(self)@) {
                (Some(before), Some(after)) => {
                    &&& after.events.last().time.is_clock_reading()
                    &&& after == before.with_event(
                        SpanEventView::fresh(meta@, after.events.last().time),
                    ).with_status(SpanStatus::Success)
                },
                (None, None) => true,
                _ => false,
            },
    {
        match &mut self.span {
            Some(span) => span.ok(meta),
            None => {},
        }
    }

    /// Records an error on the contained span, if any.
    pub fn error(&mut self, meta: Cow<'static, str>)
        ensures
            match (old(self)@, final(self)@) {
                (Some(before), Some(after)) => {
                    &&& after.events.last().time.is_clock_reading()
                    &&& after == before.with_event(
                        SpanEventView::fresh(meta@, after.events.last().time),
                    ).with_status(SpanStatus::Failure)
                },
                (None, None) => true,
                _ => false,
            },
    {
        match &mut self.span {
            Some(span) => span.error(meta),
            None => {},
        }
    }

    /// Sets the status of the contained span, if any.
    pub fn status(&mut self, status: SpanStatus)
        ensures
            final(self)@ == match old(self)@ {
                Some(span) => Some(span.with_status(status)),
                None => None,
            },
    {
        match &mut self.span {
            Some(span) => span.status(status),
            None => {},
        }
    }

    /// Takes the contents of this recorder, returning a new recorder.
    ///
    /// From this point on `self` behaves as if it were created with no span.
    pub fn take(&mut self) -> (taken: SpanRecorder<C>)
        ensures
            taken@ == old(self)@,
            final(self)@ is None,
    {
        SpanRecorder { span: self.span.take() }
    }

    /// Returns a reference to the contained span, or `None` if there is no
    /// active span.
    pub fn span(&self) -> (span: Option<&Span<C>>)
        ensures
            match (self@, span) {
                (Some(view), Some(s)) => s@ == view,
                (None, None) => true,
                _ => false,
            },
    {
        match &self.span {
            Some(span) => Some(span),
            None => None,
        }
    }

    /// Links the contained span, if any, to another context.
    pub fn link(&mut self, other: &SpanContext<C>)
        ensures
            final(self)@ == match old(self)@ {
                Some(span) => Some(span.with_link(other@)),
                None => None,
            },
    {
        match &mut self.span {
            Some(span) => span.link(other),
            None => {},
        }
    }

    /// Ends the contained span, if any, at this moment and hands it over for
    /// export. The recorder is left without a span.
    ///
    /// This is what dropping a recorder comes to.
    pub fn finish(&mut self) -> (export: Option<Export<C>>)
        ensures
            final(self)@ is None,
            match old(self)@ {
                Some(span) => exists|now: Timestamp|
                    now.is_clock_reading() && #[trigger] exports(span.finished(now), export),
                None => export is None,
            },
    {
        match self.span.take() {
            Some(span) => {
                let now = utc_now();
                let mut recorder = SpanRecorder { span: Some(span) };
                let export = recorder.finish_at(now);
                assert(exports(span@.finished(now), export));
                export
            },
            None => None,
        }
    }

    /// Ends the contained span, if any, at `now` and hands it over for export.
    /// The recorder is left without a span.
    pub fn finish_at(&mut self, now: Timestamp) -> (export: Option<Export<C>>)
        ensures
            final(self)@ is None,
            match old(self)@ {
                Some(span) => exports(span.finished(now), export),
                None => export is None,
            },
    {
        match self.span.take() {
            Some(span) => {
                let mut span = span;
                // The system clock is not monotonic, so the start is checked too.
                span.start = Some(
                    match span.start {
                        Some(start) => start.earlier(now),
                        None => now,
                    },
                );
                span.end = Some(
                    match span.end {
                        Some(end) => end.later(now),
                        None => now,
                    },
                );
                span.export()
            },
            None => None,
        }
    }
}

impl<C: Clone> SpanRecorder<C> {
    /// If this recorder has a span, creates a child of that span and returns a
    /// recorder for it. Otherwise returns a recorder without a span.
    ///
    /// The caller draws the identifier of the child.
    pub fn child(&self, name: Cow<'static, str>, span_id: SpanId) -> (recorder: SpanRecorder<C>)
        ensures
            match (self@, recorder@) {
                (Some(parent), Some(started)) => {
                    &&& started.start is Some
                    &&& started.start->0.is_clock_reading()
                    &&& is_child(parent.ctx, name@, span_id, SpanView { start: None, ..started })
                },
                (None, None) => true,
                _ => false,
            },
    {
        let child = self.child_span(name, span_id);
        SpanRecorder::new(child)
    }

    /// Returns a child span of the specified name if this recorder has an
    /// active span, `None` otherwise.
    ///
    /// The caller draws the identifier of the child.
    pub fn child_span(&self, name: Cow<'static, str>, span_id: SpanId) -> (span: Option<Span<C>>)
        ensures
            match (self@, span) {
                (Some(parent), Some(child)) => is_child(parent.ctx, name@, span_id, child@),
                (None, None) => true,
                _ => false,
            },
    {
        match &self.span {
            Some(span) => Some(span.child(name, span_id)),
            None => None,
        }
    }
}

} // verus!
