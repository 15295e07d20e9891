//! What ties a span to its trace and to the collector that it is sent to.

use std::borrow::Cow;

use vstd::prelude::*;

use crate::trace::span::{Span, SpanView};

verus! {

/// The identifier shared by all spans of a trace.
#[derive(Debug, Clone, Copy, PartialEq, Eq, Hash, Structural)]
pub struct TraceId(pub u128);

impl TraceId {
    /// The identifier as a number.
    pub fn get(self) -> (id: u128)
        ensures
            id == self.0,
    {
        self.0
    }
}

/// The identifier of a span within its trace.
#[derive(Debug, Clone, Copy, PartialEq, Eq, Hash, Structural)]
pub struct SpanId(pub u64);

impl SpanId {
    /// The identifier as a number.
    pub fn get(self) -> (id: u64)
        ensures
            id == self.0,
    {
        self.0
    }
}

/// The context of a span.
///
/// `C` is the handle by which the collector is reached, such as a shared
/// reference to it. Copies of a handle lead to the same collector.
#[derive(Debug)]
pub struct SpanContext<C> {
    pub trace_id: TraceId,
    pub parent_span_id: Option<SpanId>,
    pub span_id: SpanId,
    /// Other spans that this one is related to, of this or another trace.
    pub links: Vec<(TraceId, SpanId)>,
    /// Where the span is sent, if it is sent anywhere.
    pub collector: Option<C>,
}

/// What a [`SpanContext`] stands for.
#[verifier::ext_equal]
pub struct SpanContextView<C> {
    pub trace_id: TraceId,
    pub parent_span_id: Option<SpanId>,
    pub span_id: SpanId,
    pub links: Seq<(TraceId, SpanId)>,
    pub collector: Option<C>,
}

impl<C> View for SpanContext<C> {
    type V = SpanContextView<C>;

    open spec fn view(&self) -> SpanContextView<C> {
        SpanContextView {
            trace_id: self.trace_id,
            parent_span_id: self.parent_span_id,
            span_id: self.span_id,
            links: self.links@,
            collector: self.collector,
        }
    }
}

/// `copy` is there where `handle` is, and is what cloning it may give.
pub open spec fn handle_cloned<C: Clone>(handle: Option<C>, copy: Option<C>) -> bool {
    match (handle, copy) {
        (Some(h), Some(c)) => cloned(h, c),
        (None, None) => true,
        _ => false,
    }
}

/// `child` is a new span called `name`, with the identifier `span_id`: it
/// belongs to the trace of `parent`, has `parent` as its parent, and is sent to
/// the same collector.
pub open spec fn is_child<C: Clone>(
    parent: SpanContextView<C>,
    name: Seq<char>,
    span_id: SpanId,
    child: SpanView<C>,
) -> bool {
    &&& child == SpanView::fresh(
        name,
        SpanContextView {
            trace_id: parent.trace_id,
            parent_span_id: Some(parent.span_id),
            span_id,
            links: Seq::empty(),
            collector: child.ctx.collector,
        },
    )
    &&& handle_cloned(parent.collector, child.ctx.collector)
}

impl<C> SpanContext<C> {
    /// The context of a root span of a new trace, sent to `collector`.
    ///
    /// The caller draws the identifiers.
    pub fn new(collector: C, trace_id: TraceId, span_id: SpanId) -> (ctx: SpanContext<C>)
        ensures
            ctx@ == (SpanContextView {
                trace_id,
                parent_span_id: None,
                span_id,
                links: Seq::empty(),
                collector: Some(collector),
            }),
    {
        SpanContext {
            trace_id,
            parent_span_id: None,
            span_id,
            links: Vec::new(),
            collector: Some(collector),
        }
    }
}

impl<C: Clone> SpanContext<C> {
    /// Creates a child of the span that this context describes.
    ///
    /// The caller draws the identifier of the child.
    pub fn child(&self, name: Cow<'static, str>, span_id: SpanId) -> (span: Span<C>)
        ensures
            is_child(self@, name@, span_id, span@),
    {
        let collector: Option<C> = match &self.collector {
            Some(collector) => Some(collector.clone()),
            None => None,
        };
        Span::new(
            name,
            SpanContext {
                trace_id: self.trace_id,
                parent_span_id: Some(self.span_id),
                span_id,
                links: Vec::new(),
                collector,
            },
        )
    }
}

impl<C: Clone> Clone for SpanContext<C> {
    fn clone(&self) -> (copy: SpanContext<C>)
        ensures
            copy@ == (SpanContextView { collector: copy.collector, ..self@ }),
            handle_cloned(self.collector, copy.collector),
    {
        let mut links: Vec<(TraceId, SpanId)> = Vec::new();
        let mut i: usize = 0;
        while i < self.links.len()
            invariant
                i <= self.links.len(),
                links@ == self.links@.take(i as int),
            decreases self.links.len() - i,
        {
            links.push(self.links[i]);
            assert(links@ =~= self.links@.take(i + 1));
            i += 1;
        }
        assert(links@ =~= self.links@);
        let collector: Option<C> = match &self.collector {
            Some(collector) => Some(collector.clone()),
            None => None,
        };
        SpanContext {
            trace_id: self.trace_id,
            parent_span_id: self.parent_span_id,
            span_id: self.span_id,
            links,
            collector,
        }
    }
}

/// Makes an optional context easier to work with.
pub trait SpanExt<C: Clone> {
    /// The context, if there is one.
    spec fn context(&self) -> Option<SpanContextView<C>>;

    /// A child of the span that the context describes, or `None` where there
    /// is no context.
    fn child_span(&self, name: &'static str, span_id: SpanId) -> (span: Option<Span<C>>)
        ensures
            match (self.context(), span) {
                (Some(ctx), Some(child)) => is_child(ctx, name@, span_id, child@),
                (None, None) => true,
                _ => false,
            },
    ;
}

impl<C: Clone> SpanExt<C> for Option<SpanContext<C>> {
    open spec fn context(&self) -> Option<SpanContextView<C>> {
        match *self {
            Some(ctx) => Some(ctx@),
            None => None,
        }
    }

    fn child_span(&self, name: &'static str, span_id: SpanId) -> (span: Option<Span<C>>) {
        self.as_ref().child_span(name, span_id)
    }
}

impl<'a, C: Clone> SpanExt<C> for Option<&'a SpanContext<C>> {
    open spec fn context(&self) -> Option<SpanContextView<C>> {
        match *self {
            Some(ctx) => Some(ctx@),
            None => None,
        }
    }

    fn child_span(&self, name: &'static str, span_id: SpanId) -> (span: Option<Span<C>>) {
        match self {
            Some(ctx) => Some(ctx.child(Cow::Borrowed(name), span_id)),
            None => None,
        }
    }
}

} // verus!
