//! What holds of spans across several operations.

use vstd::prelude::*;

use crate::time::Timestamp;
use crate::trace::ctx::{is_child, SpanContextView, SpanId};
use crate::trace::metadata::MetaValue;
use crate::trace::span::{exports, Export, SpanEventView, SpanStatus, SpanView};

verus! {

/// The first status that is set stays: a later one changes nothing.
pub proof fn the_first_status_stays<C>(span: SpanView<C>, first: SpanStatus, later: SpanStatus)
    requires
        first != SpanStatus::Unknown,
    ensures
        span.with_status(first).status != SpanStatus::Unknown,
        span.with_status(first).with_status(later) == span.with_status(first),
{
}

/// Of several outcomes recorded on a span, the first decides the status, and
/// every one leaves its event.
pub proof fn the_first_outcome_decides<C>(
    span: SpanView<C>,
    first: SpanEventView,
    later: SpanEventView,
    outcome: SpanStatus,
    other: SpanStatus,
)
    requires
        span.status == SpanStatus::Unknown,
        outcome != SpanStatus::Unknown,
    ensures
        ({
            let both = span.with_event(first).with_status(outcome).with_event(later).with_status(
                other,
            );
            &&& both.status == outcome
            &&& both.events == span.events.push(first).push(later)
        }),
{
}

/// Events, metadata and links never change the status, and an event never
/// disturbs the events before it.
pub proof fn recording_keeps_what_was_recorded<C>(
    span: SpanView<C>,
    event: SpanEventView,
    key: Seq<char>,
    value: MetaValue,
    other: SpanContextView<C>,
)
    ensures
        span.with_event(event).status == span.status,
        span.with_metadata(key, value).status == span.status,
        span.with_link(other).status == span.status,
        span.with_event(event).events.drop_last() == span.events,
        span.with_event(event).events.last() == event,
        span.with_link(other).ctx.links.drop_last() == span.ctx.links,
        span.with_link(other).ctx.links.last() == (other.trace_id, other.span_id),
{
}

/// A value of the metadata reads back as it was set last, and setting it leaves
/// the values of other names alone.
pub proof fn metadata_reads_back<C>(
    span: SpanView<C>,
    key: Seq<char>,
    value: MetaValue,
    earlier: MetaValue,
    other: Seq<char>,
)
    ensures
        span.with_metadata(key, value).metadata.contains_key(key),
        span.with_metadata(key, value).metadata[key] == value,
        span.with_metadata(key, earlier).with_metadata(key, value) == span.with_metadata(
            key,
            value,
        ),
        other != key ==> {
            let after = span.with_metadata(key, value).metadata;
            &&& after.contains_key(other) == span.metadata.contains_key(other)
            &&& span.metadata.contains_key(other) ==> after[other] == span.metadata[other]
        },
{
    assert(span.metadata.insert(key, earlier).insert(key, value) =~= span.metadata.insert(
        key,
        value,
    ));
}

/// A finished span has a start and an end, the start is not after the end, and
/// the moment at which it was finished lies between the two. Neither moves
/// inwards from where it was before.
pub proof fn a_finished_span_is_an_interval<C>(span: SpanView<C>, now: Timestamp)
    ensures
        ({
            let done = span.finished(now);
            &&& done.start is Some && done.end is Some
            &&& done.start->0.at_or_before(done.end->0)
            &&& done.start->0.at_or_before(now)
            &&& now.at_or_before(done.end->0)
            &&& span.start is Some ==> done.start->0.at_or_before(span.start->0)
            &&& span.end is Some ==> span.end->0.at_or_before(done.end->0)
        }),
{
}

/// A span that is started and later finished by a clock that did not go back
/// covers exactly the time between the two readings.
pub proof fn a_steady_clock_gives_the_measured_interval<C>(
    span: SpanView<C>,
    started: Timestamp,
    ended: Timestamp,
)
    requires
        started.at_or_before(ended),
        span.end is None,
    ensures
        span.started(started).finished(ended).start == Some(started),
        span.started(started).finished(ended).end == Some(ended),
{
}

/// A span with a collector that a recorder starts and finishes is exported,
/// as an interval, and otherwise as it was.
pub proof fn a_recorded_span_is_exported<C>(
    span: SpanView<C>,
    started: Timestamp,
    ended: Timestamp,
    export: Option<Export<C>>,
)
    requires
        exports(span.started(started).finished(ended), export),
    ensures
        export is Some <==> span.ctx.collector is Some,
        export matches Some(e) ==> {
            let sent = e.span@;
            &&& span.ctx.collector == Some(e.collector)
            &&& sent.start is Some && sent.end is Some
            &&& sent.start->0.at_or_before(sent.end->0)
            &&& sent.start == Some(started.earlier_of(ended))
            &&& ended.at_or_before(sent.end->0)
            &&& sent == (SpanView { start: sent.start, end: sent.end, ..span }).detached()
        },
{
}

/// A span is exported at most once: what is handed to the collector cannot be
/// exported again.
pub proof fn an_exported_span_is_not_exported_again<C>(
    span: SpanView<C>,
    first: Option<Export<C>>,
    second: Option<Export<C>>,
)
    requires
        exports(span, first),
        first is Some,
        exports(first->0.span@, second),
    ensures
        second is None,
{
}

/// Exporting changes nothing of a span but that it no longer refers to its
/// collector.
pub proof fn an_export_keeps_the_span<C>(span: SpanView<C>, export: Option<Export<C>>)
    requires
        exports(span, export),
        export is Some,
    ensures
        ({
            let sent = export->0.span@;
            &&& span.ctx.collector == Some(export->0.collector)
            &&& sent.name == span.name
            &&& sent.ctx.trace_id == span.ctx.trace_id
            &&& sent.ctx.span_id == span.ctx.span_id
            &&& sent.ctx.parent_span_id == span.ctx.parent_span_id
            &&& sent.ctx.links == span.ctx.links
            &&& sent.start == span.start && sent.end == span.end
            &&& sent.status == span.status
            &&& sent.metadata == span.metadata
            &&& sent.events == span.events
        }),
{
}

/// Descendants stay in the trace of the span they come from, each names its
/// own parent, and each can be exported if and only if the first could.
pub proof fn descendants_stay_in_the_trace<C: Clone>(
    parent: SpanContextView<C>,
    name: Seq<char>,
    span_id: SpanId,
    child: SpanView<C>,
    name_below: Seq<char>,
    span_id_below: SpanId,
    below: SpanView<C>,
)
    requires
        is_child(parent, name, span_id, child),
        is_child(child.ctx, name_below, span_id_below, below),
    ensures
        child.ctx.trace_id == parent.trace_id,
        below.ctx.trace_id == parent.trace_id,
        child.ctx.parent_span_id == Some(parent.span_id),
        below.ctx.parent_span_id == Some(span_id),
        (below.ctx.collector is Some) == (parent.collector is Some),
{
}

} // verus!
