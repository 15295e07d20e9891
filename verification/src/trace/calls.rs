//! What the calls of this module do, in terms of what goes into them and what
//! comes out.
//!
//! Each law is about the calls themselves: where a call with these arguments
//! gives this result, the result is tied to the arguments.

use std::borrow::Cow;

use vstd::prelude::*;

use crate::time::Timestamp;
use crate::trace::ctx::{SpanContext, SpanExt, SpanId, TraceId};
use crate::trace::metadata::{MetaValue, Metadata};
use crate::trace::recorder::SpanRecorder;
use crate::trace::span::{exports, Export, Span, SpanEvent, SpanStatus};

verus! {

/// The two events happened at the same time and tell the same.
pub open spec fn same_event(a: SpanEvent, b: SpanEvent) -> bool {
    &&& a.time == b.time
    &&& a.msg@ == b.msg@
    &&& a.metadata@ == b.metadata@
}

/// The two lists hold the same events, in the same order.
pub open spec fn same_events(a: Seq<SpanEvent>, b: Seq<SpanEvent>) -> bool {
    &&& a.len() == b.len()
    &&& forall|i: int| 0 <= i < a.len() ==> #[trigger] same_event(a[i], b[i])
}

/// The two contexts are of the same place in the same trace.
pub open spec fn same_place<C>(a: SpanContext<C>, b: SpanContext<C>) -> bool {
    &&& a.trace_id == b.trace_id
    &&& a.span_id == b.span_id
    &&& a.parent_span_id == b.parent_span_id
}

/// The two spans have the same name and metadata, and are in the same place.
pub open spec fn same_operation<C>(a: Span<C>, b: Span<C>) -> bool {
    &&& a.name@ == b.name@
    &&& a.metadata@ == b.metadata@
    &&& same_place(a.ctx, b.ctx)
}

/// The two spans start and end at the same times.
pub open spec fn same_times<C>(a: Span<C>, b: Span<C>) -> bool {
    a.start == b.start && a.end == b.end
}

/// The two spans have the same links and the same collector.
pub open spec fn same_ties<C>(a: Span<C>, b: Span<C>) -> bool {
    a.ctx.links@ == b.ctx.links@ && a.ctx.collector == b.ctx.collector
}

/// `after` is `before` with `event` as its last event.
pub open spec fn gains_event<C>(before: Span<C>, event: SpanEvent, after: Span<C>) -> bool {
    &&& same_operation(before, after)
    &&& same_times(before, after)
    &&& same_ties(before, after)
    &&& after.events.len() == before.events.len() + 1
    &&& same_events(after.events@.drop_last(), before.events@)
    &&& same_event(after.events@.last(), event)
}

/// `after` is `before` with one more event, which has this message and no
/// metadata, and whose time the clock can show.
pub open spec fn gains_message<C>(before: Span<C>, msg: Seq<char>, after: Span<C>) -> bool {
    let event = after.events@.last();
    &&& gains_event(before, event, after)
    &&& event.msg@ == msg
    &&& event.metadata@ == Map::<Seq<char>, MetaValue>::empty()
    &&& event.time.secs >= 0
    &&& event.time.nanos < 1_000_000_000
}

/// `after` is `before` but for its status, which is `status` unless there was
/// one before.
pub open spec fn gains_status<C>(before: Span<C>, status: SpanStatus, after: Span<C>) -> bool {
    &&& same_operation(before, after)
    &&& same_times(before, after)
    &&& same_ties(before, after)
    &&& same_events(before.events@, after.events@)
    &&& before.status == SpanStatus::Unknown ==> after.status == status
    &&& before.status != SpanStatus::Unknown ==> after.status == before.status
}

/// `after` is `before` with a link to `other`, which is its last.
pub open spec fn gains_link<C>(before: Span<C>, other: SpanContext<C>, after: Span<C>) -> bool {
    &&& same_operation(before, after)
    &&& same_times(before, after)
    &&& same_events(before.events@, after.events@)
    &&& after.status == before.status
    &&& after.ctx.collector == before.ctx.collector
    &&& after.ctx.links.len() == before.ctx.links.len() + 1
    &&& after.ctx.links@.drop_last() == before.ctx.links@
    &&& after.ctx.links@.last() == (other.trace_id, other.span_id)
}

/// `after` is `before` but for its metadata, where `key` has this value now and
/// every other name what it had.
pub open spec fn gains_metadata<C>(
    before: Span<C>,
    key: Seq<char>,
    value: MetaValue,
    after: Span<C>,
) -> bool {
    &&& after.name@ == before.name@
    &&& same_place(before.ctx, after.ctx)
    &&& same_times(before, after)
    &&& same_ties(before, after)
    &&& same_events(before.events@, after.events@)
    &&& after.status == before.status
    &&& after.metadata@.contains_key(key)
    &&& after.metadata@[key] == value
    &&& forall|name: Seq<char>| #![trigger after.metadata@.contains_key(name)]
        #![trigger before.metadata@.contains_key(name)]
        name != key ==> {
            &&& after.metadata@.contains_key(name) == before.metadata@.contains_key(name)
            &&& before.metadata@.contains_key(name) ==> after.metadata@[name]
                == before.metadata@[name]
        }
}

/// Nothing has been recorded on the span, and it has not started.
pub open spec fn is_blank<C>(span: Span<C>) -> bool {
    &&& span.start is None
    &&& span.end is None
    &&& span.status == SpanStatus::Unknown
    &&& span.metadata@ == Map::<Seq<char>, MetaValue>::empty()
    &&& span.events.len() == 0
    &&& span.ctx.links.len() == 0
}

/// `child` is called `name`, and is the child with this identifier of the span
/// that `parent` describes: in the same trace, sent where the parent is sent.
pub open spec fn is_born_of<C: Clone>(
    parent: SpanContext<C>,
    name: Seq<char>,
    span_id: SpanId,
    child: Span<C>,
) -> bool {
    &&& child.name@ == name
    &&& child.ctx.trace_id == parent.trace_id
    &&& child.ctx.span_id == span_id
    &&& child.ctx.parent_span_id == Some(parent.span_id)
    &&& child.ctx.links.len() == 0
    &&& child.ctx.collector is Some <==> parent.collector is Some
    &&& parent.collector is Some ==> cloned(parent.collector->0, child.ctx.collector->0)
}

/// The events of two spans that look the same are the same.
proof fn lemma_same_events<C>(a: Span<C>, b: Span<C>)
    requires
        a@.events == b@.events,
    ensures
        same_events(a.events@, b.events@),
{
    assert(a@.events.len() == a.events@.len() && b@.events.len() == b.events@.len());
    assert forall|i: int| 0 <= i < a.events@.len() implies #[trigger] same_event(
        a.events@[i],
        b.events@[i],
    ) by {
        assert(a@.events[i] == a.events@[i]@);
        assert(b@.events[i] == b.events@[i]@);
    }
}

/// Events that look like those before and one more are just that.
proof fn lemma_one_more_event<C>(before: Span<C>, event: SpanEvent, after: Span<C>)
    requires
        after@.events == before@.events.push(event@),
    ensures
        after.events.len() == before.events.len() + 1,
        same_events(after.events@.drop_last(), before.events@),
        same_event(after.events@.last(), event),
{
    let n = before.events@.len() as int;
    assert(before@.events.len() == n && after@.events.len() == after.events@.len());
    assert forall|i: int| 0 <= i < n implies #[trigger] same_event(
        after.events@.drop_last()[i],
        before.events@[i],
    ) by {
        assert(after@.events[i] == after.events@[i]@);
        assert(before@.events[i] == before.events@[i]@);
    }
    assert(after@.events[n] == after.events@[n]@);
}

/// A context for a root span is in the trace and has the identifier that it is
/// made with, has no parent and no links, and leads to the collector.
pub proof fn a_new_context_begins_a_trace<C>(
    collector: C,
    trace_id: TraceId,
    span_id: SpanId,
    ctx: SpanContext<C>,
)
    requires
        call_ensures(SpanContext::<C>::new, (collector, trace_id, span_id), ctx),
    ensures
        ctx.trace_id == trace_id,
        ctx.span_id == span_id,
        ctx.parent_span_id is None,
        ctx.links.len() == 0,
        ctx.collector == Some(collector),
{
}

/// A root span begins the trace that it is made for: it has that trace and
/// identifier, no parent and no links, and is sent to the collector. Nothing is
/// recorded on it.
pub proof fn a_root_span_begins_its_trace<C>(
    name: Cow<'static, str>,
    collector: C,
    trace_id: TraceId,
    span_id: SpanId,
    span: Span<C>,
)
    requires
        call_ensures(Span::<C>::root, (name, collector, trace_id, span_id), span),
    ensures
        span.name@ == name@,
        span.ctx.trace_id == trace_id,
        span.ctx.span_id == span_id,
        span.ctx.parent_span_id is None,
        span.ctx.collector == Some(collector),
        is_blank(span),
{
    assert(span@.events.len() == span.events@.len());
}

/// The child of a span or of a context belongs to the trace of its parent, has
/// the parent as its parent, and is sent where the parent is sent. Nothing is
/// recorded on it, whatever is recorded on the parent.
pub proof fn a_child_belongs_to_its_parent<C: Clone>(
    parent: Span<C>,
    name: Cow<'static, str>,
    span_id: SpanId,
    of_span: Span<C>,
    of_context: Span<C>,
)
    requires
        call_ensures(Span::<C>::child, (&parent, name, span_id), of_span),
        call_ensures(SpanContext::<C>::child, (&parent.ctx, name, span_id), of_context),
    ensures
        is_born_of(parent.ctx, name@, span_id, of_span),
        is_born_of(parent.ctx, name@, span_id, of_context),
        is_blank(of_span),
        is_blank(of_context),
{
    assert(of_span@.events.len() == of_span.events@.len());
    assert(of_context@.events.len() == of_context.events@.len());
}

/// An optional context has a child exactly if it is there, and then the child
/// of that context.
pub proof fn an_optional_context_has_an_optional_child<C: Clone>(
    ctx: Option<SpanContext<C>>,
    name: &'static str,
    span_id: SpanId,
    child: Option<Span<C>>,
)
    requires
        call_ensures(
            <Option<SpanContext<C>> as SpanExt<C>>::child_span,
            (&ctx, name, span_id),
            child,
        ),
    ensures
        child is Some <==> ctx is Some,
        ctx is Some ==> is_born_of(ctx->0, name@, span_id, child->0) && is_blank(child->0),
{
    if ctx is Some {
        assert(child->0@.events.len() == child->0.events@.len());
    }
}

/// The same holds where the context is borrowed.
pub proof fn a_borrowed_context_has_an_optional_child<'a, C: Clone>(
    ctx: Option<&'a SpanContext<C>>,
    name: &'static str,
    span_id: SpanId,
    child: Option<Span<C>>,
)
    requires
        call_ensures(
            <Option<&'a SpanContext<C>> as SpanExt<C>>::child_span,
            (&ctx, name, span_id),
            child,
        ),
    ensures
        child is Some <==> ctx is Some,
        ctx is Some ==> is_born_of(*ctx->0, name@, span_id, child->0) && is_blank(child->0),
{
    if ctx is Some {
        assert(child->0@.events.len() == child->0.events@.len());
    }
}

/// Linking a span to any context keeps the span in its place in its trace. It
/// is exported in that trace, and the children made of it after the link belong
/// to that trace too.
pub proof fn linking_keeps_a_span_in_its_trace<C: Clone>(
    span: &mut Span<C>,
    other: &SpanContext<C>,
    name: Cow<'static, str>,
    span_id: SpanId,
    child: Span<C>,
    export: Option<Export<C>>,
)
    requires
        call_ensures(Span::<C>::link, (span, other), ()),
        call_ensures(Span::<C>::child, (&*final(span), name, span_id), child),
        call_ensures(Span::<C>::export, (*final(span),), export),
    ensures
        gains_link(*old(span), *other, *final(span)),
        final(span).ctx.trace_id == old(span).ctx.trace_id,
        child.ctx.trace_id == old(span).ctx.trace_id,
        child.ctx.parent_span_id == Some(old(span).ctx.span_id),
        export matches Some(e) ==> e.span.ctx.trace_id == old(span).ctx.trace_id,
{
    lemma_same_events(*old(span), *final(span));
    assert(final(span).ctx.links@.drop_last() =~= old(span).ctx.links@);
}

/// An event that is recorded on a span becomes its last. The span keeps the
/// events that it had, and all else.
pub proof fn an_event_is_recorded_last<C>(span: &mut Span<C>, event: SpanEvent)
    requires
        call_ensures(Span::<C>::event, (span, event), ()),
    ensures
        gains_event(*old(span), event, *final(span)),
        final(span).status == old(span).status,
{
    lemma_one_more_event(*old(span), event, *final(span));
}

/// Setting the status changes a span only in its status, and that only if it
/// was not known.
pub proof fn a_status_is_set_once<C>(span: &mut Span<C>, status: SpanStatus)
    requires
        call_ensures(Span::<C>::status, (span, status), ()),
    ensures
        gains_status(*old(span), status, *final(span)),
{
    lemma_same_events(*old(span), *final(span));
}

/// Recording success adds an event with the message, and leaves a span whose
/// status was not known successful. Any other status stays.
pub proof fn success_is_recorded<C>(span: &mut Span<C>, msg: Cow<'static, str>)
    requires
        call_ensures(Span::<C>::ok, (span, msg), ()),
    ensures
        gains_message(*old(span), msg@, *final(span)),
        old(span).status == SpanStatus::Unknown ==> final(span).status == SpanStatus::Success,
        old(span).status != SpanStatus::Unknown ==> final(span).status == old(span).status,
{
    assert(final(span)@.events.drop_last() =~= old(span)@.events);
    lemma_message_gained(*old(span), msg@, *final(span));
}

/// Recording an error adds an event with the message, and leaves a span whose
/// status was not known failed. Any other status stays.
pub proof fn an_error_is_recorded<C>(span: &mut Span<C>, msg: Cow<'static, str>)
    requires
        call_ensures(Span::<C>::error, (span, msg), ()),
    ensures
        gains_message(*old(span), msg@, *final(span)),
        old(span).status == SpanStatus::Unknown ==> final(span).status == SpanStatus::Failure,
        old(span).status != SpanStatus::Unknown ==> final(span).status == old(span).status,
{
    assert(final(span)@.events.drop_last() =~= old(span)@.events);
    lemma_message_gained(*old(span), msg@, *final(span));
}

/// A span that looks like it was before but for a message and its status has
/// gained the message.
proof fn lemma_message_gained<C>(before: Span<C>, msg: Seq<char>, after: Span<C>)
    requires
        after@.events.len() == before@.events.len() + 1,
        after@.events.drop_last() == before@.events,
        after@.events.last().msg == msg,
        after@.events.last().metadata == Map::<Seq<char>, MetaValue>::empty(),
        after@.events.last().time.is_clock_reading(),
        after@.name == before@.name,
        after@.ctx == before@.ctx,
        after@.start == before@.start,
        after@.end == before@.end,
        after@.metadata == before@.metadata,
    ensures
        gains_message(before, msg, after),
{
    let event = after.events@.last();
    assert(after@.events.len() == after.events@.len());
    assert(after@.events.last() == event@);
    assert(after@.events =~= before@.events.push(event@));
    lemma_one_more_event(before, event, after);
}

/// A span is exported exactly if it has a collector, and to that one. What is
/// exported is the span as it was, only that it has no collector any more.
pub proof fn an_export_goes_to_the_collector<C>(span: Span<C>, export: Option<Export<C>>)
    requires
        call_ensures(Span::<C>::export, (span,), export),
    ensures
        export is Some <==> span.ctx.collector is Some,
        export matches Some(e) ==> {
            &&& span.ctx.collector == Some(e.collector)
            &&& e.span.ctx.collector is None
            &&& same_operation(span, e.span)
            &&& same_times(span, e.span)
            &&& same_events(span.events@, e.span.events@)
            &&& e.span.ctx.links@ == span.ctx.links@
            &&& e.span.status == span.status
        },
{
    if export is Some {
        lemma_same_events(span, export->0.span);
    }
}

/// A copy of a span is the span, but for its collector, which is a copy too.
pub proof fn a_copy_of_a_span_is_the_span<C: Clone>(
    span: Span<C>,
    copy: Span<C>,
    ctx: SpanContext<C>,
)
    requires
        call_ensures(<Span<C> as Clone>::clone, (&span,), copy),
        call_ensures(<SpanContext<C> as Clone>::clone, (&span.ctx,), ctx),
    ensures
        same_operation(span, copy),
        same_times(span, copy),
        same_events(span.events@, copy.events@),
        copy.status == span.status,
        copy.ctx.links@ == span.ctx.links@,
        copy.ctx.collector is Some <==> span.ctx.collector is Some,
        span.ctx.collector is Some ==> cloned(span.ctx.collector->0, copy.ctx.collector->0),
        same_place(span.ctx, ctx),
        ctx.links@ == span.ctx.links@,
        ctx.collector is Some <==> span.ctx.collector is Some,
        span.ctx.collector is Some ==> cloned(span.ctx.collector->0, ctx.collector->0),
{
    lemma_same_events(span, copy);
}

/// An event has the message and time that it is made with, and no metadata. One
/// that happens now has a time that the clock can show.
pub proof fn an_event_tells_its_message(
    msg: Cow<'static, str>,
    time: Timestamp,
    at: SpanEvent,
    now: SpanEvent,
    copy: SpanEvent,
)
    requires
        call_ensures(SpanEvent::at, (msg, time), at),
        call_ensures(SpanEvent::new, (msg,), now),
        call_ensures(<SpanEvent as Clone>::clone, (&at,), copy),
    ensures
        at.time == time,
        at.msg@ == msg@,
        at.metadata@ == Map::<Seq<char>, MetaValue>::empty(),
        now.msg@ == msg@,
        now.metadata@ == Map::<Seq<char>, MetaValue>::empty(),
        now.time.secs >= 0,
        now.time.nanos < 1_000_000_000,
        same_event(at, copy),
{
}

/// A value that is set in the metadata of an event is the one that is found
/// there. Under every other name there is found what was found before. The
/// event is otherwise as it was.
pub proof fn metadata_of_an_event_reads_back<'a>(
    event: &mut SpanEvent,
    key: Cow<'static, str>,
    value: MetaValue,
    name: &'a str,
    before: Option<&'a MetaValue>,
    after: Option<&'a MetaValue>,
)
    requires
        call_ensures(SpanEvent::set_metadata, (event, key, value), ()),
        call_ensures(Metadata::get, (&old(event).metadata, name), before),
        call_ensures(Metadata::get, (&final(event).metadata, name), after),
    ensures
        name@ == key@ ==> after == Some(&value),
        name@ != key@ ==> after == before,
        final(event).time == old(event).time,
        final(event).msg@ == old(event).msg@,
{
}

/// A value that is given a name is the one that is found under that name. Under
/// every other name there is found what was found before.
pub proof fn a_value_is_found_under_its_name<'a>(
    metadata: &mut Metadata,
    key: Cow<'static, str>,
    value: MetaValue,
    name: &'a str,
    before: Option<&'a MetaValue>,
    after: Option<&'a MetaValue>,
)
    requires
        call_ensures(Metadata::insert, (metadata, key, value), ()),
        call_ensures(Metadata::get, (&*old(metadata), name), before),
        call_ensures(Metadata::get, (&*final(metadata), name), after),
    ensures
        name@ == key@ ==> after == Some(&value),
        name@ != key@ ==> after == before,
{
}

/// Nothing is found in a new map, and it is empty.
pub proof fn a_new_map_holds_nothing<'a>(
    metadata: Metadata,
    name: &'a str,
    found: Option<&'a MetaValue>,
    empty: bool,
    len: usize,
)
    requires
        call_ensures(Metadata::new, (), metadata),
        call_ensures(Metadata::get, (&metadata, name), found),
        call_ensures(Metadata::is_empty, (&metadata,), empty),
        call_ensures(Metadata::len, (&metadata,), len),
    ensures
        found is None,
        empty,
        len == 0,
{
}

/// The entries of a map are what is found in it: each entry holds the value that
/// is found under its name, what is found has an entry, and no name has two. A
/// map is empty exactly if it has no entries, and its length is their number.
pub proof fn the_entries_are_what_is_found<'a>(
    metadata: Metadata,
    entries: Vec<(&'a str, &'a MetaValue)>,
    name: &'a str,
    found: Option<&'a MetaValue>,
    empty: bool,
    len: usize,
)
    requires
        call_ensures(Metadata::entries, (&metadata,), entries),
        call_ensures(Metadata::get, (&metadata, name), found),
        call_ensures(Metadata::is_empty, (&metadata,), empty),
        call_ensures(Metadata::len, (&metadata,), len),
    ensures
        forall|i: int|
            0 <= i < entries.len() && (#[trigger] entries@[i]).0@ == name@ ==> found == Some(
                entries@[i].1,
            ),
        found is Some ==> exists|i: int|
            0 <= i < entries.len() && (#[trigger] entries@[i]).0@ == name@,
        forall|i: int, j: int|
            0 <= i < j < entries.len() ==> (#[trigger] entries@[i]).0@ != (
            #[trigger] entries@[j]).0@,
        empty <==> entries.len() == 0,
        len == entries.len(),
{
    if entries.len() > 0 {
        assert(metadata@.contains_key(entries@[0].0@));
    }
    if !empty && entries.len() == 0 {
        assert(metadata@ =~= Map::<Seq<char>, MetaValue>::empty());
    }
}

/// A copy of a map holds what the map holds.
pub proof fn a_copy_of_a_map_holds_the_same<'a>(
    metadata: Metadata,
    copy: Metadata,
    name: &'a str,
    found: Option<&'a MetaValue>,
    found_in_copy: Option<&'a MetaValue>,
)
    requires
        call_ensures(<Metadata as Clone>::clone, (&metadata,), copy),
        call_ensures(Metadata::get, (&metadata, name), found),
        call_ensures(Metadata::get, (&copy, name), found_in_copy),
    ensures
        found_in_copy == found,
{
}

/// Two values are equal exactly if they are of one kind and hold the same. Two
/// double precision numbers are the same if their bits are, unless these are of
/// no number (all bits of the exponent are set, and some of the fraction), and
/// both zeros are the same.
pub proof fn values_are_equal_by_what_they_hold(a: MetaValue, b: MetaValue, equal: bool)
    requires
        call_ensures(<MetaValue as PartialEq>::eq, (&a, &b), equal),
    ensures
        match (a, b) {
            (MetaValue::String(x), MetaValue::String(y)) => equal == (x@ == y@),
            (MetaValue::Int(x), MetaValue::Int(y)) => equal == (x == y),
            (MetaValue::Bool(x), MetaValue::Bool(y)) => equal == (x == y),
            (MetaValue::Float(x), MetaValue::Float(y)) => {
                let zeros = (x == 0 || x == 0x8000_0000_0000_0000) && (y == 0 || y
                    == 0x8000_0000_0000_0000);
                let no_number = 0x7ff0_0000_0000_0000 < x < 0x8000_0000_0000_0000 || x
                    > 0xfff0_0000_0000_0000;
                equal == (zeros || (x == y && !no_number))
            },
            _ => !equal,
        },
{
}

/// A value made of text holds that text, which is what it gives back. One made
/// of a number holds the number, and gives back no text. A copy of a value is
/// the value.
pub proof fn a_value_holds_what_it_is_made_of<'a>(
    text: &'static str,
    owned: String,
    number: i64,
    of_text: MetaValue,
    of_owned: MetaValue,
    of_number: MetaValue,
    value: MetaValue,
    copy: MetaValue,
    string: Option<&'a str>,
)
    requires
        call_ensures(<MetaValue as From<&'static str>>::from, (text,), of_text),
        call_ensures(<MetaValue as From<String>>::from, (owned,), of_owned),
        call_ensures(<MetaValue as From<i64>>::from, (number,), of_number),
        call_ensures(<MetaValue as Clone>::clone, (&value,), copy),
        call_ensures(MetaValue::string, (&value,), string),
    ensures
        of_text matches MetaValue::String(s) && s@ == text@,
        of_owned matches MetaValue::String(s) && s@ == owned@,
        of_number == MetaValue::Int(number),
        copy == value,
        match value {
            MetaValue::String(s) => string is Some && string->0@ == s@,
            _ => string is None,
        },
{
}

/// A recorder has a span exactly if it is created with one. The span is the one
/// that it is created with, and has started: at the given time, or at one that
/// the clock can show. By default a recorder has none.
pub proof fn a_recorder_starts_its_span<'a, C>(
    span: Option<Span<C>>,
    now: Timestamp,
    recorder: SpanRecorder<C>,
    recorder_at: SpanRecorder<C>,
    bare: SpanRecorder<C>,
    started: Option<&'a Span<C>>,
    started_at: Option<&'a Span<C>>,
    none: Option<&'a Span<C>>,
)
    requires
        call_ensures(SpanRecorder::<C>::new, (span,), recorder),
        call_ensures(SpanRecorder::<C>::starting_at, (span, now), recorder_at),
        call_ensures(<SpanRecorder<C> as Default>::default, (), bare),
        call_ensures(SpanRecorder::<C>::span, (&recorder,), started),
        call_ensures(SpanRecorder::<C>::span, (&recorder_at,), started_at),
        call_ensures(SpanRecorder::<C>::span, (&bare,), none),
    ensures
        started is Some <==> span is Some,
        started_at is Some <==> span is Some,
        none is None,
        span matches Some(s) ==> {
            &&& starts(s, *started->0)
            &&& started->0.start->0.secs >= 0
            &&& started->0.start->0.nanos < 1_000_000_000
            &&& starts(s, *started_at->0)
            &&& started_at->0.start == Some(now)
        },
{
    if span is Some {
        lemma_same_events(span->0, *started->0);
        lemma_same_events(span->0, *started_at->0);
    }
}

/// `after` is `before`, but that it has started.
pub open spec fn starts<C>(before: Span<C>, after: Span<C>) -> bool {
    &&& same_operation(before, after)
    &&& same_ties(before, after)
    &&& same_events(before.events@, after.events@)
    &&& after.status == before.status
    &&& after.end == before.end
    &&& after.start is Some
}

/// What is recorded with a recorder is recorded on its span, as it would be on
/// the span itself. Without a span nothing comes of it, and none appears.
pub proof fn a_recorder_records_events<'a, C>(
    recorder: &mut SpanRecorder<C>,
    event: SpanEvent,
    before: Option<&'a Span<C>>,
    after: Option<&'a Span<C>>,
)
    requires
        call_ensures(SpanRecorder::<C>::event, (recorder, event), ()),
        call_ensures(SpanRecorder::<C>::span, (&*old(recorder),), before),
        call_ensures(SpanRecorder::<C>::span, (&*final(recorder),), after),
    ensures
        after is Some <==> before is Some,
        before matches Some(b) ==> gains_event(*b, event, *after->0) && after->0.status == b.status,
{
    if before is Some {
        lemma_one_more_event(*before->0, event, *after->0);
    }
}

/// A recorder sets the status of its span as the span itself would.
pub proof fn a_recorder_sets_the_status<'a, C>(
    recorder: &mut SpanRecorder<C>,
    status: SpanStatus,
    before: Option<&'a Span<C>>,
    after: Option<&'a Span<C>>,
)
    requires
        call_ensures(SpanRecorder::<C>::status, (recorder, status), ()),
        call_ensures(SpanRecorder::<C>::span, (&*old(recorder),), before),
        call_ensures(SpanRecorder::<C>::span, (&*final(recorder),), after),
    ensures
        after is Some <==> before is Some,
        before matches Some(b) ==> gains_status(*b, status, *after->0),
{
    if before is Some {
        lemma_same_events(*before->0, *after->0);
    }
}

/// A recorder records success on its span as the span itself would.
pub proof fn a_recorder_records_success<'a, C>(
    recorder: &mut SpanRecorder<C>,
    meta: Cow<'static, str>,
    before: Option<&'a Span<C>>,
    after: Option<&'a Span<C>>,
)
    requires
        call_ensures(SpanRecorder::<C>::ok, (recorder, meta), ()),
        call_ensures(SpanRecorder::<C>::span, (&*old(recorder),), before),
        call_ensures(SpanRecorder::<C>::span, (&*final(recorder),), after),
    ensures
        after is Some <==> before is Some,
        before matches Some(b) ==> {
            &&& gains_message(*b, meta@, *after->0)
            &&& b.status == SpanStatus::Unknown ==> after->0.status == SpanStatus::Success
            &&& b.status != SpanStatus::Unknown ==> after->0.status == b.status
        },
{
    if before is Some {
        assert(after->0@.events.drop_last() =~= before->0@.events);
        lemma_message_gained(*before->0, meta@, *after->0);
    }
}

/// A recorder records an error on its span as the span itself would.
pub proof fn a_recorder_records_an_error<'a, C>(
    recorder: &mut SpanRecorder<C>,
    meta: Cow<'static, str>,
    before: Option<&'a Span<C>>,
    after: Option<&'a Span<C>>,
)
    requires
        call_ensures(SpanRecorder::<C>::error, (recorder, meta), ()),
        call_ensures(SpanRecorder::<C>::span, (&*old(recorder),), before),
        call_ensures(SpanRecorder::<C>::span, (&*final(recorder),), after),
    ensures
        after is Some <==> before is Some,
        before matches Some(b) ==> {
            &&& gains_message(*b, meta@, *after->0)
            &&& b.status == SpanStatus::Unknown ==> after->0.status == SpanStatus::Failure
            &&& b.status != SpanStatus::Unknown ==> after->0.status == b.status
        },
{
    if before is Some {
        assert(after->0@.events.drop_last() =~= before->0@.events);
        lemma_message_gained(*before->0, meta@, *after->0);
    }
}

/// A recorder sets a value of the metadata of its span and nothing else.
pub proof fn a_recorder_sets_metadata<'a, C>(
    recorder: &mut SpanRecorder<C>,
    key: Cow<'static, str>,
    value: MetaValue,
    before: Option<&'a Span<C>>,
    after: Option<&'a Span<C>>,
)
    requires
        call_ensures(SpanRecorder::<C>::set_metadata, (recorder, key, value), ()),
        call_ensures(SpanRecorder::<C>::span, (&*old(recorder),), before),
        call_ensures(SpanRecorder::<C>::span, (&*final(recorder),), after),
    ensures
        after is Some <==> before is Some,
        before matches Some(b) ==> gains_metadata(*b, key@, value, *after->0),
{
    if before is Some {
        lemma_same_events(*before->0, *after->0);
    }
}

/// A recorder links its span as the span itself would: the span stays in its
/// trace.
pub proof fn a_recorder_links_its_span<'a, C>(
    recorder: &mut SpanRecorder<C>,
    other: &SpanContext<C>,
    before: Option<&'a Span<C>>,
    after: Option<&'a Span<C>>,
)
    requires
        call_ensures(SpanRecorder::<C>::link, (recorder, other), ()),
        call_ensures(SpanRecorder::<C>::span, (&*old(recorder),), before),
        call_ensures(SpanRecorder::<C>::span, (&*final(recorder),), after),
    ensures
        after is Some <==> before is Some,
        before matches Some(b) ==> gains_link(*b, *other, *after->0),
{
    if before is Some {
        lemma_same_events(*before->0, *after->0);
        assert(after->0.ctx.links@.drop_last() =~= before->0.ctx.links@);
    }
}

/// What is taken from a recorder is its span, as it was, and the recorder is
/// left without one.
pub proof fn a_recorder_is_taken_whole<'a, C>(
    recorder: &mut SpanRecorder<C>,
    taken: SpanRecorder<C>,
    before: Option<&'a Span<C>>,
    after: Option<&'a Span<C>>,
    moved: Option<&'a Span<C>>,
)
    requires
        call_ensures(SpanRecorder::<C>::take, (recorder,), taken),
        call_ensures(SpanRecorder::<C>::span, (&*old(recorder),), before),
        call_ensures(SpanRecorder::<C>::span, (&*final(recorder),), after),
        call_ensures(SpanRecorder::<C>::span, (&taken,), moved),
    ensures
        after is None,
        moved is Some <==> before is Some,
        before matches Some(b) ==> {
            &&& same_operation(*b, *moved->0)
            &&& same_times(*b, *moved->0)
            &&& same_ties(*b, *moved->0)
            &&& same_events(b.events@, moved->0.events@)
            &&& moved->0.status == b.status
        },
{
    if before is Some {
        lemma_same_events(*before->0, *moved->0);
    }
}

/// `a` does not lie after `b`, by the seconds and then by the nanoseconds.
pub open spec fn not_after(a: Timestamp, b: Timestamp) -> bool {
    a.secs < b.secs || (a.secs == b.secs && a.nanos <= b.nanos)
}

/// `sent` is `span`, ended at `now` and parted from its collector. It starts
/// when the span did, or at `now` if that is earlier, and ends when the span
/// did, or at `now` if that is later.
pub open spec fn ends<C>(span: Span<C>, now: Timestamp, sent: Span<C>) -> bool {
    &&& same_operation(span, sent)
    &&& same_events(span.events@, sent.events@)
    &&& sent.ctx.links@ == span.ctx.links@
    &&& sent.ctx.collector is None
    &&& sent.status == span.status
    &&& sent.start is Some && sent.end is Some
    &&& match span.start {
        Some(start) => sent.start->0 == if not_after(start, now) {
            start
        } else {
            now
        },
        None => sent.start->0 == now,
    }
    &&& match span.end {
        Some(end) => sent.end->0 == if not_after(now, end) {
            end
        } else {
            now
        },
        None => sent.end->0 == now,
    }
}

/// A recorder that is finished hands its span over exactly if it has one and
/// that has a collector: to that collector, ended at the given time. It is left
/// without a span.
pub proof fn a_recorder_ends_its_span<'a, C>(
    recorder: &mut SpanRecorder<C>,
    now: Timestamp,
    before: Option<&'a Span<C>>,
    after: Option<&'a Span<C>>,
    export: Option<Export<C>>,
)
    requires
        call_ensures(SpanRecorder::<C>::finish_at, (recorder, now), export),
        call_ensures(SpanRecorder::<C>::span, (&*old(recorder),), before),
        call_ensures(SpanRecorder::<C>::span, (&*final(recorder),), after),
    ensures
        after is None,
        export is Some <==> before is Some && before->0.ctx.collector is Some,
        export matches Some(e) ==> {
            &&& before->0.ctx.collector == Some(e.collector)
            &&& ends(*before->0, now, e.span)
        },
{
    if export is Some {
        lemma_same_events(*before->0, export->0.span);
    }
}

/// A recorder that is finished at this moment does the same, at a time that the
/// clock can show.
pub proof fn a_recorder_ends_its_span_now<'a, C>(
    recorder: &mut SpanRecorder<C>,
    before: Option<&'a Span<C>>,
    after: Option<&'a Span<C>>,
    export: Option<Export<C>>,
)
    requires
        call_ensures(SpanRecorder::<C>::finish, (recorder,), export),
        call_ensures(SpanRecorder::<C>::span, (&*old(recorder),), before),
        call_ensures(SpanRecorder::<C>::span, (&*final(recorder),), after),
    ensures
        after is None,
        export is Some <==> before is Some && before->0.ctx.collector is Some,
        export matches Some(e) ==> {
            &&& before->0.ctx.collector == Some(e.collector)
            &&& exists|now: Timestamp|
                now.secs >= 0 && now.nanos < 1_000_000_000 && #[trigger] ends(
                    *before->0,
                    now,
                    e.span,
                )
        },
{
    if export is Some {
        let span = *before->0;
        let now = choose|now: Timestamp|
            now.is_clock_reading() && #[trigger] exports(span@.finished(now), export);
        lemma_same_events(span, export->0.span);
        assert(ends(span, now, export->0.span));
    }
}

/// The children that a recorder gives are those of its span, and there are none
/// without one. A recorder for a child has started it.
pub proof fn a_recorder_has_the_children_of_its_span<'a, C: Clone>(
    recorder: SpanRecorder<C>,
    name: Cow<'static, str>,
    span_id: SpanId,
    parent: Option<&'a Span<C>>,
    child: Option<Span<C>>,
    below: SpanRecorder<C>,
    started: Option<&'a Span<C>>,
)
    requires
        call_ensures(SpanRecorder::<C>::span, (&recorder,), parent),
        call_ensures(SpanRecorder::<C>::child_span, (&recorder, name, span_id), child),
        call_ensures(SpanRecorder::<C>::child, (&recorder, name, span_id), below),
        call_ensures(SpanRecorder::<C>::span, (&below,), started),
    ensures
        child is Some <==> parent is Some,
        started is Some <==> parent is Some,
        parent matches Some(p) ==> {
            &&& is_born_of(p.ctx, name@, span_id, child->0)
            &&& is_blank(child->0)
            &&& is_born_of(p.ctx, name@, span_id, *started->0)
            &&& started->0.start is Some
            &&& started->0.start->0.secs >= 0
            &&& started->0.start->0.nanos < 1_000_000_000
            &&& started->0.end is None
            &&& started->0.status == SpanStatus::Unknown
            &&& started->0.metadata@ == Map::<Seq<char>, MetaValue>::empty()
            &&& started->0.events.len() == 0
        },
{
    if parent is Some {
        assert(child->0@.events.len() == child->0.events@.len());
        assert(started->0@.events.len() == started->0.events@.len());
    }
}

/// The earlier and the later of two points in time are the two, the seconds
/// deciding before the nanoseconds.
pub proof fn the_earlier_and_the_later_are_the_two(
    a: Timestamp,
    b: Timestamp,
    first: Timestamp,
    last: Timestamp,
)
    requires
        call_ensures(Timestamp::earlier, (a, b), first),
        call_ensures(Timestamp::later, (a, b), last),
    ensures
        (first == a && last == b) || (first == b && last == a),
        first.secs <= last.secs,
        first.secs == last.secs ==> first.nanos <= last.nanos,
{
}

/// An identifier is the number that it is made of.
pub proof fn an_identifier_is_its_number(
    trace_id: TraceId,
    span_id: SpanId,
    trace: u128,
    span: u64,
)
    requires
        call_ensures(TraceId::get, (trace_id,), trace),
        call_ensures(SpanId::get, (span_id,), span),
    ensures
        trace == trace_id.0,
        span == span_id.0,
{
}

} // verus!
