use std::borrow::Cow;
use std::sync::{Arc, Mutex};
use std::time::{Duration, Instant};

use influxdb_iox::time::Timestamp;
use influxdb_iox::trace::ctx::{SpanContext, SpanExt, SpanId, TraceId};
use influxdb_iox::trace::metadata::{MetaValue, Metadata};
use influxdb_iox::trace::recorder::SpanRecorder;
use influxdb_iox::trace::span::{Export, Span, SpanEvent, SpanStatus};

/// Keeps the last few spans that were exported to it.
#[derive(Debug)]
struct RingBufferTraceCollector {
    capacity: usize,
    spans: Mutex<Vec<Span<Handle>>>,
}

type Handle = Arc<RingBufferTraceCollector>;

impl RingBufferTraceCollector {
    fn new(capacity: usize) -> Self {
        Self { capacity, spans: Mutex::new(Vec::new()) }
    }

    fn export(&self, span: Span<Handle>) {
        let mut spans = self.spans.lock().unwrap();
        if spans.len() == self.capacity {
            spans.remove(0);
        }
        spans.push(span);
    }

    fn spans(&self) -> Vec<Span<Handle>> {
        self.spans.lock().unwrap().clone()
    }
}

fn send(export: Option<Export<Handle>>) {
    if let Some(e) = export {
        e.collector.export(e.span)
    }
}

fn context(collector: &Handle) -> SpanContext<Handle> {
    SpanContext::new(Arc::clone(collector), TraceId(0x34f3495), SpanId(0x36e34))
}

fn make_span(collector: &Handle) -> Span<Handle> {
    context(collector).child(Cow::Borrowed("foo"), SpanId(7))
}

fn at(secs: i64) -> Timestamp {
    Timestamp { secs, nanos: 0 }
}

#[test]
fn test_span() {
    let collector = Arc::new(RingBufferTraceCollector::new(5));

    let span = make_span(&collector);

    assert_eq!(collector.spans().len(), 0);

    send(span.export());

    // Should publish span
    let spans = collector.spans();
    assert_eq!(spans.len(), 1);
}

#[test]
fn test_entered_span() {
    let collector = Arc::new(RingBufferTraceCollector::new(5));

    let span = make_span(&collector);

    let mut recorder = SpanRecorder::new(Some(span));

    let begin = Instant::now();
    while begin.elapsed() < Duration::from_millis(100) {}

    send(recorder.finish());

    // Span should have been published with start and end set
    let spans = collector.spans();
    assert_eq!(spans.len(), 1);

    let span = &spans[0];

    assert!(span.start.is_some());
    assert!(span.end.is_some());
    assert!(span.start.unwrap() < span.end.unwrap());
}

#[test]
fn a_child_belongs_to_the_trace_of_its_parent() {
    let collector = Arc::new(RingBufferTraceCollector::new(5));
    let span = make_span(&collector);
    assert_eq!(span.ctx.trace_id.get(), 0x34f3495);
    assert_eq!(span.ctx.parent_span_id.unwrap().get(), 0x36e34);
    assert_eq!(span.ctx.span_id.get(), 7);
    assert_eq!(span.name, "foo");
    assert_eq!(span.status, SpanStatus::Unknown);

    let below = span.child(Cow::Owned(String::from("bar")), SpanId(8));
    assert_eq!(below.ctx.trace_id, span.ctx.trace_id);
    assert_eq!(below.ctx.parent_span_id, Some(SpanId(7)));
    assert!(below.ctx.links.is_empty());
    assert!(Arc::ptr_eq(below.ctx.collector.as_ref().unwrap(), &collector));
}

#[test]
fn a_root_span_has_no_parent() {
    let span = Span::root(Cow::Borrowed("root"), 5u8, TraceId(1), SpanId(2));
    assert_eq!(span.ctx.parent_span_id, None);
    assert_eq!(span.ctx.collector, Some(5));
    assert_eq!(span.start, None);
    assert_eq!(span.end, None);
    assert!(span.events.is_empty());
    assert!(span.metadata.is_empty());
}

#[test]
fn the_first_outcome_decides_the_status() {
    let mut span = Span::root(Cow::Borrowed("root"), (), TraceId(1), SpanId(2));
    span.ok(Cow::Borrowed("done"));
    span.error(Cow::Borrowed("too late"));
    span.status(SpanStatus::Failure);
    assert_eq!(span.status, SpanStatus::Success);
    let messages: Vec<&str> = span.events.iter().map(|e| e.msg.as_ref()).collect();
    assert_eq!(messages, vec!["done", "too late"]);

    let mut failed = Span::root(Cow::Borrowed("root"), (), TraceId(1), SpanId(3));
    failed.error(Cow::Borrowed("broken"));
    failed.ok(Cow::Borrowed("mended"));
    assert_eq!(failed.status, SpanStatus::Failure);
}

#[test]
fn an_event_is_stamped_with_the_time() {
    let event = SpanEvent::new(Cow::Borrowed("hello"));
    // After 2020, and within the second.
    assert!(event.time.secs > 1_577_836_800);
    assert!(event.time.nanos < 1_000_000_000);
    assert!(event.metadata.is_empty());

    let mut event = SpanEvent::at(Cow::Borrowed("then"), at(12));
    assert_eq!(event.time, at(12));
    event.set_metadata(Cow::Borrowed("rows"), MetaValue::from(3));
    assert_eq!(event.metadata.get("rows"), Some(&MetaValue::Int(3)));
}

#[test]
fn metadata_reads_back_what_was_set_last() {
    let mut metadata = Metadata::new();
    assert!(metadata.is_empty());
    assert_eq!(metadata.get("a"), None);
    metadata.insert(Cow::Borrowed("a"), MetaValue::from("x"));
    metadata.insert(Cow::Owned(String::from("b")), MetaValue::Bool(true));
    metadata.insert(Cow::Owned(String::from("a")), MetaValue::from(String::from("y")));
    assert_eq!(metadata.len(), 2);
    assert_eq!(metadata.get("a").unwrap().string(), Some("y"));
    assert_eq!(metadata.get("b"), Some(&MetaValue::Bool(true)));
    assert_eq!(metadata.get("b").unwrap().string(), None);
    assert_eq!(metadata.get("c"), None);
    let copy = metadata.clone();
    assert_eq!(copy.len(), 2);
    assert_eq!(copy.get("a").unwrap().string(), Some("y"));
}

#[test]
fn metadata_lists_its_entries() {
    let mut metadata = Metadata::new();
    assert!(metadata.entries().is_empty());
    metadata.insert(Cow::Borrowed("b"), MetaValue::from(1));
    metadata.insert(Cow::Borrowed("a"), MetaValue::from("x"));
    metadata.insert(Cow::Owned(String::from("b")), MetaValue::from(2));
    let mut entries: Vec<(&str, MetaValue)> =
        metadata.entries().into_iter().map(|(name, value)| (name, value.clone())).collect();
    entries.sort_by_key(|(name, _)| *name);
    assert_eq!(entries, vec![("a", MetaValue::from("x")), ("b", MetaValue::Int(2))]);
}

#[test]
fn meta_values_compare_by_kind_and_content() {
    let float = |v: f64| MetaValue::Float(v.to_bits());
    assert_eq!(MetaValue::from("a"), MetaValue::from(String::from("a")));
    assert_ne!(MetaValue::from("a"), MetaValue::from("b"));
    assert_ne!(MetaValue::from("a"), MetaValue::from("ab"));
    assert_ne!(MetaValue::from(1), MetaValue::Bool(true));
    assert_eq!(MetaValue::from(-1), MetaValue::Int(-1));
    for a in [0.0, -0.0, 1.5, -1.5, f64::NAN, f64::INFINITY, f64::NEG_INFINITY, f64::MAX] {
        for b in [0.0, -0.0, 1.5, -1.5, f64::NAN, f64::INFINITY, f64::NEG_INFINITY, f64::MAX] {
            assert_eq!(float(a) == float(b), a == b);
        }
    }
}

#[test]
fn a_recorder_without_a_span_does_nothing() {
    let other = SpanContext::new((), TraceId(1), SpanId(2));
    let mut recorder: SpanRecorder<()> = SpanRecorder::new(None);
    recorder.event(SpanEvent::at(Cow::Borrowed("e"), at(1)));
    recorder.ok(Cow::Borrowed("o"));
    recorder.error(Cow::Borrowed("e"));
    recorder.status(SpanStatus::Success);
    recorder.set_metadata(Cow::Borrowed("k"), MetaValue::from(1));
    recorder.link(&other);
    assert!(recorder.span().is_none());
    assert!(recorder.child_span(Cow::Borrowed("c"), SpanId(3)).is_none());
    assert!(recorder.child(Cow::Borrowed("c"), SpanId(3)).span().is_none());
    assert!(recorder.take().span().is_none());
    assert!(recorder.finish().is_none());
    assert!(SpanRecorder::<()>::default().span().is_none());
}

#[test]
fn a_recorder_records_on_its_span() {
    let other = SpanContext::new(0u8, TraceId(11), SpanId(12));
    let span = Span::root(Cow::Borrowed("root"), 1u8, TraceId(1), SpanId(2));
    let mut recorder = SpanRecorder::starting_at(Some(span), at(10));
    recorder.event(SpanEvent::at(Cow::Borrowed("first"), at(11)));
    recorder.set_metadata(Cow::Borrowed("k"), MetaValue::from(1));
    recorder.set_metadata(Cow::Borrowed("k"), MetaValue::from(2));
    recorder.link(&other);
    recorder.error(Cow::Borrowed("second"));
    recorder.status(SpanStatus::Success);

    let child = recorder.child(Cow::Borrowed("child"), SpanId(3));
    let child = child.span().unwrap();
    assert!(child.start.is_some());
    assert_eq!(child.ctx.parent_span_id, Some(SpanId(2)));

    let export = recorder.finish_at(at(20)).unwrap();
    assert_eq!(export.collector, 1);
    let span = export.span;
    assert_eq!(span.ctx.collector, None);
    assert_eq!(span.start, Some(at(10)));
    assert_eq!(span.end, Some(at(20)));
    assert_eq!(span.status, SpanStatus::Failure);
    assert_eq!(span.metadata.get("k"), Some(&MetaValue::Int(2)));
    assert_eq!(span.ctx.links, vec![(TraceId(11), SpanId(12))]);
    assert_eq!(span.events.len(), 2);
    assert_eq!(span.events[0].msg, "first");
    assert_eq!(span.events[1].msg, "second");

    // It is handed over once.
    assert!(recorder.finish_at(at(21)).is_none());
    assert!(span.export().is_none());
}

#[test]
fn a_clock_that_goes_back_does_not_turn_a_span_round() {
    let span = Span::root(Cow::Borrowed("root"), 1u8, TraceId(1), SpanId(2));
    let mut recorder = SpanRecorder::starting_at(Some(span), at(10));
    let span = recorder.finish_at(at(4)).unwrap().span;
    assert_eq!(span.start, Some(at(4)));
    assert_eq!(span.end, Some(at(4)));

    let mut span = Span::root(Cow::Borrowed("root"), 1u8, TraceId(1), SpanId(2));
    span.end = Some(at(30));
    let mut recorder = SpanRecorder::starting_at(Some(span), at(10));
    let span = recorder.finish_at(at(20)).unwrap().span;
    assert_eq!(span.start, Some(at(10)));
    assert_eq!(span.end, Some(at(30)));
}

#[test]
fn a_taken_recorder_is_empty() {
    let span = Span::root(Cow::Borrowed("root"), 1u8, TraceId(1), SpanId(2));
    let mut recorder = SpanRecorder::new(Some(span));
    let mut taken = recorder.take();
    assert!(recorder.span().is_none());
    assert!(recorder.finish().is_none());
    assert_eq!(taken.span().unwrap().name, "root");
    assert!(taken.finish().is_some());
}

#[test]
fn optional_contexts_have_optional_children() {
    let ctx = Some(SpanContext::new(4u8, TraceId(1), SpanId(2)));
    let child = ctx.child_span("c", SpanId(3)).unwrap();
    assert_eq!(child.ctx.parent_span_id, Some(SpanId(2)));
    assert_eq!(child.ctx.collector, Some(4));
    let child = ctx.as_ref().child_span("c", SpanId(3)).unwrap();
    assert_eq!(child.name, "c");
    let none: Option<SpanContext<u8>> = None;
    assert!(none.child_span("c", SpanId(3)).is_none());
}

#[test]
fn points_in_time_are_ordered() {
    let a = Timestamp { secs: 1, nanos: 999_999_999 };
    let b = Timestamp { secs: 2, nanos: 0 };
    let leap = Timestamp { secs: 1, nanos: 1_500_000_000 };
    assert_eq!(a.earlier(b), a);
    assert_eq!(b.earlier(a), a);
    assert_eq!(a.later(b), b);
    assert_eq!(b.later(a), b);
    assert_eq!(a.later(leap), leap);
    assert_eq!(leap.later(b), b);
    assert_eq!(a.earlier(a), a);
    let before = Timestamp { secs: -1, nanos: 5 };
    assert_eq!(before.earlier(a), before);
}
