use rt_trace::backend::perfetto::thread_descriptor;
use rt_trace::config::Config;
use rt_trace::span::{RawSpan, RunTask, RuntimePark, RuntimeStart, Type};
use rt_trace::span_queue::DescriptorTable;
use rt_trace::{
    enabled, end_span, flush, has_pending_non_slice, initialize, num_shards, span, start, stop,
    DEFAULT_NUM_SHARD,
};

fn task(name: &str) -> Type {
    Type::RunTask(RunTask { name: Some(name.to_string()), ..Default::default() })
}

#[test]
fn initialize_uses_default_shards_and_starts_off() {
    let tracer = initialize(&Config::new());
    assert_eq!(num_shards(&tracer), DEFAULT_NUM_SHARD);
    assert_eq!(DEFAULT_NUM_SHARD, 16);
    assert!(!enabled(&tracer));
}

#[test]
fn start_and_stop_toggle_tracing() {
    let mut tracer = initialize(&Config::new());
    start(&mut tracer);
    assert!(enabled(&tracer));
    assert!(stop(&mut tracer).is_empty());
    assert!(!enabled(&tracer));
}

#[test]
fn disabled_tracing_records_nothing() {
    let mut tracer = initialize(&Config::new());
    let mut descriptors = DescriptorTable::new();
    let (s, initialized) = span(&tracer, &mut descriptors, task("t"), 3, false, None, 10);
    assert!(!initialized);
    end_span(&mut tracer, s, 20);
    assert!(flush(&mut tracer).is_empty());
    assert!(descriptors.drain_descriptors().is_empty());
}

#[test]
fn first_span_of_a_thread_registers_its_descriptor() {
    let mut tracer = initialize(&Config::new());
    let mut descriptors = DescriptorTable::new();
    start(&mut tracer);
    let (s, initialized) = span(&tracer, &mut descriptors, task("t"), 5, false, None, 10);
    assert!(initialized);
    assert_eq!(s.shard(), 5);
    end_span(&mut tracer, s, 20);
    let (s2, _) = span(&tracer, &mut descriptors, task("u"), 5, true, None, 30);
    end_span(&mut tracer, s2, 40);
    let spans = flush(&mut tracer);
    assert_eq!(spans.len(), 2);
    assert_eq!(spans[0], RawSpan { typ: task("t"), thread_id: 5, start: 10, end: 20 });
    assert_eq!(spans[1], RawSpan { typ: task("u"), thread_id: 5, start: 30, end: 40 });
    assert_eq!(descriptors.drain_descriptors(), vec![thread_descriptor(5, None)]);
    // A second first span of the same thread adds no second entry; the
    // descriptor is marked to be written out again.
    let (_, _) = span(&tracer, &mut descriptors, task("v"), 5, false, None, 50);
    assert_eq!(descriptors.drain_descriptors(), vec![thread_descriptor(5, None)]);
    assert!(descriptors.drain_descriptors().is_empty());
}

#[test]
fn flush_returns_every_ended_span_once_and_leaves_tracing_on() {
    let mut tracer = initialize(&Config::new());
    let mut descriptors = DescriptorTable::new();
    start(&mut tracer);
    for i in 0..1500usize {
        let (s, _) = span(&tracer, &mut descriptors, Type::RuntimePark(RuntimePark {}), i % 3, true, None, i as u64);
        end_span(&mut tracer, s, i as u64 + 1);
    }
    let _ = stop(&mut tracer);
    let spans = flush(&mut tracer);
    assert_eq!(spans.len(), 1500);
    let mut starts: Vec<u64> = spans.iter().map(|s| s.start).collect();
    starts.sort();
    assert_eq!(starts, (0..1500u64).collect::<Vec<_>>());
    assert!(enabled(&tracer));
    assert!(flush(&mut tracer).is_empty());
}

#[test]
fn stop_hands_over_the_consumers_spans_only() {
    let mut tracer = initialize(&Config::new());
    let mut descriptors = DescriptorTable::new();
    start(&mut tracer);
    // 1024 spans on one shard fill a batch, which is handed to the consumer.
    for i in 0..1025u64 {
        let (s, _) = span(&tracer, &mut descriptors, Type::RuntimePark(RuntimePark {}), 0, true, None, i);
        end_span(&mut tracer, s, i + 1);
    }
    let handed = stop(&mut tracer);
    assert_eq!(handed.len(), 1024);
    assert_eq!(handed[0].start, 0);
    assert!(!enabled(&tracer));
    // The span still queued by the shard is not handed over by stop.
    let rest = flush(&mut tracer);
    assert_eq!(rest.len(), 1);
    assert_eq!(rest[0].start, 1024);
}

#[test]
fn span_ended_after_stop_is_not_recorded() {
    let mut tracer = initialize(&Config::new());
    let mut descriptors = DescriptorTable::new();
    start(&mut tracer);
    let (s, _) = span(&tracer, &mut descriptors, task("t"), 1, true, None, 1);
    let _ = stop(&mut tracer);
    end_span(&mut tracer, s, 2);
    assert!(flush(&mut tracer).is_empty());
}

#[test]
fn pending_non_slice_is_reported() {
    let mut tracer = initialize(&Config::new());
    let mut descriptors = DescriptorTable::new();
    start(&mut tracer);
    assert!(!has_pending_non_slice(&tracer));
    let (s, _) = span(&tracer, &mut descriptors, Type::RuntimeStart(RuntimeStart {}), 2, true, None, 1);
    end_span(&mut tracer, s, 2);
    assert!(has_pending_non_slice(&tracer));
    flush(&mut tracer);
    assert!(!has_pending_non_slice(&tracer));
}
