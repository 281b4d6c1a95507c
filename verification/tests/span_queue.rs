use rt_trace::backend::perfetto::{process_descriptor, thread_descriptor};
use rt_trace::span::{RawSpan, RunTask, RuntimePark, RuntimeStart, Type};
use rt_trace::span_queue::{
    find_non_slice, spans_equal, Command, DescriptorTable, SpanQueue, SpanQueueStore, DEFAULT_BATCH_SIZE,
};

fn park(i: u64) -> RawSpan {
    RawSpan { typ: Type::RuntimePark(RuntimePark {}), thread_id: 1, start: i, end: i + 1 }
}

#[test]
fn batch_size_is_1024() {
    assert_eq!(DEFAULT_BATCH_SIZE, 1024);
}

#[test]
fn queue_hands_on_a_full_batch() {
    let mut q = SpanQueue::new();
    for i in 0..(DEFAULT_BATCH_SIZE as u64 - 1) {
        assert!(q.push(park(i)).is_none());
    }
    match q.push(park(9999)) {
        Some(Command::SendSpans(spans)) => {
            assert_eq!(spans.len(), DEFAULT_BATCH_SIZE);
            assert_eq!(spans[0], park(0));
            assert_eq!(spans[DEFAULT_BATCH_SIZE - 1], park(9999));
        }
        None => panic!("a full batch must be handed on"),
    }
    let Command::SendSpans(rest) = q.flush();
    assert!(rest.is_empty());
}

#[test]
fn queue_flush_hands_on_in_order() {
    let mut q = SpanQueue::new();
    q.push(park(1));
    q.push(park(2));
    let Command::SendSpans(spans) = q.flush();
    assert_eq!(spans, vec![park(1), park(2)]);
    let Command::SendSpans(again) = q.flush();
    assert!(again.is_empty());
}

#[test]
fn store_indices_wrap_around_shards() {
    let mut store = SpanQueueStore::new(2);
    store.register();
    store.register();
    assert_eq!(store.len(), 2);
    store.push(5, park(1));
    let Command::SendSpans(spans) = store.flush(1);
    assert_eq!(spans, vec![park(1)]);
    let Command::SendSpans(spans) = store.flush(0);
    assert!(spans.is_empty());
}

#[test]
fn descriptors_drain_once() {
    let mut table = DescriptorTable::new();
    table.add_descriptor(process_descriptor(7));
    table.add_descriptor(thread_descriptor(3, Some("worker".to_string())));
    let drained = table.drain_descriptors();
    assert_eq!(drained.len(), 2);
    assert_eq!(drained[0], process_descriptor(7));
    assert!(table.drain_descriptors().is_empty());
}

#[test]
fn table_reports_non_descriptors_not_written_out() {
    let mut table = DescriptorTable::new();
    table.add_descriptor(thread_descriptor(3, Some("worker".to_string())));
    assert!(table.unflushed_are_descriptors());
    assert!(table.contains(&thread_descriptor(3, Some("worker".to_string()))));
    assert!(!table.contains(&thread_descriptor(4, Some("worker".to_string()))));
    table.add_descriptor(park(4));
    assert!(!table.unflushed_are_descriptors());
    assert_eq!(table.drain_descriptors().len(), 2);
    assert!(table.unflushed_are_descriptors());
}

#[test]
fn adding_a_known_span_marks_it_unwritten() {
    let mut table = DescriptorTable::new();
    table.add_descriptor(process_descriptor(7));
    table.add_descriptor(process_descriptor(7));
    assert_eq!(table.drain_descriptors(), vec![process_descriptor(7)]);
    table.add_descriptor(process_descriptor(7));
    assert_eq!(table.drain_descriptors(), vec![process_descriptor(7)]);
    assert!(table.drain_descriptors().is_empty());
}

#[test]
fn spans_compare_by_their_fields() {
    let a = RawSpan {
        typ: Type::RunTask(RunTask { file: Some("a.rs"), name: Some("n".to_string()), ..RunTask::default() }),
        thread_id: 1,
        start: 2,
        end: 3,
    };
    let mut b = a.clone();
    assert!(spans_equal(&a, &b));
    b.typ = Type::RunTask(RunTask { file: Some("b.rs"), name: Some("n".to_string()), ..RunTask::default() });
    assert!(!spans_equal(&a, &b));
    assert!(!spans_equal(&a, &park(1)));
}

#[test]
fn non_slices_are_found() {
    let start = RawSpan { typ: Type::RuntimeStart(RuntimeStart {}), thread_id: 0, start: 0, end: 0 };
    let task = RawSpan { typ: Type::RunTask(RunTask::default()), thread_id: 0, start: 0, end: 1 };
    assert!(find_non_slice(&vec![park(1), start]));
    assert!(find_non_slice(&vec![park(1), process_descriptor(1)]));
    assert!(!find_non_slice(&vec![park(1), task]));
}
