use rt_trace::backend::perfetto::{
    buf_size, create_debug_annotations, decimal_string, encode_packet, process_descriptor,
    thread_descriptor, PacketData, PerfettoReporter, TracePacket,
};
use rt_trace::span::{RawSpan, RunTask, RuntimePark, RuntimeStart, RuntimeTerminate, ThreadDiscriptor, Type, ProcessDiscriptor};
use rt_trace::span_queue::DescriptorTable;

#[test]
fn type_names() {
    assert_eq!(Type::RunTask(RunTask::default()).type_name_str(), "run_task");
    assert_eq!(Type::RuntimeStart(RuntimeStart {}).type_name_str(), "runtime_start");
    assert_eq!(Type::RuntimeTerminate(RuntimeTerminate {}).type_name_string(), "runtime_terminate");
    assert_eq!(Type::RuntimePark(RuntimePark {}).type_name_string(), "runtime_park");
    assert_eq!(
        Type::ThreadDiscriptor(ThreadDiscriptor { thread_name: "x".to_string() }).type_name_str(),
        "thread_discriptor"
    );
    assert_eq!(Type::ProcessDiscriptor(ProcessDiscriptor {}).type_name_str(), "process_discriptor");
}

#[test]
fn decimal_strings() {
    assert_eq!(decimal_string(0), "0");
    assert_eq!(decimal_string(42), "42");
    assert_eq!(decimal_string(u64::MAX), u64::MAX.to_string());
}

#[test]
fn thread_descriptor_is_named_after_thread_or_id() {
    let named = thread_descriptor(9, Some("main".to_string()));
    assert_eq!(named.typ, Type::ThreadDiscriptor(ThreadDiscriptor { thread_name: "main".to_string() }));
    assert_eq!((named.thread_id, named.start, named.end), (9, 0, 0));
    let unnamed = thread_descriptor(123, None);
    assert_eq!(unnamed.typ, Type::ThreadDiscriptor(ThreadDiscriptor { thread_name: "123".to_string() }));
    assert_eq!(process_descriptor(4).typ, Type::ProcessDiscriptor(ProcessDiscriptor {}));
}

#[test]
fn buffer_size_is_four_batches() {
    assert_eq!(buf_size(), 4096);
}

#[test]
fn backtrace_becomes_debug_annotation() {
    let span = RawSpan {
        typ: Type::RunTask(RunTask { backtrace: Some("0x1,0x2,".to_string()), ..Default::default() }),
        thread_id: 1,
        start: 0,
        end: 1,
    };
    let anns = create_debug_annotations(&span);
    assert_eq!(anns.len(), 1);
    assert_eq!(anns[0].name.as_deref(), Some("backtrace"));
    assert_eq!(anns[0].string_value.as_deref(), Some("0x1,0x2,"));
    let park = RawSpan { typ: Type::RuntimePark(RuntimePark {}), thread_id: 1, start: 0, end: 1 };
    assert!(create_debug_annotations(&park).is_empty());
}

#[test]
fn process_descriptor_trace_bytes() {
    let reporter = PerfettoReporter::new(7);
    let mut table = DescriptorTable::new();
    table.add_descriptor(process_descriptor(3));
    let bytes = reporter.consume(&vec![], &mut table);
    assert_eq!(
        bytes,
        vec![0x0A, 0x0B, 0xE2, 0x03, 0x06, 0x08, 0x03, 0x1A, 0x02, 0x08, 0x07, 0x18, 0x2A]
    );
    // The descriptor is written once.
    assert!(reporter.consume(&vec![], &mut table).is_empty());
}

#[test]
fn thread_descriptor_packet_bytes() {
    let reporter = PerfettoReporter::new(7);
    let mut table = DescriptorTable::new();
    table.add_descriptor(thread_descriptor(3, Some("w".to_string())));
    let bytes = reporter.consume(&vec![], &mut table);
    let mut expected = vec![0x0A, 0x17, 0xE2, 0x03, 0x12];
    expected.extend([0x08, 0x03, 0x12, 0x01, 0x77, 0x1A, 0x02, 0x08, 0x07, 0x22, 0x07]);
    expected.extend([0x08, 0x07, 0x10, 0x03, 0x2A, 0x01, 0x77]);
    expected.extend([0x18, 0x2A]);
    assert_eq!(bytes, expected);
}

#[test]
fn span_becomes_begin_and_end_packets() {
    let reporter = PerfettoReporter::new(7);
    let mut table = DescriptorTable::new();
    let span = RawSpan { typ: Type::RunTask(RunTask::default()), thread_id: 1, start: 5, end: 9 };
    let bytes = reporter.consume(&vec![span], &mut table);
    let mut expected = vec![0x0A, 0x15, 0x5A, 0x0F, 0x48, 0x01, 0xBA, 0x01, 0x08];
    expected.extend(b"run_task");
    expected.extend([0x58, 0x01, 0x40, 0x05, 0x50, 0x2A]);
    expected.extend([0x0A, 0x0D, 0x5A, 0x04, 0x48, 0x02, 0x58, 0x01, 0x40, 0x09, 0x50, 0x2A, 0xF8, 0x04, 0x07]);
    assert_eq!(bytes, expected);
}

#[test]
fn annotation_name_precedes_its_value() {
    let reporter = PerfettoReporter::new(7);
    let mut table = DescriptorTable::new();
    let span = RawSpan {
        typ: Type::RunTask(RunTask { backtrace: Some("b".to_string()), ..Default::default() }),
        thread_id: 1,
        start: 5,
        end: 9,
    };
    let bytes = reporter.consume(&vec![span], &mut table);
    // debug_annotations field: name "backtrace" (field 10), then string value "b" (field 6)
    let mut ann = vec![0x22, 0x0E, 0x52, 0x09];
    ann.extend(b"backtrace");
    ann.extend([0x32, 0x01, b'b']);
    assert!(bytes.windows(ann.len()).any(|w| w == ann.as_slice()));
}

#[test]
fn negative_pid_is_sign_extended() {
    let reporter = PerfettoReporter::new(u32::MAX);
    let d = process_descriptor(0);
    let packets = reporter.build_packets(&vec![d], &vec![]);
    let bytes = encode_packet(&packets[0]);
    let pid_field = [0x08, 0xFF, 0xFF, 0xFF, 0xFF, 0xFF, 0xFF, 0xFF, 0xFF, 0xFF, 0x01];
    assert!(bytes.windows(pid_field.len()).any(|w| w == pid_field));
}

fn uuid_of(p: &TracePacket) -> Option<u64> {
    match &p.data {
        Some(PacketData::TrackDescriptor(d)) => d.uuid,
        _ => None,
    }
}

#[test]
fn last_descriptor_comes_first() {
    let reporter = PerfettoReporter::new(1);
    let ds = vec![process_descriptor(10), process_descriptor(11), process_descriptor(12)];
    let spans = vec![RawSpan { typ: Type::RuntimePark(RuntimePark {}), thread_id: 2, start: 1, end: 2 }];
    let packets = reporter.build_packets(&ds, &spans);
    assert_eq!(packets.len(), 5);
    assert_eq!(uuid_of(&packets[0]), Some(12));
    assert_eq!(uuid_of(&packets[1]), Some(10));
    assert_eq!(uuid_of(&packets[2]), Some(11));
    assert_eq!(packets[3].timestamp, Some(1));
    assert_eq!(packets[4].timestamp, Some(2));
    assert_eq!(packets[4].trusted_pid, Some(1));
    assert_eq!(packets[3].trusted_pid, None);
}
