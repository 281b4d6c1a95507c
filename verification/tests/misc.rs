use rt_trace::backend::perfetto::{process_descriptor, PerfettoReporter};
use rt_trace::config::Config;
use rt_trace::flight_recorder::Handle;
use rt_trace::hopframe::symbolize::{read_aslr_offset, Error, MemoryMap, SymbolMapBuilder};
use rt_trace::hopframe::unwinder::UnwindBuilderAarch64;
use rt_trace::span::{RuntimePark, Type};
use rt_trace::span_queue::DescriptorTable;
use rt_trace::task_trace::trace_leaf_frames;
use rt_trace::tracing_perfetto::atomic_u64::AtomicU64;
use rt_trace::tracing_perfetto::error::TracingPerfettoError;
use rt_trace::tracing_perfetto::external::{TokioPerfettoLayerBuilder, TokioPerfettoLayerHandle, TraceEnable};
use std::time::Duration;

#[test]
fn config_sets_sleep_duration() {
    let mut config = Config::new();
    assert_eq!(config.sleep_duration(), None);
    assert_eq!(config.num_shard(), None);
    config.consumer_thread_sleep_duration(Duration::from_millis(5));
    assert_eq!(config.sleep_duration(), Some(Duration::from_millis(5)));
}

fn map(address: u64, path: Option<&str>) -> MemoryMap {
    MemoryMap { address, pathname: path.map(|p| p.to_string()) }
}

#[test]
fn aslr_offset_is_lowest_mapping_of_executable() {
    let exe = "/bin/app".to_string();
    let maps = vec![
        map(0x5000, Some("/bin/app")),
        map(0x1000, Some("/lib/libc.so")),
        map(0x3000, Some("/bin/app")),
        map(0x2000, None),
    ];
    assert_eq!(read_aslr_offset(&exe, &maps).unwrap(), 0x3000);
}

#[test]
fn aslr_offset_without_mapping_is_an_error() {
    let exe = "/bin/app".to_string();
    let maps = vec![map(0x1000, Some("/lib/libc.so")), map(0x2000, None)];
    assert!(matches!(read_aslr_offset(&exe, &maps), Err(Error::NoMemoryMapping)));
    assert!(matches!(read_aslr_offset(&exe, &vec![]), Err(Error::NoMemoryMapping)));
}

#[test]
fn symbol_map_builder_keeps_binary_path() {
    assert_eq!(SymbolMapBuilder::new().binary_path(), None);
    assert_eq!(SymbolMapBuilder::new().with_binary_path("/bin/app").binary_path(), Some("/bin/app"));
    let _ = UnwindBuilderAarch64::new();
}

#[test]
fn error_display_joins_message_and_source() {
    let e = TracingPerfettoError::new("write failed", "disk full".to_string());
    assert_eq!(e.to_display_string(), "write failed: disk full");
    assert_eq!(e.source().map(|s| s.as_str()), Some("disk full"));
}

#[test]
fn layer_builder_defaults_to_trace_file() {
    assert_eq!(TokioPerfettoLayerBuilder::new().output_file(), "./trace.pftrace");
    assert_eq!(TokioPerfettoLayerBuilder::new().file_name("./test.pftrace").output_file(), "./test.pftrace");
}

#[test]
fn layer_is_installed_once() {
    let handle = TokioPerfettoLayerHandle {};
    let mut state = TraceEnable::Initialize;
    let builder = handle.start(&mut state).expect("the first start installs the layer");
    assert_eq!(builder.output_file(), "./test.pftrace");
    assert_eq!(state, TraceEnable::Running);
    assert!(handle.start(&mut state).is_none());
    handle.stop(&mut state);
    assert_eq!(state, TraceEnable::Suspended);
    assert!(handle.start(&mut state).is_none());
    assert_eq!(state, TraceEnable::Running);
}

#[test]
fn atomic_u64_loads_what_was_stored() {
    let a = AtomicU64::new(17);
    assert_eq!(a.load(std::sync::atomic::Ordering::Relaxed), 17);
    assert_eq!(a.load(std::sync::atomic::Ordering::SeqCst), 17);
}

#[test]
fn flight_recorder_writes_recorded_spans() {
    let handle = Handle::new();
    let mut tracer = handle.initialize();
    let mut table = DescriptorTable::new();
    table.add_descriptor(process_descriptor(0));
    handle.start(&mut tracer);
    let (s, _) = rt_trace::span(&tracer, &mut table, Type::RuntimePark(RuntimePark {}), 1, false, Some("w".to_string()), 5);
    rt_trace::end_span(&mut tracer, s, 9);
    assert!(handle.stop(&mut tracer).is_empty());
    let reporter = PerfettoReporter::new(7);
    let bytes = handle.flush_trace(&mut tracer, &mut table, &reporter);
    // The process descriptor, then the thread's, then the span's packets.
    let mut expected_table = DescriptorTable::new();
    expected_table.add_descriptor(process_descriptor(0));
    expected_table.add_descriptor(rt_trace::backend::perfetto::thread_descriptor(1, Some("w".to_string())));
    let span = rt_trace::span::RawSpan { typ: Type::RuntimePark(RuntimePark {}), thread_id: 1, start: 5, end: 9 };
    assert_eq!(bytes, reporter.consume(&vec![span], &mut expected_table));
    assert!(rt_trace::enabled(&tracer));
    assert!(table.drain_descriptors().is_empty());
    assert!(handle.flush_trace(&mut tracer, &mut table, &reporter).is_empty());
}

#[test]
fn task_trace_keeps_frames_between_leaf_and_root() {
    // frames, innermost first: unwinder internals, the leaf, two task frames, the root, the runtime.
    let frames = vec![1, 2, 100, 7, 8, 200, 9];
    assert_eq!(trace_leaf_frames(&frames, 100, 200), vec![3, 4]);
    // no leaf: nothing is kept
    assert!(trace_leaf_frames(&frames, 55, 200).is_empty());
    // no root: everything above the leaf
    assert_eq!(trace_leaf_frames(&frames, 100, 300), vec![3, 4, 5, 6]);
}
