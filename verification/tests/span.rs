use rt_trace::config::Config;
use rt_trace::span::{RawSpan, RunTask, Type};
use rt_trace::span_queue::DescriptorTable;
use rt_trace::{end_span, flush, initialize, span as mk_span, start};

fn assert_equal_as_set(a: &[Type], b: &[Type]) {
    for x in a {
        assert!(b.contains(x));
    }
    for x in b {
        assert!(a.contains(x));
    }
}

#[test]
fn basic() {
    let mut config = Config::new();
    config.consumer_thread_sleep_duration(std::time::Duration::MAX);
    let mut tracer = initialize(&config);
    let mut descriptors = DescriptorTable::new();
    start(&mut tracer);

    // Three threads, each creating and dropping one span.
    for i in 0..3usize {
        let (guard, _) = mk_span(
            &tracer,
            &mut descriptors,
            Type::RunTask(RunTask { name: Some(format!("task{}", i).to_string()), ..Default::default() }),
            i + 1,
            false,
            Some(format!("test-thread-{}", i)),
            100,
        );
        end_span(&mut tracer, guard, 200);
    }

    // this consumer doesn't call drain_descriptors, so we wouldn't get any descriptors.
    let collected: Vec<RawSpan> = flush(&mut tracer);

    let expected = vec![
        Type::RunTask(RunTask { name: Some("task0".to_string()), ..Default::default() }),
        Type::RunTask(RunTask { name: Some("task1".to_string()), ..Default::default() }),
        Type::RunTask(RunTask { name: Some("task2".to_string()), ..Default::default() }),
    ];
    let got: Vec<Type> = collected.iter().map(|span| span.typ.clone()).collect();
    assert_equal_as_set(&got, &expected);
    // The threads' descriptors went to the descriptor table.
    assert_eq!(descriptors.drain_descriptors().len(), 3);
}

#[test]
fn debug_annotation() {}
