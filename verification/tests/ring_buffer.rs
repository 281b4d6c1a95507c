use rt_trace::utils::ring_buffer::RingBuffer;

#[test]
fn ring_buffer_keeps_everything_below_capacity() {
    let mut rb = RingBuffer::new(3);
    rb.push_overwrite(1);
    rb.push_overwrite(2);
    assert_eq!(rb.drain(), vec![1, 2]);
    assert_eq!(rb.drain(), Vec::<i32>::new());
}

#[test]
fn ring_buffer_overwrites_oldest_when_full() {
    let mut rb = RingBuffer::new(3);
    for i in 1..=5 {
        rb.push_overwrite(i);
    }
    assert_eq!(rb.drain(), vec![3, 4, 5]);
}

#[test]
fn ring_buffer_keeps_most_recent_capacity_items() {
    for cap in 1..6usize {
        for n in 0..12usize {
            let mut rb = RingBuffer::new(cap);
            for i in 0..n {
                rb.push_overwrite(i);
            }
            let start = if n > cap { n - cap } else { 0 };
            let expected: Vec<usize> = (start..n).collect();
            assert_eq!(rb.drain(), expected);
        }
    }
}

#[test]
fn ring_buffer_is_reusable_after_drain() {
    let mut rb = RingBuffer::new(2);
    rb.push_overwrite("a");
    rb.push_overwrite("b");
    rb.push_overwrite("c");
    assert_eq!(rb.drain(), vec!["b", "c"]);
    rb.push_overwrite("d");
    assert_eq!(rb.drain(), vec!["d"]);
}
