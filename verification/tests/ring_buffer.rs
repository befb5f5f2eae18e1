use macmon_graph::ring_buffer::RingBuffer;

#[test]
fn push_and_truncate() {
    let mut rb = RingBuffer::new(3);
    rb.push(1.0);
    rb.push(2.0);
    rb.push(3.0);
    rb.push(4.0);
    assert_eq!(rb.as_slice(), &[4.0, 3.0, 2.0]);
    assert_eq!(rb.len(), 3);
}

#[test]
fn newest_first() {
    let mut rb = RingBuffer::new(10);
    rb.push(10.0);
    rb.push(20.0);
    rb.push(30.0);
    assert_eq!(rb.as_slice()[0], 30.0);
    assert_eq!(rb.as_slice()[2], 10.0);
}

#[test]
fn empty_until_pushed_and_after_clear() {
    let mut rb: RingBuffer<u32> = RingBuffer::new(4);
    assert!(rb.is_empty());
    assert_eq!(rb.len(), 0);
    assert_eq!(rb.capacity(), 4);
    rb.push(7);
    assert!(!rb.is_empty());
    rb.clear();
    assert!(rb.is_empty());
    assert_eq!(rb.capacity(), 4);
    rb.push(8);
    assert_eq!(rb.as_slice(), &[8]);
}

#[test]
fn zero_capacity_keeps_nothing() {
    let mut rb = RingBuffer::new(0);
    rb.push(1u8);
    rb.push(2u8);
    assert!(rb.is_empty());
    assert_eq!(rb.as_slice(), &[] as &[u8]);
}

#[test]
fn clone_keeps_history() {
    let mut rb = RingBuffer::new(2);
    rb.push(String::from("a"));
    rb.push(String::from("b"));
    rb.push(String::from("c"));
    let copy = rb.clone();
    assert_eq!(copy.as_slice(), &[String::from("c"), String::from("b")]);
    assert_eq!(copy.capacity(), 2);
}
