use amity::flip_queue::FlipBuffer;
use amity::ring_buffer::RingBuffer;

fn drain_all<T>(buffer: &mut FlipBuffer<T>) -> Vec<T> {
    let mut drain = buffer.drain();
    let mut out = Vec::new();
    while let Some(v) = drain.next() {
        out.push(v);
    }
    out
}

#[test]
fn flip_buffer_sequential_pushes_then_drain() {
    let mut flip_buffer = FlipBuffer::with_capacity(256);
    for i in 0..10 {
        for j in 0..10 {
            flip_buffer.push_sync(i * 10 + j).unwrap();
        }
    }
    let mut idx = drain_all(&mut flip_buffer);
    idx.sort();
    assert_eq!(idx, (0..100).collect::<Vec<_>>());
}

#[test]
fn flip_buffer_overflowing_pushes_then_drain() {
    let mut flip_buffer = FlipBuffer::with_capacity(1);
    for i in 0..10 {
        for j in 0..10 {
            if let Err(value) = flip_buffer.push_sync(i * 10 + j) {
                flip_buffer.push(value);
            }
        }
    }
    let mut idx = drain_all(&mut flip_buffer);
    idx.sort();
    assert_eq!(idx, (0..100).collect::<Vec<_>>());
}

#[test]
fn flip_buffer_overflowing_pushes_then_pop() {
    let mut flip_buffer = FlipBuffer::with_capacity(1);
    for i in 0..10 {
        for j in 0..10 {
            if let Err(value) = flip_buffer.push_sync(i * 10 + j) {
                flip_buffer.push(value);
            }
        }
    }
    for _ in 0..100 {
        assert!(flip_buffer.pop().is_some());
    }
    assert_eq!(flip_buffer.pop(), None);
}

#[test]
fn flip_push_sync_until_full() {
    let mut buffer = FlipBuffer::with_capacity(2);
    assert_eq!(buffer.push_sync(1), Ok(()));
    assert_eq!(buffer.push_sync(2), Ok(()));
    assert_eq!(buffer.push_sync(3), Err(3));
    assert_eq!(buffer.capacity(), 2);
    assert_eq!(drain_all(&mut buffer), vec![1, 2]);
}

#[test]
fn flip_pop_sync_ignores_unflushed_pushes() {
    let mut buffer = FlipBuffer::with_capacity(4);
    assert_eq!(buffer.push_sync(1), Ok(()));
    assert_eq!(buffer.pop_sync(), None);
    assert_eq!(buffer.pop(), Some(1));
    assert_eq!(buffer.pop(), None);
}

#[test]
fn flip_pop_sync_after_flush() {
    let mut buffer = FlipBuffer::with_capacity(4);
    buffer.push(1);
    buffer.push(2);
    assert_eq!(buffer.push_sync(3), Ok(()));
    assert_eq!(buffer.pop_sync(), Some(1));
    assert_eq!(buffer.pop_sync(), Some(2));
    assert_eq!(buffer.pop_sync(), None);
    assert_eq!(buffer.pop(), Some(3));
    assert_eq!(buffer.pop(), None);
}

#[test]
fn flip_push_sync_after_pushes_keeps_order() {
    let mut buffer = FlipBuffer::with_capacity(3);
    buffer.push(1);
    assert_eq!(buffer.push_sync(2), Ok(()));
    assert_eq!(buffer.pop_sync(), Some(1));
    assert_eq!(buffer.push_sync(3), Ok(()));
    assert_eq!(buffer.push_sync(4), Err(4));
    buffer.push(4);
    assert_eq!(buffer.capacity(), 3);
    assert_eq!(drain_all(&mut buffer), vec![2, 3, 4]);
}

#[test]
fn flip_swap_buffer() {
    let mut queue = FlipBuffer::<String>::new();
    for i in 0..10 {
        queue.push(format!("Item {}", i));
    }
    let mut buffer = RingBuffer::new();
    queue.swap_buffer(&mut buffer);
    let mut i = 0;
    while let Some(item) = buffer.pop() {
        assert_eq!(item, format!("Item {}", i));
        i += 1;
    }
    assert_eq!(i, 10);
    assert_eq!(queue.pop(), None);
}

#[test]
fn flip_clear() {
    let mut buffer = FlipBuffer::with_capacity(4);
    buffer.push(1);
    assert_eq!(buffer.push_sync(2), Ok(()));
    buffer.clear();
    assert_eq!(buffer.pop(), None);
    assert_eq!(buffer.capacity(), 4);
    assert_eq!(buffer.push_sync(5), Ok(()));
    assert_eq!(buffer.pop(), Some(5));
}

#[test]
fn flip_drain_nth_and_count() {
    let mut buffer = FlipBuffer::with_capacity(8);
    for i in 0..5 {
        buffer.push(i);
    }
    let mut drain = buffer.drain();
    assert_eq!(drain.size_hint(), (5, Some(5)));
    assert_eq!(drain.nth(2), Some(2));
    assert_eq!(drain.len(), 2);
    assert_eq!(drain.count(), 2);
}

#[test]
fn flip_buffer_zero_sized_values() {
    let mut units = FlipBuffer::<()>::new();
    assert_eq!(units.capacity(), usize::MAX);
    assert_eq!(units.push_sync(()), Ok(()));
    assert_eq!(units.push_sync(()), Ok(()));
    assert_eq!(units.pop_sync(), None);
    units.push(());
    assert_eq!(units.pop(), Some(()));
    assert_eq!(units.pop(), Some(()));
    assert_eq!(units.pop(), Some(()));
    assert_eq!(units.pop(), None);
}
