use amity::ring_buffer::RingBuffer;

#[test]
fn ring_buffer_fifo_order() {
    let mut buffer = RingBuffer::<i32>::new();
    buffer.push(10);
    buffer.push(20);
    buffer.push(30);
    assert_eq!(buffer.len(), 3);
    assert_eq!(buffer.capacity(), 4);
    assert_eq!(buffer.pop(), Some(10));
    assert_eq!(buffer.pop(), Some(20));
    assert_eq!(buffer.pop(), Some(30));
    assert_eq!(buffer.pop(), None);
    assert!(buffer.is_empty());
}

#[test]
fn ring_buffer_drain_clears() {
    let mut buffer = RingBuffer::<String>::with_capacity(10);
    for i in 0..5 {
        buffer.push(format!("Item {}", i));
    }
    let mut drain = buffer.drain();
    assert_eq!(drain.len(), 5);
    let mut items = Vec::new();
    while let Some(item) = drain.next() {
        items.push(item);
    }
    assert_eq!(items, vec!["Item 0", "Item 1", "Item 2", "Item 3", "Item 4"]);
    assert!(buffer.is_empty());
    assert_eq!(buffer.capacity(), 10);
    assert_eq!(buffer.head(), 0);
}

#[test]
fn ring_buffer_wraps_and_grows() {
    let mut buffer = RingBuffer::<u32>::with_capacity(2);
    buffer.push(1);
    buffer.push(2);
    assert_eq!(buffer.pop(), Some(1));
    buffer.push(3);
    assert_eq!(buffer.head(), 1);
    assert_eq!(buffer.capacity(), 2);
    buffer.push(4);
    assert_eq!(buffer.capacity(), 4);
    assert_eq!(buffer.head(), 0);
    assert_eq!(buffer.len(), 3);
    assert_eq!(buffer.pop(), Some(2));
    assert_eq!(buffer.pop(), Some(3));
    assert_eq!(buffer.pop(), Some(4));
    assert_eq!(buffer.pop(), None);
}

#[test]
fn ring_buffer_min_capacity_depends_on_size() {
    let mut bytes = RingBuffer::<u8>::new();
    assert_eq!(bytes.capacity(), 0);
    bytes.push(1);
    assert_eq!(bytes.capacity(), 8);

    let mut words = RingBuffer::<u64>::new();
    words.push(1);
    assert_eq!(words.capacity(), 4);

    let mut big = RingBuffer::<[u8; 2000]>::new();
    big.push([0; 2000]);
    assert_eq!(big.capacity(), 1);
    big.push([1; 2000]);
    assert_eq!(big.capacity(), 2);
    big.push([2; 2000]);
    assert_eq!(big.capacity(), 4);
    assert_eq!(big.pop().unwrap()[0], 0);
    assert_eq!(big.pop().unwrap()[0], 1);
}

#[test]
fn ring_buffer_growth_doubles() {
    let mut buffer = RingBuffer::<u32>::with_capacity(5);
    for i in 0..6 {
        buffer.push(i);
    }
    assert_eq!(buffer.capacity(), 10);
    for i in 0..6 {
        assert_eq!(buffer.pop(), Some(i));
    }
}

#[test]
fn ring_buffer_clear_keeps_capacity() {
    let mut buffer = RingBuffer::<u32>::with_capacity(3);
    buffer.push(1);
    buffer.push(2);
    assert_eq!(buffer.pop(), Some(1));
    buffer.push(3);
    buffer.push(4);
    buffer.clear();
    assert!(buffer.is_empty());
    assert_eq!(buffer.capacity(), 3);
    assert_eq!(buffer.head(), 0);
    buffer.push(5);
    assert_eq!(buffer.pop(), Some(5));
}

#[test]
fn ring_buffer_drain_nth() {
    let mut buffer = RingBuffer::<u32>::with_capacity(4);
    buffer.push(0);
    buffer.push(0);
    assert_eq!(buffer.pop(), Some(0));
    assert_eq!(buffer.pop(), Some(0));
    for i in 1..=4 {
        buffer.push(i);
    }
    let mut drain = buffer.drain();
    assert_eq!(drain.size_hint(), (4, Some(4)));
    assert_eq!(drain.nth(0), Some(1));
    assert_eq!(drain.nth(1), Some(3));
    assert_eq!(drain.len(), 1);
    assert_eq!(drain.nth(1), None);
    assert_eq!(drain.len(), 0);
    assert_eq!(drain.next(), None);
    assert_eq!(drain.count(), 0);
}

#[test]
fn ring_buffer_drain_count() {
    let mut buffer = RingBuffer::<u32>::new();
    buffer.push(7);
    buffer.push(8);
    let drain = buffer.drain();
    assert_eq!(drain.count(), 2);
    assert!(buffer.is_empty());
}

#[test]
fn ring_buffer_iter_both_ends() {
    let mut buffer = RingBuffer::<u32>::with_capacity(4);
    buffer.push(9);
    buffer.push(9);
    buffer.pop();
    buffer.pop();
    for i in 1..=4 {
        buffer.push(i);
    }
    let mut it = buffer.iter();
    assert_eq!(it.size_hint(), (4, None));
    assert_eq!(it.next(), Some(&1));
    assert_eq!(it.next_back(), Some(&4));
    assert_eq!(it.next(), Some(&2));
    assert_eq!(it.next_back(), Some(&3));
    assert_eq!(it.next(), None);
    assert_eq!(it.next_back(), None);

    let mut it = buffer.iter();
    assert_eq!(it.nth(2), Some(&3));
    assert_eq!(it.count(), 1);

    let mut it = buffer.iter();
    assert_eq!(it.nth_back(1), Some(&3));
    assert_eq!(it.last(), Some(&2));

    let mut it = buffer.iter();
    assert_eq!(it.nth(4), None);
    assert_eq!(it.next(), None);

    assert_eq!(buffer.iter().last(), Some(&4));
    assert_eq!(buffer.iter().count(), 4);
}

#[test]
fn ring_buffer_zero_sized_values() {
    let mut units = RingBuffer::<()>::new();
    assert_eq!(units.capacity(), usize::MAX);
    assert_eq!(RingBuffer::<()>::with_capacity(3).capacity(), usize::MAX);
    assert!(units.is_empty());
    for _ in 0..5 {
        units.push(());
    }
    assert_eq!(units.len(), 5);
    assert_eq!(units.capacity(), usize::MAX);
    assert_eq!(units.head(), 0);
    assert_eq!(units.pop(), Some(()));
    assert_eq!(units.head(), 1);
    assert_eq!(units.iter().count(), 4);
    let mut drain = units.drain();
    assert_eq!(drain.nth(2), Some(()));
    assert_eq!(drain.len(), 1);
    assert!(units.is_empty());
    assert_eq!(units.capacity(), usize::MAX);
    units.push(());
    units.clear();
    assert!(units.is_empty());
    assert_eq!(units.pop(), None);
}

#[test]
fn ring_buffer_index_access_and_head() {
    let mut buffer = RingBuffer::<i32>::with_capacity(4);
    for v in [1, 2, 3, 4] {
        buffer.push(v);
    }
    assert_eq!(buffer.head(), 0);
    assert_eq!(buffer.pop(), Some(1));
    assert_eq!(buffer.head(), 1);
    assert_eq!(buffer.pop(), Some(2));
    buffer.push(5);
    buffer.push(6);
    // The values now wrap around the end of the slots.
    assert_eq!(buffer.head(), 2);
    assert_eq!(*buffer.get(0), 3);
    assert_eq!(*buffer.get(3), 6);
    *buffer.get_mut(2) += 10;
    *buffer.get_mut(3) *= 2;
    let all: Vec<i32> = std::iter::from_fn(|| buffer.pop()).collect();
    assert_eq!(all, vec![3, 4, 15, 12]);
    assert_eq!(buffer.head(), 2);
}
