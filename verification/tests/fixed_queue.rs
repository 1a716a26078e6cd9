use rate_of_change::FixedQueue;

#[test]
fn eviction_drops_the_oldest() {
    let mut queue = FixedQueue::<i32>::new(2);
    queue.add(1);
    queue.add(2);
    queue.add(3);
    assert_eq!(Some(2), queue.at(0));
    assert_eq!(Some(3), queue.at(1));
    assert_eq!(2, queue.size());
}

#[test]
fn new_queue_is_empty() {
    let queue = FixedQueue::<u64>::new(3);
    assert_eq!(0, queue.size());
    assert_eq!(3, queue.capacity());
    assert_eq!(None, queue.at(0));
}

#[test]
fn size_grows_to_capacity_and_stays() {
    let mut queue = FixedQueue::<i32>::new(2);
    queue.add(2);
    assert_eq!(1, queue.size());
    queue.add(3);
    assert_eq!(2, queue.size());
    queue.add(4);
    assert_eq!(2, queue.size());
    queue.clear();
    assert_eq!(0, queue.size());
    assert_eq!(2, queue.capacity());
}

#[test]
fn at_rejects_positions_out_of_range() {
    let mut queue = FixedQueue::<u8>::new(4);
    queue.add(7);
    queue.add(8);
    assert_eq!(None, queue.at(-1));
    assert_eq!(None, queue.at(i64::MIN));
    assert_eq!(Some(7), queue.at(0));
    assert_eq!(Some(8), queue.at(1));
    assert_eq!(None, queue.at(2));
    assert_eq!(None, queue.at(i64::MAX));
}

#[test]
fn holds_the_newest_values_in_order_of_arrival() {
    for capacity in 1u32..=4 {
        let mut queue = FixedQueue::<u32>::new(capacity);
        for count in 1u32..=11 {
            queue.add(count);
            let kept = count.min(capacity);
            assert_eq!(kept as usize, queue.size());
            for position in 0..kept {
                assert_eq!(Some(count - kept + 1 + position), queue.at(i64::from(position)));
            }
            assert_eq!(None, queue.at(i64::from(kept)));
        }
    }
}

#[test]
fn capacity_one_keeps_only_the_last() {
    let mut queue = FixedQueue::<i32>::new(1);
    queue.add(5);
    queue.add(6);
    assert_eq!(1, queue.size());
    assert_eq!(Some(6), queue.at(0));
}

#[test]
fn clear_then_refill_after_wrap() {
    let mut queue = FixedQueue::<i32>::new(3);
    for value in 1..=5 {
        queue.add(value);
    }
    assert_eq!(Some(3), queue.at(0));
    queue.clear();
    assert_eq!(None, queue.at(0));
    queue.add(9);
    queue.add(10);
    assert_eq!(Some(9), queue.at(0));
    assert_eq!(Some(10), queue.at(1));
    assert_eq!(2, queue.size());
}
