use live_transcribe::buffer::{AdaptiveBuffer, BufferError, OverflowStrategy};

#[test]
fn test_adaptive_buffer_basic_operations() {
    let mut buffer = AdaptiveBuffer::new(10, 100);
    buffer.push(1).unwrap();
    buffer.push(2).unwrap();
    assert_eq!(buffer.len(), 2);
    assert_eq!(buffer.pop(), Some(1));
    assert_eq!(buffer.pop(), Some(2));
    assert!(buffer.is_empty());
}

#[test]
fn test_buffer_overflow_drop_oldest() {
    let mut buffer = AdaptiveBuffer::with_overflow_strategy(2, 2, OverflowStrategy::DropOldest);
    buffer.push(1).unwrap();
    buffer.push(2).unwrap();
    buffer.push(3).unwrap();
    assert_eq!(buffer.len(), 2);
    assert_eq!(buffer.pop(), Some(2));
    assert_eq!(buffer.pop(), Some(3));
    assert_eq!(buffer.metrics().total_overflow_events, 1);
}

#[test]
fn test_buffer_expansion() {
    let mut buffer = AdaptiveBuffer::with_overflow_strategy(2, 10, OverflowStrategy::Expand);
    buffer.push(1).unwrap();
    buffer.push(2).unwrap();
    buffer.push(3).unwrap();
    assert_eq!(buffer.len(), 3);
    assert!(buffer.current_capacity() > 2);
}

#[test]
fn test_load_tracking_and_adjustment() {
    let mut buffer = AdaptiveBuffer::new(10, 100);
    for i in 0..20 {
        buffer.push(i).unwrap();
    }
    let capacity = buffer.current_capacity();
    assert!(capacity >= 10);
    for _ in 0..15 {
        buffer.pop();
    }
    let metrics = buffer.metrics();
    assert!(metrics.total_writes > 0);
}

#[test]
fn backpressure_refuses_when_full() {
    let mut buffer = AdaptiveBuffer::with_overflow_strategy(2, 2, OverflowStrategy::Backpressure);
    buffer.push(1).unwrap();
    buffer.push(2).unwrap();
    assert!(matches!(buffer.push(3), Err(BufferError::BufferFull)));
    assert_eq!(buffer.pop(), Some(1));
    assert_eq!(buffer.pop(), Some(2));
    assert_eq!(buffer.pop(), None);
}

#[test]
fn expand_doubles_then_drops_at_maximum() {
    let mut buffer = AdaptiveBuffer::with_overflow_strategy(1, 2, OverflowStrategy::Expand);
    buffer.set_auto_resize(false);
    assert_eq!(buffer.current_capacity(), 2);
    buffer.push(1).unwrap();
    buffer.push(2).unwrap();
    buffer.push(3).unwrap();
    assert_eq!(buffer.len(), 2);
    assert_eq!(buffer.metrics().total_overflow_events, 1);
    assert_eq!(buffer.pop(), Some(2));
}

#[test]
fn expand_grows_capacity_without_dropping() {
    let mut buffer = AdaptiveBuffer::with_overflow_strategy(2, 10, OverflowStrategy::Expand);
    buffer.set_auto_resize(false);
    assert_eq!(buffer.resize_buffer(2).is_ok(), true);
    buffer.push(1).unwrap();
    buffer.push(2).unwrap();
    buffer.push(3).unwrap();
    assert_eq!(buffer.current_capacity(), 4);
    assert_eq!(buffer.len(), 3);
    assert_eq!(buffer.metrics().total_overflow_events, 0);
}

#[test]
fn load_driven_growth_is_one_and_a_half() {
    let mut buffer = AdaptiveBuffer::with_overflow_strategy(4, 100, OverflowStrategy::DropOldest);
    buffer.resize_buffer(4).unwrap();
    buffer.push(7).unwrap();
    assert_eq!(buffer.current_capacity(), 6);
}

#[test]
fn shrink_never_drops_items() {
    let mut buffer = AdaptiveBuffer::new(1, 100);
    buffer.set_auto_resize(false);
    buffer.resize_buffer(8).unwrap();
    for i in 0..8 {
        buffer.push(i).unwrap();
    }
    assert!(matches!(buffer.resize_buffer(4), Err(BufferError::CapacityTooSmall)));
    assert_eq!(buffer.len(), 8);
    buffer.adjust_capacity(100);
    assert_eq!(buffer.current_capacity(), 8);
    assert_eq!(buffer.len(), 8);
}

#[test]
fn utilization_in_parts_per_million() {
    let mut buffer = AdaptiveBuffer::new(4, 4);
    buffer.set_auto_resize(false);
    buffer.push(1).unwrap();
    assert_eq!(buffer.utilization(), 250_000);
    assert_eq!(buffer.metrics().average_utilization, 25_000);
    assert_eq!(buffer.metrics().max_size_reached, 1);
}

#[test]
fn clear_returns_to_minimum() {
    let mut buffer = AdaptiveBuffer::new(3, 50);
    for i in 0..10 {
        buffer.push(i).unwrap();
    }
    buffer.clear();
    assert!(buffer.is_empty());
    assert_eq!(buffer.current_capacity(), 3);
}

#[test]
fn capacity_stays_within_bounds() {
    let mut buffer = AdaptiveBuffer::new(5, 12);
    for i in 0..100 {
        buffer.push(i).unwrap();
        assert!(buffer.len() <= buffer.current_capacity());
        assert!(buffer.current_capacity() >= 5 && buffer.current_capacity() <= 12);
    }
    for _ in 0..100 {
        buffer.pop();
        assert!(buffer.current_capacity() >= 5 && buffer.current_capacity() <= 12);
    }
}

#[test]
fn zero_minimum_still_holds_items() {
    let mut buffer = AdaptiveBuffer::new(0, 5);
    assert!(buffer.current_capacity() >= 1 && buffer.current_capacity() <= 5);
    for i in 0..10 {
        buffer.push(i).unwrap();
        assert!(buffer.len() <= buffer.current_capacity());
    }
    buffer.clear();
    assert_eq!(buffer.current_capacity(), 1);
}
