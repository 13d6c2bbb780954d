use rust_synth::ring_buffer_manager::write_split;
use rust_synth::ring_buffer_manager::RingBufferManager;
use rust_synth::space_available;

#[test]
fn ring_round_trip_without_wrap() {
    let mut rb = RingBufferManager::new(8);
    let samples: Vec<u32> = vec![1, 2, 3, 4, 5];
    rb.write_samples(&samples);
    assert_eq!(rb.write_idx, 5);
    let back = rb.read_span(0, 5);
    assert_eq!(back, samples);
}

#[test]
fn ring_round_trip_across_wraparound() {
    let mut rb = RingBufferManager::new(8);
    // Move the cursor to slot 5 first.
    rb.write_samples(&vec![9, 9, 9, 9, 9]);
    assert_eq!(rb.write_idx, 5);
    // A run of 6 crosses the wrap boundary (5..8 then 0..3).
    let samples: Vec<u32> = vec![10, 20, 30, 40, 50, 60];
    rb.write_samples(&samples);
    assert_eq!(rb.write_idx, 3);
    let back = rb.read_span(5, 6);
    assert_eq!(back, samples);
    // The untouched span keeps the older data.
    assert_eq!(rb.read_span(3, 2), vec![9, 9]);
}

#[test]
fn ring_round_trip_at_capacity_minus_one() {
    let mut rb = RingBufferManager::new(4);
    rb.write_samples(&vec![7]);
    let samples: Vec<u32> = vec![100, 200, 300];
    rb.write_samples(&samples);
    assert_eq!(rb.read_span(1, 3), samples);
}

#[test]
fn write_split_contiguous_and_wrapped() {
    // Fits without wrapping.
    assert_eq!(write_split(2, 3, 8), (3, 5));
    // Exactly reaches the end.
    assert_eq!(write_split(5, 3, 8), (3, 0));
    // Crosses the boundary: 3 samples at slot 5, the other 3 at slot 0.
    assert_eq!(write_split(5, 6, 8), (3, 3));
    // From slot 0 nothing wraps.
    assert_eq!(write_split(0, 8, 8), (8, 0));
}

#[test]
fn space_available_reserves_one_slot() {
    // Empty buffer: everything but the reserved slot.
    assert_eq!(space_available(0, 0, 8), 7);
    // Consumer ahead of producer.
    assert_eq!(space_available(3, 5, 8), 5);
    // One slot left.
    assert_eq!(space_available(6, 5, 8), 0);
    // Producer just behind the consumer after wrapping.
    assert_eq!(space_available(0, 7, 8), 0);
    assert_eq!(space_available(7, 0, 8), 6);
}
