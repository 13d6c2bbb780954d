use rust_synth::buffers::FxBuffers;
use rust_synth::buffers::MemoryBuffer;
use rust_synth::buffers::MidiBuffers;
use rust_synth::buffers::OscEventDto;
use rust_synth::buffers::OscillatorBuffers;
use rust_synth::types::NoteDTO;

#[test]
fn midi_queue_fifo_order() {
    let mut q = MidiBuffers::new();
    assert!(q.enqueue_event(1, 60, 100));
    assert!(q.enqueue_event(1, 64, 90));
    assert!(q.enqueue_event(0, 60, 0));

    assert_eq!(q.dequeue_event(), Some(NoteDTO { value: 60, velocity: 100 }));
    assert_eq!(q.dequeue_event(), Some(NoteDTO { value: 64, velocity: 90 }));
    assert_eq!(q.dequeue_event(), Some(NoteDTO { value: 60, velocity: 0 }));
    assert_eq!(q.dequeue_event(), None);
}

#[test]
fn midi_queue_wraparound_keeps_order() {
    let mut q = MidiBuffers::new();
    // Drive the cursors several times around the 64-slot ring.
    for round in 0..100u32 {
        let value = (round % 128) as u8;
        assert!(q.enqueue_event(1, value, 10));
        assert!(q.enqueue_event(1, value.wrapping_add(1), 11));
        assert_eq!(q.dequeue_event(), Some(NoteDTO { value, velocity: 10 }));
        assert_eq!(
            q.dequeue_event(),
            Some(NoteDTO { value: value.wrapping_add(1), velocity: 11 })
        );
    }
    assert_eq!(q.dequeue_event(), None);
}

#[test]
fn midi_queue_refuses_when_one_slot_left() {
    let mut q = MidiBuffers::new();
    // Capacity is 64 records; one slot stays reserved.
    for i in 0..63u8 {
        assert!(q.enqueue_event(1, i, 1), "offer {} should be accepted", i);
    }
    assert!(!q.enqueue_event(1, 63, 1), "a full queue must refuse the offer");
    // The refused record is not silently dropped into the queue.
    assert_eq!(q.dequeue_event(), Some(NoteDTO { value: 0, velocity: 1 }));
    assert!(q.enqueue_event(1, 63, 1), "after one take there is room again");
}

#[test]
fn midi_process_all_drains_in_order() {
    let mut q = MidiBuffers::new();
    assert!(q.enqueue_event(1, 10, 50));
    assert!(q.enqueue_event(1, 20, 60));
    let events = q.process_all_events();
    assert_eq!(events.len(), 2);
    assert_eq!(events[0], NoteDTO { value: 10, velocity: 50 });
    assert_eq!(events[1], NoteDTO { value: 20, velocity: 60 });
    assert_eq!(q.dequeue_event(), None);
    assert_eq!(q.process_all_events().len(), 0);
}

#[test]
fn osc_queue_decodes_little_endian_float_bits() {
    let mut q = OscillatorBuffers::new();
    let bits = 1.5f32.to_bits();
    assert!(q.enqueue_event(2, 5, 7, bits));
    let events = q.drain();
    assert_eq!(events.len(), 1);
    assert_eq!(
        events[0],
        OscEventDto { event_type: 2, osc_index: 5, key: 7, value_bits: bits }
    );
    assert_eq!(f32::from_bits(events[0].value_bits), 1.5);
    assert_eq!(q.drain().len(), 0);
}

#[test]
fn osc_queue_drains_fifo_across_wrap() {
    let mut q = OscillatorBuffers::new();
    // Walk the cursors close to the end of the 100-slot ring.
    for _ in 0..95 {
        assert!(q.enqueue_event(0, 0, 0, 0));
    }
    q.drain();
    for i in 0..10u8 {
        assert!(q.enqueue_event(0, i, 0, i as u32));
    }
    let events = q.drain();
    assert_eq!(events.len(), 10);
    for i in 0..10usize {
        assert_eq!(events[i].osc_index, i as u8);
        assert_eq!(events[i].value_bits, i as u32);
    }
}

#[test]
fn fx_queue_roundtrip() {
    let mut q = FxBuffers::new();
    let bits = 0.25f32.to_bits();
    assert!(q.enqueue_event(3, 2, 1, bits));
    let dto = q.dequeue_event().expect("one record pending");
    assert_eq!(dto.id, 3);
    assert_eq!(dto.event_type, 2);
    assert_eq!(dto.param_index, 1);
    assert_eq!(dto.value_bits, bits);
    assert!(q.dequeue_event().is_none());
}

#[test]
fn fx_queue_refuses_when_one_slot_left() {
    let mut q = FxBuffers::new();
    for i in 0..63u32 {
        assert!(q.enqueue_event(i, 0, 0, 0));
    }
    assert!(!q.enqueue_event(63, 0, 0, 0));
    let events = q.process_all_events();
    assert_eq!(events.len(), 63);
    assert_eq!(events[62].id, 62);
}

#[test]
fn memory_buffer_reads_back_delayed_frames() {
    // 4 frames per second for 1 second: 8 interleaved slots.
    let mut m = MemoryBuffer::new(4, 1);
    assert_eq!(m.size, 8);
    m.write(1, 2);
    m.write(3, 4);
    m.write(5, 6);
    // One frame back from the cursor (now at slot 6).
    assert_eq!(m.read_left(1), 5);
    assert_eq!(m.read_right(1), 6);
    assert_eq!(m.read_left(2), 3);
    assert_eq!(m.read_right(2), 4);
    assert_eq!(m.read_mono(2), (5, 6));
}

#[test]
fn memory_buffer_wraps_at_capacity() {
    let mut m = MemoryBuffer::new(2, 1);
    assert_eq!(m.size, 4);
    m.write(10, 11);
    m.write(20, 21);
    assert_eq!(m.write_index, 0, "the cursor wraps back to the start");
    m.write(30, 31);
    // The oldest frame was overwritten; one frame back is (30, 31).
    assert_eq!(m.read_left(1), 30);
    assert_eq!(m.read_right(1), 31);
    // Two frames back wraps around to (20, 21).
    assert_eq!(m.read_left(2), 20);
    assert_eq!(m.read_right(2), 21);
}
