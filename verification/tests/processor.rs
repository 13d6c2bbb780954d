use rust_synth::audio_processor::AudioProcessor;
use rust_synth::audio_processor::OscControlEvent;
use rust_synth::buffers::MidiBuffers;
use rust_synth::buffers::OscillatorBuffers;
use rust_synth::oscillator::ControlValue;
use rust_synth::oscillator::EnvelopeOutput;
use rust_synth::ring_buffer_manager::RingBufferManager;
use rust_synth::space_available;
use rust_synth::types::NoteDTO;
use rust_synth::types::WaveType;

/// The host's cooking of one wire float into every form the protocol may
/// store.
fn cook_value(v: f32) -> ControlValue {
    ControlValue {
        raw: v.to_bits(),
        whole: v as u64,
        byte: v as u8,
        tenth: (v * 0.1).to_bits(),
        unit: v.rem_euclid(1.0).to_bits(),
        pan_left: ((1.0 - v) / 2.0).to_bits(),
        pan_right: ((1.0 + v) / 2.0).to_bits(),
    }
}

fn osc_event(event_type: u8, osc_index: u8, key: u8, v: f32) -> OscControlEvent {
    OscControlEvent { event_type, osc_index, key, value: cook_value(v) }
}

#[test]
fn osc_add_event_appends_factory_defaults() {
    let mut p = AudioProcessor::new();
    p.process_osc_events(&vec![osc_event(0, 3, 0, 0.0)]);
    assert_eq!(p.oscillators.len(), 1);
    let osc = p.oscillators[0];
    assert_eq!(osc.id, 3);
    assert_eq!(osc.wave_type, WaveType::Sine);
    assert_eq!(osc.attack_length, 22050);
    assert_eq!(osc.decay_length, 22050);
    assert_eq!(osc.release_length, 22050);
    assert_eq!(osc.delay_length, 0);
    assert_eq!(f32::from_bits(osc.sustain_gain), 0.5);
    assert_eq!(f32::from_bits(osc.gain), 0.5);
    assert_eq!(f32::from_bits(osc.frequency_shift), 1.0);
    assert_eq!(f32::from_bits(osc.phase_shift), 0.0);
    assert_eq!(f32::from_bits(osc.gain_l), 1.0);
    assert_eq!(f32::from_bits(osc.gain_r), 1.0);
}

#[test]
fn osc_update_event_addresses_by_position() {
    let mut p = AudioProcessor::new();
    p.process_osc_events(&vec![osc_event(0, 7, 0, 0.0), osc_event(0, 9, 0, 0.0)]);

    // Key 1 sets the attack of the oscillator at *position* 1 (id 9).
    p.process_osc_events(&vec![osc_event(2, 1, 1, 300.0)]);
    assert_eq!(p.oscillators[1].attack_length, 300);
    assert_eq!(p.oscillators[0].attack_length, 22050, "position 0 untouched");

    // Sustain and gain take the value scaled by one tenth.
    p.process_osc_events(&vec![osc_event(2, 0, 4, 7.0)]);
    assert_eq!(p.oscillators[0].sustain_gain, (7.0f32 * 0.1).to_bits());
    p.process_osc_events(&vec![osc_event(2, 0, 5, 3.0)]);
    assert_eq!(p.oscillators[0].gain, (3.0f32 * 0.1).to_bits());

    // The waveform key validates its byte: 2 is a saw, 9 is out of range.
    p.process_osc_events(&vec![osc_event(2, 0, 9, 2.0)]);
    assert_eq!(p.oscillators[0].wave_type, WaveType::Saw);
    p.process_osc_events(&vec![osc_event(2, 0, 9, 9.0)]);
    assert_eq!(p.oscillators[0].wave_type, WaveType::Saw, "out of range keeps the waveform");

    // Pan balance writes both channel gains.
    p.process_osc_events(&vec![osc_event(2, 0, 10, 0.5)]);
    assert_eq!(f32::from_bits(p.oscillators[0].gain_l), 0.25);
    assert_eq!(f32::from_bits(p.oscillators[0].gain_r), 0.75);

    // The phase-shift key stores the value reduced into [0, 1), for
    // negative values too.
    p.process_osc_events(&vec![osc_event(2, 0, 8, 1.75)]);
    assert_eq!(f32::from_bits(p.oscillators[0].phase_shift), 0.75);
    p.process_osc_events(&vec![osc_event(2, 0, 8, -0.25)]);
    assert_eq!(f32::from_bits(p.oscillators[0].phase_shift), 0.75);

    // An unknown key and an out-of-range position are no-ops.
    let before = p.oscillators.clone();
    p.process_osc_events(&vec![osc_event(2, 0, 77, 5.0), osc_event(2, 40, 1, 5.0)]);
    assert_eq!(p.oscillators, before);
}

#[test]
fn osc_remove_event_addresses_by_id() {
    let mut p = AudioProcessor::new();
    p.process_osc_events(&vec![osc_event(0, 7, 0, 0.0), osc_event(0, 9, 0, 0.0)]);
    p.process_osc_events(&vec![osc_event(1, 7, 0, 0.0)]);
    assert_eq!(p.oscillators.len(), 1);
    assert_eq!(p.oscillators[0].id, 9);
    // Removing an unknown id is a no-op.
    p.process_osc_events(&vec![osc_event(1, 55, 0, 0.0)]);
    assert_eq!(p.oscillators.len(), 1);
    // An unknown event type is a no-op.
    p.process_osc_events(&vec![osc_event(8, 9, 0, 0.0)]);
    assert_eq!(p.oscillators.len(), 1);
}

#[test]
fn midi_events_drive_the_voice_engine() {
    let mut p = AudioProcessor::new();
    p.process_osc_events(&vec![osc_event(0, 0, 0, 0.0)]);

    let count = p.process_midi_events(&vec![
        NoteDTO { value: 69, velocity: 100 },
        NoteDTO { value: 72, velocity: 90 },
        NoteDTO { value: 69, velocity: 0 },
    ]);
    assert_eq!(count, 3);
    assert_eq!(p.note_manager.notes.len(), 2);
    assert!(p.note_manager.notes[0].has_ended);
    assert!(!p.note_manager.notes[1].has_ended);
    assert_eq!(p.note_manager.notes[0].value, 69);
    assert_eq!(p.note_manager.notes[1].value, 72);
}

#[test]
fn global_sample_counter_advances_per_block() {
    let mut p = AudioProcessor::new();
    p.advance_global_sample_index(128);
    p.advance_global_sample_index(128);
    assert_eq!(p.global_sample_index, 256);
}

#[test]
fn one_processor_pass_over_shared_queues() {
    // The host's per-wake-up pass, minus the float rendering: drain the
    // queues, feed the engine, step the envelopes, hand samples to the ring.
    let mut p = AudioProcessor::new();
    let mut midi = MidiBuffers::new();
    let mut osc = OscillatorBuffers::new();
    let mut ring = RingBufferManager::new(16);

    // The control side posts: one oscillator, one note-on.
    assert!(osc.enqueue_event(0, 0, 0, 0.0f32.to_bits()));
    assert!(midi.enqueue_event(1, 69, 100));

    // The audio thread drains and applies.
    let osc_events: Vec<OscControlEvent> = osc
        .drain()
        .iter()
        .map(|r| OscControlEvent {
            event_type: r.event_type,
            osc_index: r.osc_index,
            key: r.key,
            value: cook_value(f32::from_bits(r.value_bits)),
        })
        .collect();
    p.process_osc_events(&osc_events);
    let notes = midi.process_all_events();
    p.process_midi_events(&notes);
    assert_eq!(p.note_manager.notes.len(), 1);

    // Render half the available space, envelope side only.
    let space = space_available(0, ring.write_idx, 16);
    assert_eq!(space, 15);
    let frames: u32 = 4;
    let mut samples: Vec<u32> = Vec::new();
    for _ in 0..frames {
        let outs = p.note_manager.notes[0].envelope_frame(&p.oscillators);
        assert_eq!(outs.len(), 1);
        assert!(matches!(outs[0], EnvelopeOutput::Active { .. }));
        // The host would turn the envelope into a stereo float frame here.
        samples.push(0);
        samples.push(0);
    }
    p.note_manager.cleanup_finished_notes();
    assert_eq!(p.note_manager.notes.len(), 1, "a live voice survives the cleanup");
    assert_eq!(p.note_manager.notes[0].osc_states[0].start_sample_index, frames as u64);

    ring.write_samples(&samples);
    p.advance_global_sample_index(samples.len() as u32);
    assert_eq!(ring.write_idx, 8);
    assert_eq!(p.global_sample_index, 8);
}
