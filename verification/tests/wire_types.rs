use rust_synth::note::NoteOscState;
use rust_synth::types::EventType;
use rust_synth::types::WaveType;

#[test]
fn event_type_decodes_both_kinds() {
    assert_eq!(EventType::try_from(0), Ok(EventType::NoteOff));
    assert_eq!(EventType::try_from(1), Ok(EventType::NoteOn));
}

#[test]
fn event_type_rejects_unknown_bytes() {
    assert!(EventType::try_from(2).is_err());
    assert!(EventType::try_from(255).is_err());
}

#[test]
fn wave_type_decodes_all_four_waveforms() {
    assert_eq!(WaveType::try_from(0), Ok(WaveType::Sine));
    assert_eq!(WaveType::try_from(1), Ok(WaveType::Square));
    assert_eq!(WaveType::try_from(2), Ok(WaveType::Saw));
    assert_eq!(WaveType::try_from(3), Ok(WaveType::Triangle));
}

#[test]
fn wave_type_rejects_out_of_range_bytes() {
    assert!(WaveType::try_from(4).is_err());
    assert!(WaveType::try_from(200).is_err());
}

#[test]
fn note_osc_state_starts_and_resets_cleanly() {
    let seed = 0.25f32.to_bits();
    let mut s = NoteOscState::new(seed);
    assert_eq!(s.current_phase, seed);
    assert_eq!(s.start_sample_index, 0);
    assert_eq!(s.end_sample_index, 0);
    assert!(!s.finished);

    s.start_sample_index = 100;
    s.end_sample_index = 40;
    s.finished = true;
    s.current_phase = 0.9f32.to_bits();

    let reseed = 0.5f32.to_bits();
    s.reset(reseed);
    assert_eq!(s.current_phase, reseed);
    assert_eq!(s.start_sample_index, 0);
    assert_eq!(s.end_sample_index, 0);
    assert!(!s.finished);
}
