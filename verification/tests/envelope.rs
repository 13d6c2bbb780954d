use rust_synth::note::NoteOscState;
use rust_synth::oscillator::EnvelopeOutput;
use rust_synth::oscillator::Oscillator;
use rust_synth::oscillator::Ratio;
use rust_synth::oscillator::StageAmplitude;
use rust_synth::types::WaveType;

fn test_oscillator() -> Oscillator {
    Oscillator {
        id: 0,
        wave_type: WaveType::Sine,
        attack_length: 100,
        decay_length: 200,
        release_length: 50,
        delay_length: 0,
        sustain_gain: 0.5f32.to_bits(),
        frequency_shift: 1.0f32.to_bits(),
        phase_shift: 0.0f32.to_bits(),
        gain: 0.5f32.to_bits(),
        gain_l: 1.0f32.to_bits(),
        gain_r: 1.0f32.to_bits(),
    }
}

/// The float value a stage amplitude stands for, computed the way the host
/// computes it.
fn stage_value(amp: StageAmplitude, sustain: f32) -> f32 {
    match amp {
        StageAmplitude::Silent => 0.0,
        StageAmplitude::Attack(r) => r.num as f32 / r.den as f32,
        StageAmplitude::Decay(r) => 1.0 - (1.0 - sustain) * (r.num as f32 / r.den as f32),
        StageAmplitude::Sustain => sustain,
    }
}

#[test]
fn envelope_continuity_scenario() {
    let osc = test_oscillator();
    let sustain = f32::from_bits(osc.sustain_gain);

    // At note-on the amplitude is zero.
    assert_eq!(stage_value(osc.stage_amplitude(0), sustain), 0.0);
    // At the end of the attack it has ramped to one.
    assert_eq!(osc.stage_amplitude(100), StageAmplitude::Attack(Ratio { num: 100, den: 100 }));
    assert_eq!(stage_value(osc.stage_amplitude(100), sustain), 1.0);
    // At the end of the decay it has fallen to the sustain gain.
    assert_eq!(osc.stage_amplitude(300), StageAmplitude::Decay(Ratio { num: 200, den: 200 }));
    assert_eq!(stage_value(osc.stage_amplitude(300), sustain), 0.5);
    // And it stays there until note-off.
    assert_eq!(osc.stage_amplitude(301), StageAmplitude::Sustain);
    assert_eq!(osc.stage_amplitude(1_000_000), StageAmplitude::Sustain);
    assert_eq!(stage_value(StageAmplitude::Sustain, sustain), 0.5);
}

#[test]
fn envelope_attack_ramps_linearly() {
    let osc = test_oscillator();
    assert_eq!(osc.stage_amplitude(1), StageAmplitude::Attack(Ratio { num: 1, den: 100 }));
    assert_eq!(osc.stage_amplitude(50), StageAmplitude::Attack(Ratio { num: 50, den: 100 }));
    let sustain = 0.5;
    assert_eq!(stage_value(osc.stage_amplitude(50), sustain), 0.5);
}

#[test]
fn envelope_delay_forces_silence() {
    let mut osc = test_oscillator();
    osc.delay_length = 10;
    assert_eq!(osc.stage_amplitude(0), StageAmplitude::Silent);
    assert_eq!(osc.stage_amplitude(10), StageAmplitude::Silent);
    assert_eq!(osc.stage_amplitude(11), StageAmplitude::Attack(Ratio { num: 1, den: 100 }));
}

#[test]
fn release_scenario() {
    let osc = test_oscillator();
    // Note-off arrived with the voice 300 samples in.
    let mut state = NoteOscState {
        current_phase: 0,
        start_sample_index: 300,
        end_sample_index: 0,
        finished: false,
    };

    // Immediately at note-off the release scale is one.
    match osc.envelope_step(&mut state, true) {
        EnvelopeOutput::Active { release: Some(r), .. } => {
            assert_eq!(r, Ratio { num: 50, den: 50 });
            assert_eq!(r.num as f32 / r.den as f32, 1.0);
        }
        other => panic!("expected an active envelope, got {:?}", other),
    }

    // It decreases linearly: step until 25 samples into the release.
    while state.end_sample_index < 25 {
        osc.envelope_step(&mut state, true);
    }
    match osc.envelope_step(&mut state, true) {
        EnvelopeOutput::Active { release: Some(r), .. } => {
            assert_eq!(r, Ratio { num: 25, den: 50 });
            assert_eq!(r.num as f32 / r.den as f32, 0.5);
        }
        other => panic!("expected an active envelope, got {:?}", other),
    }

    // At 50 samples the release has run out: silence, finished for good.
    while state.end_sample_index < 50 {
        osc.envelope_step(&mut state, true);
    }
    assert!(!state.finished);
    assert_eq!(osc.envelope_step(&mut state, true), EnvelopeOutput::Finished);
    assert!(state.finished);
    // Every later step stays silent and leaves the state alone.
    assert_eq!(osc.envelope_step(&mut state, true), EnvelopeOutput::Finished);
    assert!(state.finished);
}

#[test]
fn release_finishes_for_any_larger_end_index() {
    let osc = test_oscillator();
    for end in [50u64, 51, 73, 10_000] {
        let mut state = NoteOscState {
            current_phase: 0,
            start_sample_index: 400,
            end_sample_index: end,
            finished: false,
        };
        assert_eq!(osc.envelope_step(&mut state, true), EnvelopeOutput::Finished);
        assert!(state.finished, "end index {} must finish the state", end);
    }
}

#[test]
fn step_advances_counters_only_while_live() {
    let osc = test_oscillator();
    let mut state = NoteOscState {
        current_phase: 7,
        start_sample_index: 0,
        end_sample_index: 0,
        finished: false,
    };
    osc.envelope_step(&mut state, false);
    assert_eq!(state.start_sample_index, 1);
    assert_eq!(state.end_sample_index, 0);
    assert_eq!(state.current_phase, 7, "the engine never touches the phase");

    osc.envelope_step(&mut state, true);
    assert_eq!(state.start_sample_index, 2);
    assert_eq!(state.end_sample_index, 1);
}

#[test]
fn zero_length_stages_never_divide_by_zero() {
    let mut osc = test_oscillator();
    osc.delay_length = 0;
    osc.attack_length = 0;
    // With no delay and no attack, the first live sample is already decaying.
    match osc.stage_amplitude(1) {
        StageAmplitude::Decay(r) => {
            assert_eq!(r, Ratio { num: 1, den: 200 });
            assert!(r.den >= 1);
        }
        other => panic!("expected decay, got {:?}", other),
    }

    osc.decay_length = 0;
    assert_eq!(osc.stage_amplitude(1), StageAmplitude::Sustain);

    // A zero-length release finishes at the first released sample.
    osc.release_length = 0;
    let mut state = NoteOscState {
        current_phase: 0,
        start_sample_index: 5,
        end_sample_index: 0,
        finished: false,
    };
    assert_eq!(osc.envelope_step(&mut state, true), EnvelopeOutput::Finished);
    assert!(state.finished);
}
