//! An oscillator definition — waveform, envelope timing, gains — and its
//! envelope state machine.
//!
//! The envelope of a `(voice, oscillator)` pair has five logical stages
//! computed purely from counters: delay, attack, decay, sustain, and, once
//! the key is released, release. The amplitude scalar of a stage is either
//! an exact ratio of sample counters or the configured sustain gain; this
//! module hands those ratios out symbolically, and the host's float
//! arithmetic divides them out when it shapes the waveform. Gain-like
//! parameters are carried as opaque IEEE-754 single-precision bit patterns.

use vstd::prelude::*;

use crate::note::NoteOscState;
use crate::types::WaveType;

verus! {

/// IEEE-754 single-precision bit pattern of zero.
pub const BITS_ZERO: u32 = 0;

/// IEEE-754 single-precision bit pattern of one half.
pub const BITS_ONE_HALF: u32 = 0x3F00_0000;

/// IEEE-754 single-precision bit pattern of one.
pub const BITS_ONE: u32 = 0x3F80_0000;

/// Factory default for attack, decay and release: 500 ms at 44100 samples
/// per second.
pub const DEFAULT_ENVELOPE_SAMPLES: u64 = 22050;

/// An oscillator definition. Envelope lengths are in samples; `sustain_gain`,
/// `frequency_shift`, `phase_shift`, `gain`, `gain_l` and `gain_r` are float
/// bit patterns the engine carries but never computes with. The control
/// layer keeps `phase_shift` reduced into `[0, 1)`.
#[derive(Debug, Clone, Copy, PartialEq, Eq, Structural)]
pub struct Oscillator {
    pub id: u8,
    pub wave_type: WaveType,
    pub attack_length: u64,
    pub decay_length: u64,
    pub release_length: u64,
    pub delay_length: u64,
    pub sustain_gain: u32,
    pub frequency_shift: u32,
    pub phase_shift: u32,
    pub gain: u32,
    pub gain_l: u32,
    pub gain_r: u32,
}

/// The oscillator an `add` control event creates: a sine with half-second
/// envelope stages, half sustain and gain, unity frequency shift and pan.
pub open spec fn default_oscillator(id: u8) -> Oscillator {
    Oscillator {
        id,
        wave_type: WaveType::Sine,
        attack_length: DEFAULT_ENVELOPE_SAMPLES,
        decay_length: DEFAULT_ENVELOPE_SAMPLES,
        release_length: DEFAULT_ENVELOPE_SAMPLES,
        delay_length: 0,
        sustain_gain: BITS_ONE_HALF,
        frequency_shift: BITS_ONE,
        phase_shift: BITS_ZERO,
        gain: BITS_ONE_HALF,
        gain_l: BITS_ONE,
        gain_r: BITS_ONE,
    }
}

/// One wire float, cooked by the host into every integer or bit-pattern form
/// an update key may store. The engine picks the form each key calls for;
/// the conversions themselves are the host's float arithmetic.
#[derive(Debug, Clone, Copy, PartialEq, Eq, Structural)]
pub struct ControlValue {
    /// The bit pattern exactly as it stands in the record.
    pub raw: u32,
    /// The value cast to an unsigned sample count (toward zero, saturating).
    pub whole: u64,
    /// The value cast to a byte (toward zero, saturating).
    pub byte: u8,
    /// Bit pattern of the value scaled by one tenth.
    pub tenth: u32,
    /// Bit pattern of the value reduced into `[0, 1)`.
    pub unit: u32,
    /// Bit pattern of `(1 - value) / 2`.
    pub pan_left: u32,
    /// Bit pattern of `(1 + value) / 2`.
    pub pan_right: u32,
}

/// The waveform a control byte selects, if any.
pub open spec fn wave_of_byte(b: u8) -> Option<WaveType> {
    if b == 0 {
        Some(WaveType::Sine)
    } else if b == 1 {
        Some(WaveType::Square)
    } else if b == 2 {
        Some(WaveType::Saw)
    } else if b == 3 {
        Some(WaveType::Triangle)
    } else {
        None
    }
}

/// What an update control event does to an oscillator: each numeric key
/// addresses one field. A waveform byte outside the enum range and an
/// unknown key leave the oscillator as it was.
pub open spec fn apply_update_spec(osc: Oscillator, key: u8, v: ControlValue) -> Oscillator {
    if key == 1 {
        Oscillator { attack_length: v.whole, ..osc }
    } else if key == 2 {
        Oscillator { release_length: v.whole, ..osc }
    } else if key == 3 {
        Oscillator { decay_length: v.whole, ..osc }
    } else if key == 4 {
        Oscillator { sustain_gain: v.tenth, ..osc }
    } else if key == 5 {
        Oscillator { gain: v.tenth, ..osc }
    } else if key == 6 {
        Oscillator { delay_length: v.whole, ..osc }
    } else if key == 7 {
        Oscillator { frequency_shift: v.raw, ..osc }
    } else if key == 8 {
        Oscillator { phase_shift: v.unit, ..osc }
    } else if key == 9 {
        match wave_of_byte(v.byte) {
            Some(w) => Oscillator { wave_type: w, ..osc },
            None => osc,
        }
    } else if key == 10 {
        Oscillator { gain_l: v.pan_left, gain_r: v.pan_right, ..osc }
    } else {
        osc
    }
}

/// An exact ratio `num / den` of sample counters, `0 <= num <= den`,
/// `den >= 1`.
#[derive(Debug, Clone, Copy, PartialEq, Eq, Structural)]
pub struct Ratio {
    pub num: u64,
    pub den: u64,
}

/// The amplitude scalar of the envelope's pre-release stages, symbolically:
/// `Silent` is zero, `Attack(r)` is the ratio `r` rising from zero to one,
/// `Decay(r)` is `1 - (1 - sustain_gain) * r` falling from one to the
/// sustain gain, `Sustain` is the sustain gain itself.
#[derive(Debug, Clone, Copy, PartialEq, Eq, Structural)]
pub enum StageAmplitude {
    Silent,
    Attack(Ratio),
    Decay(Ratio),
    Sustain,
}

/// What one envelope step hands the waveform arithmetic: silence forever,
/// or a stage amplitude together with the release scale `(release - end) /
/// release` once the key was released.
#[derive(Debug, Clone, Copy, PartialEq, Eq, Structural)]
pub enum EnvelopeOutput {
    Finished,
    Active { stage: StageAmplitude, release: Option<Ratio> },
}

/// A ramp denominator, held away from zero: a zero-length attack, decay or
/// release would otherwise divide by zero and bleed NaN into the mix.
pub open spec fn clamped_len(len: u64) -> u64 {
    if len >= 1 {
        len
    } else {
        1
    }
}

/// The counters after one envelope step: a finished state stays put; a
/// released voice whose release has run its course is marked finished;
/// otherwise `start` advances, and `end` too once the key was released.
pub open spec fn stepped_state(osc: Oscillator, st: NoteOscState, has_ended: bool) -> NoteOscState {
    if st.finished {
        st
    } else if has_ended && st.end_sample_index >= osc.release_length {
        NoteOscState { finished: true, ..st }
    } else {
        NoteOscState {
            start_sample_index: (st.start_sample_index + 1) as u64,
            end_sample_index: if has_ended {
                (st.end_sample_index + 1) as u64
            } else {
                st.end_sample_index
            },
            ..st
        }
    }
}

/// What one envelope step hands out for the counters it found: silence for a
/// finished or fully released state, otherwise the stage amplitude at the
/// current `start` counter and, once the key was released, the release scale
/// `(release - end) / release`.
pub open spec fn step_output(osc: Oscillator, st: NoteOscState, has_ended: bool) -> EnvelopeOutput {
    if st.finished || (has_ended && st.end_sample_index >= osc.release_length) {
        EnvelopeOutput::Finished
    } else {
        EnvelopeOutput::Active {
            stage: osc.stage_amplitude_spec(st.start_sample_index),
            release: if has_ended {
                Some(
                    Ratio {
                        num: (osc.release_length - st.end_sample_index) as u64,
                        den: osc.release_length,
                    },
                )
            } else {
                None
            },
        }
    }
}

impl Oscillator {
    /// The stage the envelope stands in after `start` samples, and its
    /// amplitude: forced zero through the delay; a linear ramp `0 -> 1`
    /// across the attack; a linear ramp `1 -> sustain_gain` across the
    /// decay; the sustain gain from then on.
    pub open spec fn stage_amplitude_spec(self, start: u64) -> StageAmplitude {
        if start <= self.delay_length {
            StageAmplitude::Silent
        } else if start - self.delay_length <= self.attack_length {
            StageAmplitude::Attack(
                Ratio {
                    num: (start - self.delay_length) as u64,
                    den: clamped_len(self.attack_length),
                },
            )
        } else if start - self.delay_length - self.attack_length <= self.decay_length {
            StageAmplitude::Decay(
                Ratio {
                    num: (start - self.delay_length - self.attack_length) as u64,
                    den: clamped_len(self.decay_length),
                },
            )
        } else {
            StageAmplitude::Sustain
        }
    }

    /// Computes the stage amplitude for a voice `start_sample_index` samples
    /// after note-on.
    pub fn stage_amplitude(&self, start_sample_index: u64) -> (amp: StageAmplitude)
        ensures
            amp == self.stage_amplitude_spec(start_sample_index),
            amp matches StageAmplitude::Attack(r) ==> r.num <= r.den && r.den >= 1,
            amp matches StageAmplitude::Decay(r) ==> r.num <= r.den && r.den >= 1,
    {
        if start_sample_index <= self.delay_length {
            StageAmplitude::Silent
        } else {
            let since_delay = start_sample_index - self.delay_length;
            if since_delay <= self.attack_length {
                let den = if self.attack_length >= 1 {
                    self.attack_length
                } else {
                    1
                };
                StageAmplitude::Attack(Ratio { num: since_delay, den })
            } else {
                let since_attack = since_delay - self.attack_length;
                if since_attack <= self.decay_length {
                    let den = if self.decay_length >= 1 {
                        self.decay_length
                    } else {
                        1
                    };
                    StageAmplitude::Decay(Ratio { num: since_attack, den })
                } else {
                    StageAmplitude::Sustain
                }
            }
        }
    }

    /// One envelope step of a `(voice, oscillator)` pair, taken once per
    /// generated sample: reports the amplitude for the current counters and
    /// then advances them.
    ///
    /// A finished state stays untouched and yields silence. A released
    /// voice whose release has run its course (`end >= release_length`)
    /// yields silence and sets `finished` permanently. Otherwise the output
    /// carries the stage amplitude for the current `start` counter and, once
    /// the key was released, the release scale `(release - end) / release`;
    /// then `start` advances by one, and `end` too if the key was released.
    pub fn envelope_step(&self, state: &mut NoteOscState, has_ended: bool) -> (out:
        EnvelopeOutput)
        requires
            old(state).start_sample_index < u64::MAX,
            old(state).end_sample_index < u64::MAX,
        ensures
            *final(state) == stepped_state(*self, *old(state), has_ended),
            out == step_output(*self, *old(state), has_ended),
            out matches EnvelopeOutput::Active { release: Some(r), .. } ==> r.num <= r.den
                && r.den >= 1,
    {
        if state.finished {
            return EnvelopeOutput::Finished;
        }

        if has_ended && state.end_sample_index >= self.release_length {
            state.finished = true;
            return EnvelopeOutput::Finished;
        }

        let stage = self.stage_amplitude(state.start_sample_index);
        let release = if has_ended {
            Some(Ratio { num: self.release_length - state.end_sample_index, den: self.release_length })
        } else {
            None
        };

        state.start_sample_index = state.start_sample_index + 1;
        if has_ended {
            state.end_sample_index = state.end_sample_index + 1;
        }

        EnvelopeOutput::Active { stage, release }
    }

    /// The oscillator an `add` control event appends to the bank.
    pub fn with_defaults(id: u8) -> (osc: Oscillator)
        ensures
            osc == default_oscillator(id),
    {
        Oscillator {
            id,
            wave_type: WaveType::Sine,
            attack_length: DEFAULT_ENVELOPE_SAMPLES,
            decay_length: DEFAULT_ENVELOPE_SAMPLES,
            release_length: DEFAULT_ENVELOPE_SAMPLES,
            delay_length: 0,
            sustain_gain: BITS_ONE_HALF,
            frequency_shift: BITS_ONE,
            phase_shift: BITS_ZERO,
            gain: BITS_ONE_HALF,
            gain_l: BITS_ONE,
            gain_r: BITS_ONE,
        }
    }

    /// Applies one update control event to this oscillator.
    pub fn apply_update(&mut self, key: u8, value: &ControlValue)
        ensures
            *final(self) == apply_update_spec(*old(self), key, *value),
    {
        match key {
            1 => {
                self.attack_length = value.whole;
            },
            2 => {
                self.release_length = value.whole;
            },
            3 => {
                self.decay_length = value.whole;
            },
            4 => {
                self.sustain_gain = value.tenth;
            },
            5 => {
                self.gain = value.tenth;
            },
            6 => {
                self.delay_length = value.whole;
            },
            7 => {
                self.frequency_shift = value.raw;
            },
            8 => {
                self.phase_shift = value.unit;
            },
            9 => {
                if let Ok(wt) = WaveType::try_from(value.byte) {
                    self.wave_type = wt;
                }
            },
            10 => {
                self.gain_l = value.pan_left;
                self.gain_r = value.pan_right;
            },
            _ => {},
        }
    }
}

} // verus!
