//! One voice: a played note and its per-oscillator envelope states.

use vstd::prelude::*;

use crate::oscillator::step_output;
use crate::oscillator::stepped_state;
use crate::oscillator::EnvelopeOutput;
use crate::oscillator::Oscillator;

verus! {

/// Per-voice, per-oscillator envelope state. `current_phase` is the
/// oscillator's waveform phase in `[0, 1)` as an IEEE-754 single-precision
/// bit pattern — the engine's decisions never read it, only the host's
/// waveform arithmetic does. `start_sample_index` counts samples since
/// note-on, `end_sample_index` samples since note-off (zero until note-off).
/// Once `finished` is set the oscillator contributes silence for this voice
/// permanently.
#[derive(Debug, Clone, Copy, PartialEq, Eq, Structural)]
pub struct NoteOscState {
    pub current_phase: u32,
    pub start_sample_index: u64,
    pub end_sample_index: u64,
    pub finished: bool,
}

impl NoteOscState {
    /// A fresh state, its phase seeded from the oscillator's configured
    /// phase shift (which the control layer keeps reduced into `[0, 1)`).
    pub fn new(phase_shift: u32) -> (s: NoteOscState)
        ensures
            s == (NoteOscState {
                current_phase: phase_shift,
                start_sample_index: 0,
                end_sample_index: 0,
                finished: false,
            }),
    {
        NoteOscState {
            current_phase: phase_shift,
            start_sample_index: 0,
            end_sample_index: 0,
            finished: false,
        }
    }

    /// Returns the state to note-on: phase re-seeded, counters cleared,
    /// `finished` withdrawn.
    pub fn reset(&mut self, phase_shift: u32)
        ensures
            *final(self) == (NoteOscState {
                current_phase: phase_shift,
                start_sample_index: 0,
                end_sample_index: 0,
                finished: false,
            }),
    {
        self.current_phase = phase_shift;
        self.start_sample_index = 0;
        self.end_sample_index = 0;
        self.finished = false;
    }
}

/// The envelope states a fresh voice starts with: one per oscillator, each
/// seeded from that oscillator's phase shift.
pub open spec fn fresh_states(oscs: Seq<Oscillator>) -> Seq<NoteOscState> {
    Seq::new(
        oscs.len(),
        |i: int|
            NoteOscState {
                current_phase: oscs[i].phase_shift,
                start_sample_index: 0,
                end_sample_index: 0,
                finished: false,
            },
    )
}

/// The mathematical value of a voice.
pub struct NoteView {
    pub value: u8,
    pub velocity: u8,
    pub has_ended: bool,
    pub osc_states: Seq<NoteOscState>,
}

/// A voice: the key it plays, how hard it was struck, whether its key was
/// released, and one envelope state per oscillator registered when it
/// started (kept in step with the bank on restart).
pub struct Note {
    pub value: u8,
    pub velocity: u8,
    pub has_ended: bool,
    pub osc_states: Vec<NoteOscState>,
}

impl View for Note {
    type V = NoteView;

    open spec fn view(&self) -> NoteView {
        NoteView {
            value: self.value,
            velocity: self.velocity,
            has_ended: self.has_ended,
            osc_states: self.osc_states@,
        }
    }
}

/// The view a voice restarted in place takes: key release withdrawn and all
/// envelope states fresh, but key and velocity kept.
pub open spec fn restart_view(n: NoteView, oscs: Seq<Oscillator>) -> NoteView {
    NoteView {
        value: n.value,
        velocity: n.velocity,
        has_ended: false,
        osc_states: fresh_states(oscs),
    }
}

/// The view of a voice freshly created for `value` and `velocity`.
pub open spec fn new_note_view(value: u8, velocity: u8, oscs: Seq<Oscillator>) -> NoteView {
    NoteView { value, velocity, has_ended: false, osc_states: fresh_states(oscs) }
}

/// Whether a voice is spent: every envelope state reports finished. A voice
/// with no states counts as spent.
pub open spec fn note_finished(n: NoteView) -> bool {
    forall|i: int| 0 <= i < n.osc_states.len() ==> n.osc_states[i].finished
}

impl Note {
    /// A fresh voice with one envelope state per registered oscillator.
    pub fn new(value: u8, velocity: u8, oscillators: &Vec<Oscillator>) -> (n: Note)
        ensures
            n@ == new_note_view(value, velocity, oscillators@),
    {
        let mut osc_states: Vec<NoteOscState> = Vec::new();
        let mut i: usize = 0;
        while i < oscillators.len()
            invariant
                i <= oscillators.len(),
                osc_states@.len() == i,
                forall|k: int| 0 <= k < i ==> osc_states@[k] == fresh_states(oscillators@)[k],
            decreases oscillators.len() - i,
        {
            osc_states.push(NoteOscState::new(oscillators[i].phase_shift));
            i += 1;
        }
        proof {
            assert(osc_states@ =~= fresh_states(oscillators@));
        }
        Note { value, velocity, has_ended: false, osc_states }
    }

    /// Restarts an ended voice in place rather than allocating a second
    /// voice for the same key: clears the key release and re-seeds every
    /// envelope state, rebuilding the state vector when the bank's size has
    /// changed in the meantime.
    pub fn restart(&mut self, oscillators: &Vec<Oscillator>)
        ensures
            final(self)@ == restart_view(old(self)@, oscillators@),
    {
        self.has_ended = false;

        if self.osc_states.len() != oscillators.len() {
            let mut osc_states: Vec<NoteOscState> = Vec::new();
            let mut i: usize = 0;
            while i < oscillators.len()
                invariant
                    i <= oscillators.len(),
                    osc_states@.len() == i,
                    forall|k: int| 0 <= k < i ==> osc_states@[k] == fresh_states(oscillators@)[k],
                decreases oscillators.len() - i,
            {
                osc_states.push(NoteOscState::new(oscillators[i].phase_shift));
                i += 1;
            }
            self.osc_states = osc_states;
        } else {
            let mut i: usize = 0;
            while i < oscillators.len()
                invariant
                    i <= oscillators.len(),
                    self.value == old(self).value,
                    self.velocity == old(self).velocity,
                    self.has_ended == false,
                    self.osc_states@.len() == oscillators.len(),
                    forall|k: int| 0 <= k < i ==> self.osc_states@[k] == fresh_states(
                        oscillators@,
                    )[k],
                decreases oscillators.len() - i,
            {
                let phase = oscillators[i].phase_shift;
                let state = &mut self.osc_states[i];
                state.reset(phase);
                i += 1;
            }
        }
        proof {
            assert(self.osc_states@ =~= fresh_states(oscillators@));
        }
    }

    /// Marks the voice's key as released. Calling it again changes nothing.
    pub fn end_note(&mut self)
        ensures
            final(self)@ == (NoteView { has_ended: true, ..old(self)@ }),
    {
        self.has_ended = true;
    }

    /// One frame's envelope work for this voice: steps each
    /// `(voice, oscillator)` pair once — the bank's oscillators paired with
    /// this voice's states by position, up to the shorter of the two — and
    /// hands back what each pair's waveform arithmetic needs. States beyond
    /// the bank's length stay untouched.
    pub fn envelope_frame(&mut self, oscillators: &Vec<Oscillator>) -> (outs: Vec<
        EnvelopeOutput,
    >)
        requires
            forall|k: int|
                0 <= k < old(self).osc_states@.len()
                    ==> old(self).osc_states@[k].start_sample_index < u64::MAX
                    && old(self).osc_states@[k].end_sample_index < u64::MAX,
        ensures
            final(self).value == old(self).value,
            final(self).velocity == old(self).velocity,
            final(self).has_ended == old(self).has_ended,
            final(self).osc_states@.len() == old(self).osc_states@.len(),
            outs@.len() == vstd::math::min(
                oscillators@.len() as int,
                old(self).osc_states@.len() as int,
            ),
            forall|k: int| 0 <= k < outs@.len() ==> outs@[k] == step_output(
                oscillators@[k],
                old(self).osc_states@[k],
                old(self).has_ended,
            ),
            forall|k: int| 0 <= k < outs@.len() ==> final(self).osc_states@[k] == stepped_state(
                oscillators@[k],
                old(self).osc_states@[k],
                old(self).has_ended,
            ),
            forall|k: int|
                outs@.len() <= k < old(self).osc_states@.len()
                    ==> final(self).osc_states@[k] == old(self).osc_states@[k],
    {
        let mut outs: Vec<EnvelopeOutput> = Vec::new();
        let count = if oscillators.len() < self.osc_states.len() {
            oscillators.len()
        } else {
            self.osc_states.len()
        };
        let has_ended = self.has_ended;

        let mut k: usize = 0;
        while k < count
            invariant
                forall|j: int|
                    0 <= j < old(self).osc_states@.len()
                        ==> old(self).osc_states@[j].start_sample_index < u64::MAX
                        && old(self).osc_states@[j].end_sample_index < u64::MAX,
                k <= count,
                count == vstd::math::min(
                    oscillators@.len() as int,
                    old(self).osc_states@.len() as int,
                ),
                has_ended == old(self).has_ended,
                self.value == old(self).value,
                self.velocity == old(self).velocity,
                self.has_ended == old(self).has_ended,
                self.osc_states@.len() == old(self).osc_states@.len(),
                outs@.len() == k,
                forall|j: int| 0 <= j < k ==> outs@[j] == step_output(
                    oscillators@[j],
                    old(self).osc_states@[j],
                    old(self).has_ended,
                ),
                forall|j: int| 0 <= j < k ==> self.osc_states@[j] == stepped_state(
                    oscillators@[j],
                    old(self).osc_states@[j],
                    old(self).has_ended,
                ),
                forall|j: int| k <= j < old(self).osc_states@.len() ==> self.osc_states@[j]
                    == old(self).osc_states@[j],
            decreases count - k,
        {
            let osc = oscillators[k];
            proof {
                assert(self.osc_states@[k as int] == old(self).osc_states@[k as int]);
            }
            let state = &mut self.osc_states[k];
            let out = osc.envelope_step(state, has_ended);
            outs.push(out);
            k += 1;
        }
        outs
    }

    /// Whether every envelope state of this voice reports finished.
    pub fn is_finished(&self) -> (r: bool)
        ensures
            r == note_finished(self@),
    {
        let mut i: usize = 0;
        while i < self.osc_states.len()
            invariant
                i <= self.osc_states.len(),
                forall|k: int| 0 <= k < i ==> self.osc_states@[k].finished,
            decreases self.osc_states.len() - i,
        {
            if !self.osc_states[i].finished {
                proof {
                    assert(!note_finished(self@)) by {
                        assert(!self@.osc_states[i as int].finished);
                    }
                }
                return false;
            }
            i += 1;
        }
        true
    }
}

} // verus!
