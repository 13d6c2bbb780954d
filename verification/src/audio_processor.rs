//! The audio processor: the per-wake-up orchestration state.
//!
//! One context object owns the voice engine, the oscillator bank and the
//! effects chain — no ambient globals. Each wake-up drains the three event
//! queues in order (notes, oscillator control, effect control), then the
//! host renders exactly the requested number of samples through the voice
//! engine and the mixer and hands them to the ring buffer. The running
//! sample counter is bookkeeping only; musical timing lives in each voice's
//! own counters.
//!
//! The oscillator bank's control protocol: event type 0 appends a factory
//! default oscillator, 1 removes the first oscillator wearing the record's
//! id, 2 updates one field — addressed by *array position*, not id, which is
//! the wire contract — and any other type is ignored.

use vstd::prelude::*;

use crate::mixer::apply_fx_events_spec;
use crate::mixer::FxControlEvent;
use crate::mixer::Mixer;
use crate::note::NoteView;
use crate::note_manager::add_note_spec;
use crate::note_manager::end_note_spec;
use crate::note_manager::unique_voices;
use crate::note_manager::NoteManager;
use crate::oscillator::apply_update_spec;
use crate::oscillator::default_oscillator;
use crate::oscillator::ControlValue;
use crate::oscillator::Oscillator;
use crate::types::NoteDTO;

verus! {

/// One oscillator-control event, its wire float cooked by the host into the
/// forms the protocol stores.
#[derive(Debug, Clone, Copy, PartialEq, Eq, Structural)]
pub struct OscControlEvent {
    pub event_type: u8,
    pub osc_index: u8,
    pub key: u8,
    pub value: ControlValue,
}

/// Whether `i` is the position of the first oscillator wearing `id`.
pub open spec fn is_first_oscillator(s: Seq<Oscillator>, id: u8, i: int) -> bool {
    &&& 0 <= i < s.len()
    &&& s[i].id == id
    &&& forall|k: int| 0 <= k < i ==> s[k].id != id
}

/// Whether some oscillator wears `id`.
pub open spec fn has_oscillator(s: Seq<Oscillator>, id: u8) -> bool {
    exists|i: int| 0 <= i < s.len() && s[i].id == id
}

/// The position of the first oscillator wearing `id` (unique when one
/// exists).
pub open spec fn oscillator_position(s: Seq<Oscillator>, id: u8) -> int {
    choose|i: int| is_first_oscillator(s, id, i)
}

/// Two positions that are both first are the same position.
pub proof fn lemma_first_oscillator_unique(s: Seq<Oscillator>, id: u8, i: int, j: int)
    requires
        is_first_oscillator(s, id, i),
        is_first_oscillator(s, id, j),
    ensures
        i == j,
{
    if i < j {
        assert(s[i].id != id);
    }
    if j < i {
        assert(s[j].id != id);
    }
}

/// What one oscillator-control event does to the bank. Add and remove key
/// by id; update keys by array position and is a no-op past the end.
pub open spec fn apply_osc_event_spec(s: Seq<Oscillator>, ev: OscControlEvent) -> Seq<Oscillator> {
    if ev.event_type == 0 {
        s.push(default_oscillator(ev.osc_index))
    } else if ev.event_type == 1 {
        if has_oscillator(s, ev.osc_index) {
            s.remove(oscillator_position(s, ev.osc_index))
        } else {
            s
        }
    } else if ev.event_type == 2 {
        if ev.osc_index < s.len() {
            s.update(
                ev.osc_index as int,
                apply_update_spec(s[ev.osc_index as int], ev.key, ev.value),
            )
        } else {
            s
        }
    } else {
        s
    }
}

/// The bank after a whole run of oscillator-control events, in order.
pub open spec fn apply_osc_events_spec(s: Seq<Oscillator>, evs: Seq<OscControlEvent>) -> Seq<
    Oscillator,
>
    decreases evs.len(),
{
    if evs.len() == 0 {
        s
    } else {
        apply_osc_event_spec(apply_osc_events_spec(s, evs.drop_last()), evs.last())
    }
}

/// What one note event does to the voice list: a velocity above zero is a
/// note-on, zero a note-off.
pub open spec fn apply_note_event_spec(
    s: Seq<NoteView>,
    oscs: Seq<Oscillator>,
    dto: NoteDTO,
) -> Seq<NoteView> {
    if dto.velocity > 0 {
        add_note_spec(s, oscs, dto)
    } else {
        end_note_spec(s, dto.value)
    }
}

/// The voice list after a whole run of note events, in order, against a
/// fixed bank.
pub open spec fn apply_note_events_spec(
    s: Seq<NoteView>,
    oscs: Seq<Oscillator>,
    evs: Seq<NoteDTO>,
) -> Seq<NoteView>
    decreases evs.len(),
{
    if evs.len() == 0 {
        s
    } else {
        apply_note_event_spec(apply_note_events_spec(s, oscs, evs.drop_last()), oscs, evs.last())
    }
}

/// The engine's whole per-thread state.
pub struct AudioProcessor {
    pub note_manager: NoteManager,
    pub oscillators: Vec<Oscillator>,
    pub mixer: Mixer,
    pub global_sample_index: u64,
}

impl AudioProcessor {
    pub fn new() -> (p: AudioProcessor)
        ensures
            p.note_manager@.len() == 0,
            unique_voices(p.note_manager@),
            p.oscillators@.len() == 0,
            p.mixer.effects@.len() == 1,
            p.global_sample_index == 0,
    {
        AudioProcessor {
            note_manager: NoteManager::new(),
            oscillators: Vec::new(),
            mixer: Mixer::new(),
            global_sample_index: 0,
        }
    }

    /// Feeds one block's drained note events to the voice engine, in FIFO
    /// order: velocity above zero starts or restarts a voice, velocity zero
    /// releases it. Returns how many events were processed.
    pub fn process_midi_events(&mut self, events: &Vec<NoteDTO>) -> (count: u32)
        requires
            unique_voices(old(self).note_manager@),
            events@.len() <= u32::MAX,
        ensures
            count == events@.len(),
            final(self).note_manager@ == apply_note_events_spec(
                old(self).note_manager@,
                old(self).oscillators@,
                events@,
            ),
            unique_voices(final(self).note_manager@),
            final(self).oscillators == old(self).oscillators,
            final(self).mixer == old(self).mixer,
            final(self).global_sample_index == old(self).global_sample_index,
    {
        let n = events.len();
        let mut i: usize = 0;
        while i < n
            invariant
                n == events.len(),
                i <= n,
                unique_voices(self.note_manager@),
                self.note_manager@ == apply_note_events_spec(
                    old(self).note_manager@,
                    old(self).oscillators@,
                    events@.subrange(0, i as int),
                ),
                self.oscillators == old(self).oscillators,
                self.mixer == old(self).mixer,
                self.global_sample_index == old(self).global_sample_index,
            decreases n - i,
        {
            let ghost pre = self.note_manager@;
            let dto = events[i];
            if dto.velocity > 0 {
                self.note_manager.add_note(&dto, &self.oscillators);
            } else {
                self.note_manager.end_note(&dto);
                proof {
                    assert forall|a: int, b: int|
                        0 <= a < b < self.note_manager@.len() implies self.note_manager@[a].value
                        != self.note_manager@[b].value by {
                        assert(self.note_manager@[a].value == pre[a].value);
                        assert(self.note_manager@[b].value == pre[b].value);
                    }
                }
            }
            proof {
                let evs = events@.subrange(0, i + 1);
                assert(evs.drop_last() =~= events@.subrange(0, i as int));
                assert(evs.last() == dto);
            }
            i += 1;
        }
        proof {
            assert(events@.subrange(0, n as int) =~= events@);
        }
        n as u32
    }

    /// The position of the first oscillator wearing `id`, if any.
    pub fn find_oscillator(&self, id: u8) -> (r: Option<usize>)
        ensures
            match r {
                Some(i) => is_first_oscillator(self.oscillators@, id, i as int),
                None => !has_oscillator(self.oscillators@, id),
            },
    {
        let n = self.oscillators.len();
        let mut i: usize = 0;
        while i < n
            invariant
                n == self.oscillators.len(),
                i <= n,
                forall|k: int| 0 <= k < i ==> self.oscillators@[k].id != id,
            decreases n - i,
        {
            if self.oscillators[i].id == id {
                return Some(i);
            }
            i += 1;
        }
        None
    }

    /// Applies one decoded oscillator-control event to the bank.
    pub fn apply_osc_event(&mut self, ev: &OscControlEvent)
        ensures
            final(self).oscillators@ == apply_osc_event_spec(old(self).oscillators@, *ev),
            final(self).note_manager == old(self).note_manager,
            final(self).mixer == old(self).mixer,
            final(self).global_sample_index == old(self).global_sample_index,
    {
        if ev.event_type == 0 {
            self.oscillators.push(Oscillator::with_defaults(ev.osc_index));
        } else if ev.event_type == 1 {
            let found = self.find_oscillator(ev.osc_index);
            if let Some(i) = found {
                proof {
                    assert(has_oscillator(self.oscillators@, ev.osc_index)) by {
                        assert(self.oscillators@[i as int].id == ev.osc_index);
                    }
                    lemma_first_oscillator_unique(
                        self.oscillators@,
                        ev.osc_index,
                        i as int,
                        oscillator_position(self.oscillators@, ev.osc_index),
                    );
                }
                self.oscillators.remove(i);
            }
        } else if ev.event_type == 2 {
            let idx = ev.osc_index as usize;
            if idx < self.oscillators.len() {
                let osc = &mut self.oscillators[idx];
                osc.apply_update(ev.key, &ev.value);
                proof {
                    assert(self.oscillators@ =~= old(self).oscillators@.update(
                        idx as int,
                        apply_update_spec(old(self).oscillators@[idx as int], ev.key, ev.value),
                    ));
                }
            }
        }
    }

    /// Feeds one block's drained oscillator-control events to the bank, in
    /// FIFO order.
    pub fn process_osc_events(&mut self, events: &Vec<OscControlEvent>)
        ensures
            final(self).oscillators@ == apply_osc_events_spec(old(self).oscillators@, events@),
            final(self).note_manager == old(self).note_manager,
            final(self).mixer == old(self).mixer,
            final(self).global_sample_index == old(self).global_sample_index,
    {
        let n = events.len();
        let mut i: usize = 0;
        while i < n
            invariant
                n == events.len(),
                i <= n,
                self.oscillators@ == apply_osc_events_spec(
                    old(self).oscillators@,
                    events@.subrange(0, i as int),
                ),
                self.note_manager == old(self).note_manager,
                self.mixer == old(self).mixer,
                self.global_sample_index == old(self).global_sample_index,
            decreases n - i,
        {
            let ev = events[i];
            self.apply_osc_event(&ev);
            proof {
                let evs = events@.subrange(0, i + 1);
                assert(evs.drop_last() =~= events@.subrange(0, i as int));
                assert(evs.last() == ev);
            }
            i += 1;
        }
        proof {
            assert(events@.subrange(0, n as int) =~= events@);
        }
    }

    /// Feeds one block's drained effect-control events to the mixer, in
    /// FIFO order.
    pub fn process_fx_events(&mut self, events: &Vec<FxControlEvent>)
        ensures
            final(self).mixer.effects@ == apply_fx_events_spec(
                old(self).mixer.effects@,
                old(self).mixer.echo_default_preset,
                events@,
            ),
            final(self).mixer.echo_default_preset == old(self).mixer.echo_default_preset,
            final(self).note_manager == old(self).note_manager,
            final(self).oscillators == old(self).oscillators,
            final(self).global_sample_index == old(self).global_sample_index,
    {
        let n = events.len();
        let mut i: usize = 0;
        while i < n
            invariant
                n == events.len(),
                i <= n,
                self.mixer.effects@ == apply_fx_events_spec(
                    old(self).mixer.effects@,
                    old(self).mixer.echo_default_preset,
                    events@.subrange(0, i as int),
                ),
                self.mixer.echo_default_preset == old(self).mixer.echo_default_preset,
                self.note_manager == old(self).note_manager,
                self.oscillators == old(self).oscillators,
                self.global_sample_index == old(self).global_sample_index,
            decreases n - i,
        {
            let ev = events[i];
            self.mixer.apply_event(&ev);
            proof {
                let evs = events@.subrange(0, i + 1);
                assert(evs.drop_last() =~= events@.subrange(0, i as int));
                assert(evs.last() == ev);
            }
            i += 1;
        }
        proof {
            assert(events@.subrange(0, n as int) =~= events@);
        }
    }

    /// Advances the running sample counter by one rendered block — the
    /// bookkeeping half of chunk generation; the samples themselves are the
    /// host's float arithmetic over the voice engine's envelope steps.
    pub fn advance_global_sample_index(&mut self, sample_count: u32)
        requires
            old(self).global_sample_index + sample_count <= u64::MAX,
        ensures
            final(self).global_sample_index == old(self).global_sample_index + sample_count,
            final(self).note_manager == old(self).note_manager,
            final(self).oscillators == old(self).oscillators,
            final(self).mixer == old(self).mixer,
    {
        self.global_sample_index = self.global_sample_index + sample_count as u64;
    }
}

} // verus!
