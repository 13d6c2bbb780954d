//! The voice engine's bookkeeping: at most one live voice per key.
//!
//! A note-on for a key that already has a voice never allocates a second
//! one — an ended voice restarts in place, a live one is left alone. A
//! note-off marks the matching voice; spent voices (every envelope state
//! finished) are purged after each rendered block, never mid-block.

use vstd::prelude::*;

use crate::note::new_note_view;
use crate::note::note_finished;
use crate::note::restart_view;
use crate::note::Note;
use crate::note::NoteView;
use crate::oscillator::Oscillator;
use crate::types::NoteDTO;

verus! {

/// Whether some voice plays `value`.
pub open spec fn has_voice(s: Seq<NoteView>, value: u8) -> bool {
    exists|i: int| 0 <= i < s.len() && s[i].value == value
}

/// The index of the voice playing `value` (unique under `unique_voices`).
pub open spec fn voice_index(s: Seq<NoteView>, value: u8) -> int {
    choose|i: int| 0 <= i < s.len() && s[i].value == value
}

/// The voice-identity invariant: no two voices play the same key.
pub open spec fn unique_voices(s: Seq<NoteView>) -> bool {
    forall|i: int, j: int| 0 <= i < j < s.len() ==> s[i].value != s[j].value
}

/// What a note-on does to the voice list: an existing ended voice restarts
/// in place, an existing live voice is left alone, and only a key with no
/// voice at all gets a fresh one.
pub open spec fn add_note_spec(s: Seq<NoteView>, oscs: Seq<Oscillator>, dto: NoteDTO) -> Seq<
    NoteView,
> {
    if has_voice(s, dto.value) {
        let i = voice_index(s, dto.value);
        if s[i].has_ended {
            s.update(i, restart_view(s[i], oscs))
        } else {
            s
        }
    } else {
        s.push(new_note_view(dto.value, dto.velocity, oscs))
    }
}

/// What a note-off does to the voice list: every voice playing the key and
/// not yet ended is marked ended. Marking again finds nothing left to mark,
/// so the operation is idempotent.
pub open spec fn end_note_spec(s: Seq<NoteView>, value: u8) -> Seq<NoteView> {
    s.map_values(
        |n: NoteView|
            if n.value == value && !n.has_ended {
                NoteView { has_ended: true, ..n }
            } else {
                n
            },
    )
}

/// What the cleanup pass does: spent voices leave, the rest keep their
/// order.
pub open spec fn cleanup_spec(s: Seq<NoteView>) -> Seq<NoteView> {
    s.filter(|n: NoteView| !note_finished(n))
}

/// Ending a note twice is the same as ending it once.
pub proof fn lemma_end_note_idempotent(s: Seq<NoteView>, value: u8)
    ensures
        end_note_spec(end_note_spec(s, value), value) =~= end_note_spec(s, value),
{
}

/// Two note-on events for the same key without an intervening note-off
/// never produce two simultaneous voices: the second never grows the list.
/// And a note-on that finds its key's voice ended restarts it in place,
/// re-seeding each envelope state's phase from the oscillator's configured
/// phase shift.
pub proof fn lemma_voice_identity(
    s: Seq<NoteView>,
    oscs: Seq<Oscillator>,
    first: NoteDTO,
    second: NoteDTO,
)
    requires
        unique_voices(s),
        first.value == second.value,
    ensures
        add_note_spec(add_note_spec(s, oscs, first), oscs, second).len() == add_note_spec(
            s,
            oscs,
            first,
        ).len(),
        has_voice(s, first.value) && s[voice_index(s, first.value)].has_ended
            ==> forall|k: int|
                0 <= k < oscs.len()
                    ==> #[trigger] add_note_spec(s, oscs, first)[voice_index(
                    s,
                    first.value,
                )].osc_states[k].current_phase == oscs[k].phase_shift,
{
    let once = add_note_spec(s, oscs, first);
    if has_voice(s, first.value) {
        let i = voice_index(s, first.value);
        assert(0 <= i < s.len() && s[i].value == first.value);
        assert(once[i].value == first.value);
        assert(has_voice(once, second.value));
    } else {
        assert(once[s.len() as int].value == second.value);
        assert(has_voice(once, second.value));
    }
    let j = voice_index(once, second.value);
    assert(0 <= j < once.len() && once[j].value == second.value);
}

/// The live voices, in creation order.
pub struct NoteManager {
    pub notes: Vec<Note>,
}

impl View for NoteManager {
    type V = Seq<NoteView>;

    open spec fn view(&self) -> Seq<NoteView> {
        Seq::new(self.notes@.len(), |i: int| self.notes@[i]@)
    }
}

impl NoteManager {
    pub fn new() -> (m: NoteManager)
        ensures
            m@.len() == 0,
            unique_voices(m@),
    {
        NoteManager { notes: Vec::new() }
    }

    /// Handles a note-on: restarts the key's ended voice in place, leaves a
    /// live one alone, or creates a fresh voice when the key has none.
    pub fn add_note(&mut self, dto: &NoteDTO, oscillators: &Vec<Oscillator>)
        requires
            unique_voices(old(self)@),
        ensures
            final(self)@ == add_note_spec(old(self)@, oscillators@, *dto),
            unique_voices(final(self)@),
    {
        let n = self.notes.len();
        let mut i: usize = 0;
        while i < n
            invariant
                unique_voices(old(self)@),
                n == self.notes.len(),
                i <= n,
                *self == *old(self),
                forall|k: int| 0 <= k < i ==> old(self)@[k].value != dto.value,
            decreases n - i,
        {
            let matches = self.notes[i].value == dto.value;
            if matches {
                proof {
                    assert(old(self)@[i as int] == old(self).notes@[i as int]@);
                    assert(has_voice(old(self)@, dto.value)) by {
                        assert(0 <= (i as int) < old(self)@.len() && old(self)@[i as int].value
                            == dto.value);
                    }
                    let j = voice_index(old(self)@, dto.value);
                    assert(0 <= j < old(self)@.len() && old(self)@[j].value == dto.value);
                    if j != i as int {
                        assert(old(self)@[i as int].value == old(self)@[j].value);
                        assert(false);
                    }
                }
                let ended = self.notes[i].has_ended;
                if ended {
                    let note = &mut self.notes[i];
                    note.restart(oscillators);
                    proof {
                        assert(self@ =~= add_note_spec(old(self)@, oscillators@, *dto));
                        assert forall|a: int, b: int| 0 <= a < b < self@.len() implies self@[a].value
                            != self@[b].value by {
                            assert(old(self)@[a].value != old(self)@[b].value);
                        }
                    }
                }
                return;
            }
            i += 1;
        }

        proof {
            assert(!has_voice(old(self)@, dto.value));
        }
        self.notes.push(Note::new(dto.value, dto.velocity, oscillators));
        proof {
            assert(self@ =~= add_note_spec(old(self)@, oscillators@, *dto));
            assert forall|a: int, b: int| 0 <= a < b < self@.len() implies self@[a].value
                != self@[b].value by {
                if b < self@.len() - 1 {
                    assert(old(self)@[a].value != old(self)@[b].value);
                } else {
                    assert(old(self)@[a].value != dto.value);
                }
            }
        }
    }

    /// Handles a note-off: marks the key's voice ended. Idempotent.
    pub fn end_note(&mut self, dto: &NoteDTO)
        ensures
            final(self)@ == end_note_spec(old(self)@, dto.value),
    {
        let n = self.notes.len();
        let mut i: usize = 0;
        while i < n
            invariant
                n == self.notes.len(),
                i <= n,
                self.notes@.len() == old(self).notes@.len(),
                forall|k: int| 0 <= k < i ==> self@[k] == end_note_spec(old(self)@, dto.value)[k],
                forall|k: int| i <= k < n ==> self.notes@[k] == old(self).notes@[k],
            decreases n - i,
        {
            let ghost pre = self@;
            let matches = self.notes[i].value == dto.value && !self.notes[i].has_ended;
            if matches {
                let note = &mut self.notes[i];
                note.end_note();
            }
            proof {
                assert forall|k: int| 0 <= k < i + 1 implies self@[k] == end_note_spec(
                    old(self)@,
                    dto.value,
                )[k] by {
                    if k < i {
                        assert(self@[k] == pre[k]);
                    } else {
                        assert(self@[k] == end_note_spec(old(self)@, dto.value)[k]);
                    }
                }
            }
            i += 1;
        }
        proof {
            assert(self@ =~= end_note_spec(old(self)@, dto.value));
        }
    }

    /// The cleanup pass after a rendered block: removes every voice whose
    /// envelope states have all finished, keeping the others in order.
    pub fn cleanup_finished_notes(&mut self)
        ensures
            final(self)@ == cleanup_spec(old(self)@),
    {
        let ghost processed: int = 0;
        let mut i: usize = 0;
        proof {
            assert(old(self)@.subrange(0, 0).filter(|n: NoteView| !note_finished(n)) =~= Seq::<
                NoteView,
            >::empty());
        }
        while i < self.notes.len()
            invariant
                0 <= processed <= old(self)@.len(),
                i <= self.notes.len(),
                i as int == cleanup_spec(old(self)@.subrange(0, processed)).len(),
                self@ =~= cleanup_spec(old(self)@.subrange(0, processed)) + old(self)@.subrange(
                    processed,
                    old(self)@.len() as int,
                ),
            decreases old(self)@.len() - processed,
        {
            proof {
                assert(processed < old(self)@.len());
                assert(self@[i as int] == old(self)@[processed as int]);
                lemma_filter_extend(old(self)@, processed);
            }
            let ghost pre = self@;
            let finished = self.notes[i].is_finished();
            if finished {
                self.notes.remove(i);
                proof {
                    assert(self@ =~= pre.remove(i as int));
                    assert(self@ =~= cleanup_spec(old(self)@.subrange(0, processed + 1))
                        + old(self)@.subrange(processed + 1, old(self)@.len() as int));
                }
            } else {
                i += 1;
                proof {
                    assert(self@ =~= cleanup_spec(old(self)@.subrange(0, processed + 1))
                        + old(self)@.subrange(processed + 1, old(self)@.len() as int));
                }
            }
            proof {
                processed = processed + 1;
            }
        }
        proof {
            assert(old(self)@.subrange(0, processed) =~= old(self)@);
            assert(processed == old(self)@.len());
            assert(self@ =~= cleanup_spec(old(self)@));
        }
    }
}

/// Extending a prefix by one element extends its cleanup image by that
/// element exactly when the element is not spent.
proof fn lemma_filter_extend(s: Seq<NoteView>, p: int)
    requires
        0 <= p < s.len(),
    ensures
        cleanup_spec(s.subrange(0, p + 1)) == if !note_finished(s[p]) {
            cleanup_spec(s.subrange(0, p)).push(s[p])
        } else {
            cleanup_spec(s.subrange(0, p))
        },
{
    let prefix = s.subrange(0, p + 1);
    assert(prefix.drop_last() =~= s.subrange(0, p));
    assert(prefix.last() == s[p]);
    reveal_with_fuel(Seq::filter, 2);
}

} // verus!
