//! The effects chain: an ordered list of insert effects and the control
//! protocol that creates, removes and updates them by id.
//!
//! Order is mix-significant: the host applies the effects to each stereo
//! frame strictly in list order. The chain starts with one resonant low-pass
//! filter; echoes are created from a default preset. Control events address
//! effects by id; a miss is a no-op, never fatal. One wire record drives one
//! of four operations: event type 0 creates an effect of the kind named by
//! the record's parameter index, 1 removes by id, 2 updates one parameter of
//! the first effect wearing the id, and any other type is ignored.

use vstd::prelude::*;

use crate::dsp_effects::clamp01;
use crate::dsp_effects::clamp01_bits;
use crate::dsp_effects::BiquadFilter;
use crate::dsp_effects::Echo;
use crate::dsp_effects::EchoParams;
use crate::dsp_effects::Effect;
use crate::dsp_effects::EffectsEnum;
use crate::dsp_effects::update_effect_spec;
use crate::dsp_effects::BITS_EIGHT_HUNDRED;
use crate::dsp_effects::BITS_SEVEN_TENTHS;
use crate::oscillator::ControlValue;
use crate::oscillator::BITS_ONE;
use crate::toolkit::ToolKit;
use crate::types::Mix;

verus! {

/// One effect-control event, its wire float cooked by the host into the
/// forms the protocol stores.
#[derive(Debug, Clone, Copy, PartialEq, Eq, Structural)]
pub struct FxControlEvent {
    pub id: u32,
    pub event_type: u32,
    pub param_index: u32,
    pub value: ControlValue,
}

/// Whether `i` is the position of the first effect wearing `id`.
pub open spec fn is_first_effect(s: Seq<Effect>, id: u32, i: int) -> bool {
    &&& 0 <= i < s.len()
    &&& s[i].id_spec() == id
    &&& forall|k: int| 0 <= k < i ==> s[k].id_spec() != id
}

/// Whether some effect wears `id`.
pub open spec fn has_effect(s: Seq<Effect>, id: u32) -> bool {
    exists|i: int| 0 <= i < s.len() && s[i].id_spec() == id
}

/// The position of the first effect wearing `id` (unique when one exists).
pub open spec fn effect_index(s: Seq<Effect>, id: u32) -> int {
    choose|i: int| is_first_effect(s, id, i)
}

/// Two positions that are both first are the same position.
pub proof fn lemma_first_effect_unique(s: Seq<Effect>, id: u32, i: int, j: int)
    requires
        is_first_effect(s, id, i),
        is_first_effect(s, id, j),
    ensures
        i == j,
{
    if i < j {
        assert(s[i].id_spec() != id);
    }
    if j < i {
        assert(s[j].id_spec() != id);
    }
}

/// The echo an effect-create event adds: the default preset under the
/// requested id, its feedback gain clamped into `[0, 1]` as every stored
/// feedback gain is.
pub open spec fn echo_from_preset(preset: EchoParams, id: u32) -> Echo {
    Echo {
        id,
        delay: preset.delay,
        feedback: clamp01_bits(preset.feedback),
        r_delay_offset: preset.r_delay_offset,
        l_delay_offset: preset.l_delay_offset,
        mix: preset.mix,
    }
}

/// The filter an effect-create event adds: the default cut-off and Q under
/// the requested id.
pub open spec fn default_filter(id: u32) -> BiquadFilter {
    BiquadFilter { id, frequency: BITS_EIGHT_HUNDRED, q: BITS_SEVEN_TENTHS }
}

/// What one effect-control event does to the chain.
pub open spec fn apply_fx_event_spec(s: Seq<Effect>, preset: EchoParams, ev: FxControlEvent) -> Seq<
    Effect,
> {
    if ev.event_type == 0 {
        if ev.param_index == 0 {
            s.push(Effect::Echo(echo_from_preset(preset, ev.id)))
        } else if ev.param_index == 1 {
            s.push(Effect::Filter(default_filter(ev.id)))
        } else {
            s
        }
    } else if ev.event_type == 1 {
        if has_effect(s, ev.id) {
            s.remove(effect_index(s, ev.id))
        } else {
            s
        }
    } else if ev.event_type == 2 {
        if has_effect(s, ev.id) {
            let i = effect_index(s, ev.id);
            s.update(i, update_effect_spec(s[i], ev.param_index, ev.value))
        } else {
            s
        }
    } else {
        s
    }
}

/// The chain after a whole run of effect-control events, applied in order.
pub open spec fn apply_fx_events_spec(
    s: Seq<Effect>,
    preset: EchoParams,
    evs: Seq<FxControlEvent>,
) -> Seq<Effect>
    decreases evs.len(),
{
    if evs.len() == 0 {
        s
    } else {
        apply_fx_event_spec(apply_fx_events_spec(s, preset, evs.drop_last()), preset, evs.last())
    }
}

/// The ordered effects chain and the preset new echoes start from.
pub struct Mixer {
    pub effects: Vec<Effect>,
    pub echo_default_preset: EchoParams,
}

impl Mixer {
    /// The chain the engine starts with: one resonant low-pass filter, and
    /// an echo preset of one second of delay, feedback and wet gain of seven
    /// tenths, full dry signal, and a 10 ms / 50 ms stereo spread.
    pub fn new() -> (m: Mixer)
        ensures
            m.effects@.len() == 1,
            m.effects@[0] == Effect::Filter(default_filter(5)),
            m.echo_default_preset == (EchoParams {
                delay: 44100,
                feedback: BITS_SEVEN_TENTHS,
                r_delay_offset: 2205,
                l_delay_offset: 441,
                mix: Mix { dry: BITS_ONE, wet: BITS_SEVEN_TENTHS },
            }),
    {
        let echo_default_preset = EchoParams {
            delay: ToolKit::convert_ms_to_sample(1000),
            feedback: BITS_SEVEN_TENTHS,
            r_delay_offset: ToolKit::convert_ms_to_sample(50),
            l_delay_offset: ToolKit::convert_ms_to_sample(10),
            mix: Mix { dry: BITS_ONE, wet: BITS_SEVEN_TENTHS },
        };

        let mut effects: Vec<Effect> = Vec::new();
        effects.push(Effect::Filter(BiquadFilter::new(BITS_EIGHT_HUNDRED, BITS_SEVEN_TENTHS, 5)));

        Mixer { effects, echo_default_preset }
    }

    /// Appends an echo built from the default preset under the given id.
    pub fn create_echo(&mut self, id: u32)
        ensures
            final(self).echo_default_preset == old(self).echo_default_preset,
            final(self).effects@ == old(self).effects@.push(
                Effect::Echo(echo_from_preset(old(self).echo_default_preset, id)),
            ),
    {
        let preset = &self.echo_default_preset;
        let echo = Echo::new(
            preset.delay,
            preset.feedback,
            preset.r_delay_offset,
            preset.l_delay_offset,
            preset.mix,
            id,
        );
        self.effects.push(Effect::Echo(echo));
    }

    /// Appends a filter with the default cut-off and Q under the given id.
    pub fn create_filter(&mut self, id: u32)
        ensures
            final(self).echo_default_preset == old(self).echo_default_preset,
            final(self).effects@ == old(self).effects@.push(Effect::Filter(default_filter(id))),
    {
        self.effects.push(Effect::Filter(BiquadFilter::new(
            BITS_EIGHT_HUNDRED,
            BITS_SEVEN_TENTHS,
            id,
        )));
    }

    /// The position of the first effect wearing `id`, if any.
    pub fn find_effect(&self, id: u32) -> (r: Option<usize>)
        ensures
            match r {
                Some(i) => is_first_effect(self.effects@, id, i as int),
                None => !has_effect(self.effects@, id),
            },
    {
        let n = self.effects.len();
        let mut i: usize = 0;
        while i < n
            invariant
                n == self.effects.len(),
                i <= n,
                forall|k: int| 0 <= k < i ==> self.effects@[k].id_spec() != id,
            decreases n - i,
        {
            if self.effects[i].id() == id {
                return Some(i);
            }
            i += 1;
        }
        proof {
            assert(!has_effect(self.effects@, id));
        }
        None
    }

    /// Removes the first effect wearing `id`; an unknown id is a no-op.
    pub fn remove_effect(&mut self, id: u32)
        ensures
            final(self).echo_default_preset == old(self).echo_default_preset,
            !has_effect(old(self).effects@, id) ==> *final(self) == *old(self),
            has_effect(old(self).effects@, id) ==> final(self).effects@ == old(
                self,
            ).effects@.remove(effect_index(old(self).effects@, id)),
    {
        let found = self.find_effect(id);
        if let Some(i) = found {
            proof {
                assert(has_effect(self.effects@, id)) by {
                    assert(self.effects@[i as int].id_spec() == id);
                }
                lemma_first_effect_unique(
                    self.effects@,
                    id,
                    i as int,
                    effect_index(self.effects@, id),
                );
            }
            self.effects.remove(i);
        }
    }

    /// Updates one parameter of the first effect wearing `id`; an unknown id
    /// or parameter index is a no-op.
    pub fn update_effect(&mut self, id: u32, param_index: u32, value: &ControlValue)
        ensures
            final(self).echo_default_preset == old(self).echo_default_preset,
            !has_effect(old(self).effects@, id) ==> *final(self) == *old(self),
            has_effect(old(self).effects@, id) ==> {
                let i = effect_index(old(self).effects@, id);
                final(self).effects@ == old(self).effects@.update(
                    i,
                    update_effect_spec(old(self).effects@[i], param_index, *value),
                )
            },
    {
        let found = self.find_effect(id);
        if let Some(i) = found {
            proof {
                assert(has_effect(self.effects@, id)) by {
                    assert(self.effects@[i as int].id_spec() == id);
                }
                lemma_first_effect_unique(
                    self.effects@,
                    id,
                    i as int,
                    effect_index(self.effects@, id),
                );
            }
            let current = self.effects[i];
            let updated = match current {
                Effect::Echo(echo) => {
                    match param_index {
                        0 => Effect::Echo(Echo { delay: value.whole, ..echo }),
                        1 => Effect::Echo(Echo { feedback: clamp01(value.raw), ..echo }),
                        2 => Effect::Echo(Echo { l_delay_offset: value.whole, ..echo }),
                        3 => Effect::Echo(Echo { r_delay_offset: value.whole, ..echo }),
                        4 => Effect::Echo(Echo { mix: Mix { dry: value.raw, ..echo.mix }, ..echo }),
                        5 => Effect::Echo(Echo { mix: Mix { wet: value.raw, ..echo.mix }, ..echo }),
                        _ => Effect::Echo(echo),
                    }
                },
                Effect::Filter(f) => {
                    match param_index {
                        0 => Effect::Filter(BiquadFilter { frequency: value.raw, ..f }),
                        1 => Effect::Filter(BiquadFilter { q: value.raw, ..f }),
                        _ => Effect::Filter(f),
                    }
                },
            };
            self.effects[i] = updated;
            proof {
                assert(self.effects@ =~= old(self).effects@.update(
                    i as int,
                    update_effect_spec(old(self).effects@[i as int], param_index, *value),
                ));
            }
        }
    }

    /// Applies one effect-control event: create by kind, remove by id,
    /// update by id, or — for an unknown event type — nothing.
    pub fn apply_event(&mut self, ev: &FxControlEvent)
        ensures
            final(self).echo_default_preset == old(self).echo_default_preset,
            final(self).effects@ == apply_fx_event_spec(
                old(self).effects@,
                old(self).echo_default_preset,
                *ev,
            ),
    {
        if ev.event_type == 0 {
            let kind = EffectsEnum::try_from(ev.param_index);
            match kind {
                Ok(EffectsEnum::Echo) => self.create_echo(ev.id),
                Ok(EffectsEnum::Filter) => self.create_filter(ev.id),
                Err(_) => {},
            }
        } else if ev.event_type == 1 {
            self.remove_effect(ev.id);
        } else if ev.event_type == 2 {
            self.update_effect(ev.id, ev.param_index, &ev.value);
        }
    }
}

} // verus!
