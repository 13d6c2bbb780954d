//! The two insert effects, as the engine sees them: their kind, identity
//! and configuration.
//!
//! Per-sample effect processing is float arithmetic and lives with the
//! host's rendering; what the engine owns — and what is verified — is the
//! closed set of effect kinds, their parameters (floats as opaque IEEE-754
//! bit patterns, delays as sample counts), and how control events create,
//! remove and update them. The echo's circular sample memory is the
//! verified `MemoryBuffer`; the host holds one per live echo.

use vstd::prelude::*;

use crate::oscillator::ControlValue;
use crate::oscillator::BITS_ONE;
use crate::types::Mix;

verus! {

/// IEEE-754 single-precision bit pattern of seven tenths.
pub const BITS_SEVEN_TENTHS: u32 = 0x3F33_3333;

/// IEEE-754 single-precision bit pattern of eight hundred.
pub const BITS_EIGHT_HUNDRED: u32 = 0x4448_0000;

/// IEEE-754 single-precision bit pattern of positive infinity; every larger
/// pattern with the sign bit clear is a NaN.
pub const BITS_POSITIVE_INFINITY: u32 = 0x7F80_0000;

/// A float bit pattern clamped into `[0, 1]`. Non-negative finite values up
/// to one pass verbatim (non-negative floats order as their bit patterns);
/// larger positive values, infinity included, become one; NaN patterns and
/// anything with the sign bit set become zero.
pub open spec fn clamp01_bits(b: u32) -> u32 {
    if b <= BITS_ONE {
        b
    } else if b <= BITS_POSITIVE_INFINITY {
        BITS_ONE
    } else {
        0
    }
}

/// Clamps a float bit pattern into `[0, 1]`.
pub fn clamp01(b: u32) -> (r: u32)
    ensures
        r == clamp01_bits(b),
{
    if b <= BITS_ONE {
        b
    } else if b <= BITS_POSITIVE_INFINITY {
        BITS_ONE
    } else {
        0
    }
}

/// The closed set of effect kinds the wire protocol can name.
#[derive(Debug, Clone, Copy, PartialEq, Eq, Structural)]
pub enum EffectsEnum {
    Echo,
    Filter,
}

impl EffectsEnum {
    /// Decodes the effect kind named by a control record.
    pub fn try_from(value: u32) -> (r: Result<EffectsEnum, ()>)
        ensures
            value == 0 ==> r == Ok::<EffectsEnum, ()>(EffectsEnum::Echo),
            value == 1 ==> r == Ok::<EffectsEnum, ()>(EffectsEnum::Filter),
            value >= 2 <==> r is Err,
    {
        match value {
            0 => Ok(EffectsEnum::Echo),
            1 => Ok(EffectsEnum::Filter),
            _ => Err(()),
        }
    }
}

/// A resonant low-pass filter's configuration: cut-off frequency and Q as
/// float bit patterns. The host derives the biquad coefficients from them
/// once and keeps the two-pole state per channel.
#[derive(Debug, Clone, Copy, PartialEq, Eq, Structural)]
pub struct BiquadFilter {
    pub id: u32,
    pub frequency: u32,
    pub q: u32,
}

impl BiquadFilter {
    pub fn new(frequency: u32, q: u32, id: u32) -> (f: BiquadFilter)
        ensures
            f == (BiquadFilter { id, frequency, q }),
    {
        BiquadFilter { id, frequency, q }
    }
}

/// A feedback delay's configuration: delay and per-channel offsets in
/// samples, feedback gain and dry/wet mix as float bit patterns. The
/// feedback gain is clamped into `[0, 1]` wherever it is stored — at
/// construction and on update.
#[derive(Debug, Clone, Copy, PartialEq, Eq, Structural)]
pub struct EchoParams {
    pub delay: u64,
    pub feedback: u32,
    pub r_delay_offset: u64,
    pub l_delay_offset: u64,
    pub mix: Mix,
}

/// A live feedback delay: its identity and configuration. Its circular
/// sample memory stays with the host's rendering state.
#[derive(Debug, Clone, Copy, PartialEq, Eq, Structural)]
pub struct Echo {
    pub id: u32,
    pub delay: u64,
    pub feedback: u32,
    pub r_delay_offset: u64,
    pub l_delay_offset: u64,
    pub mix: Mix,
}

impl Echo {
    /// A live feedback delay; the feedback gain is clamped into `[0, 1]`,
    /// everything else is stored verbatim.
    pub fn new(delay: u64, feedback: u32, r_delay_offset: u64, l_delay_offset: u64, mix: Mix, id: u32) -> (e:
        Echo)
        ensures
            e == (Echo {
                id,
                delay,
                feedback: clamp01_bits(feedback),
                r_delay_offset,
                l_delay_offset,
                mix,
            }),
    {
        Echo { id, delay, feedback: clamp01(feedback), r_delay_offset, l_delay_offset, mix }
    }
}

/// An insert effect: the closed tagged variant over the two kinds. Order in
/// the chain is mix-significant and caller-controlled.
#[derive(Debug, Clone, Copy, PartialEq, Eq, Structural)]
pub enum Effect {
    Filter(BiquadFilter),
    Echo(Echo),
}

impl Effect {
    /// The identity control events address this effect by.
    pub open spec fn id_spec(self) -> u32 {
        match self {
            Effect::Filter(f) => f.id,
            Effect::Echo(e) => e.id,
        }
    }

    pub fn id(&self) -> (r: u32)
        ensures
            r == self.id_spec(),
    {
        match self {
            Effect::Filter(f) => f.id,
            Effect::Echo(e) => e.id,
        }
    }
}

/// What an update control event does to an effect: each parameter index
/// addresses one field of the effect's kind; an unknown index leaves the
/// effect as it was. Delays take the value as a sample count, the feedback
/// gain takes it clamped into `[0, 1]`, the rest take the raw bits.
pub open spec fn update_effect_spec(e: Effect, param_index: u32, v: ControlValue) -> Effect {
    match e {
        Effect::Echo(echo) => {
            if param_index == 0 {
                Effect::Echo(Echo { delay: v.whole, ..echo })
            } else if param_index == 1 {
                Effect::Echo(Echo { feedback: clamp01_bits(v.raw), ..echo })
            } else if param_index == 2 {
                Effect::Echo(Echo { l_delay_offset: v.whole, ..echo })
            } else if param_index == 3 {
                Effect::Echo(Echo { r_delay_offset: v.whole, ..echo })
            } else if param_index == 4 {
                Effect::Echo(Echo { mix: Mix { dry: v.raw, ..echo.mix }, ..echo })
            } else if param_index == 5 {
                Effect::Echo(Echo { mix: Mix { wet: v.raw, ..echo.mix }, ..echo })
            } else {
                e
            }
        },
        Effect::Filter(f) => {
            if param_index == 0 {
                Effect::Filter(BiquadFilter { frequency: v.raw, ..f })
            } else if param_index == 1 {
                Effect::Filter(BiquadFilter { q: v.raw, ..f })
            } else {
                e
            }
        },
    }
}

} // verus!
