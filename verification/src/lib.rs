//! Core of a real-time software synthesizer: the lock-free event-queue
//! protocol, the audio ring-buffer handoff, the oscillator bank and its
//! control protocol, the per-voice envelope state machines, and the
//! effects-chain bookkeeping.
//!
//! Sample amplitudes and gain parameters travel through this crate as opaque
//! 32-bit IEEE-754 bit patterns (`u32`); the host layer that owns the shared
//! memory converts them to and from machine floats. Everything the engine
//! *decides* on — cursors, counters, envelope phases, queue records, effect
//! ordering — is plain integer data and is verified here.

pub mod audio_processor;
pub mod buffers;
pub mod constants;
pub mod dsp_effects;
pub mod mixer;
pub mod note;
pub mod note_manager;
pub mod oscillator;
pub mod ring_buffer_manager;
pub mod toolkit;
pub mod types;

use vstd::prelude::*;

verus! {

/// Folds an index that overshot a circular buffer of `c` slots by less than
/// one full turn back into `[0, c)`. Keeping circular-index specifications in
/// this form, rather than as a remainder, leaves them in linear arithmetic.
pub open spec fn wrap_idx(x: int, c: int) -> int {
    if x < c {
        x
    } else {
        x - c
    }
}

/// A value known to lie within one wrap of a circular index space folds back
/// into range by a single subtraction.
pub proof fn lemma_mod_small_range(x: int, c: int)
    requires
        c > 0,
        0 <= x < 2 * c,
    ensures
        x % c == if x < c {
            x
        } else {
            x - c
        },
{
    if x < c {
        vstd::arithmetic::div_mod::lemma_small_mod(x as nat, c as nat);
    } else {
        vstd::arithmetic::div_mod::lemma_mod_add_multiples_vanish(x - c, c);
        vstd::arithmetic::div_mod::lemma_small_mod((x - c) as nat, c as nat);
    }
}

/// Space available for a producer writing into a circular buffer of
/// `capacity` slots, when the consumer stands at `read_idx` and the producer
/// at `write_idx`. One slot stays reserved so that a full buffer is never
/// mistaken for an empty one (`read_idx == write_idx` means empty).
pub fn space_available(read_idx: u32, write_idx: u32, capacity: u32) -> (space: u32)
    requires
        capacity > 0,
        read_idx < capacity,
        write_idx < capacity,
    ensures
        space == (read_idx + capacity - write_idx - 1) % (capacity as int),
        space < capacity,
        (write_idx + space + 1) % (capacity as int) == read_idx,
{
    let wide: u64 = read_idx as u64 + capacity as u64 - write_idx as u64 - 1;
    let space: u32 = (wide % (capacity as u64)) as u32;
    proof {
        let c = capacity as int;
        let x = read_idx + c - write_idx - 1;
        lemma_mod_small_range(x, c);
        if x < c {
            // space == x, so write_idx + space + 1 == read_idx + c
            vstd::arithmetic::div_mod::lemma_mod_add_multiples_vanish(read_idx as int, c);
            vstd::arithmetic::div_mod::lemma_small_mod(read_idx as nat, c as nat);
        } else {
            // space == x - c, so write_idx + space + 1 == read_idx
            vstd::arithmetic::div_mod::lemma_small_mod(read_idx as nat, c as nat);
        }
    }
    space
}

} // verus!
