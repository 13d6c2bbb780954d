//! Layout constants of the shared-memory regions and the engine's fixed
//! parameters.

use vstd::prelude::*;

verus! {

/// Index of the flag word in the audio control block.
pub const FLAG_INDEX: u32 = 0;
/// Index of the consumer's read cursor in the audio control block.
pub const READ_INDEX: u32 = 1;
/// Index of the producer's write cursor in the audio control block.
pub const WRITE_INDEX: u32 = 2;
/// Bytes taken by the three 32-bit header words of the audio control block.
pub const HEADERS_SIZE_BYTES: u32 = 12;

/// Bytes per note-event record.
pub const MIDI_EVENT_SIZE: u32 = 4;
/// Records in the note-event queue.
pub const MIDI_QUEUE_CAPACITY: u32 = 64;
/// Index of the producer's write cursor in the note queue header.
pub const MIDI_WRITE_INDEX: u32 = 0;
/// Index of the consumer's read cursor in the note queue header.
pub const MIDI_READ_INDEX: u32 = 1;

/// Bytes per oscillator-control record.
pub const OSC_EVENT_SIZE: u32 = 8;
/// Records in the oscillator-control queue.
pub const OSC_QUEUE_CAPACITY: u32 = 100;

/// Records in the effect-control queue.
pub const FX_QUEUE_CAPACITY: u32 = 64;

/// Samples per second of the output signal.
pub const SAMPLE_RATE: u64 = 44100;

} // verus!
