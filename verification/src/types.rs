//! Shared value types of the control protocol: event and waveform tags and
//! the decoded note record.

use vstd::prelude::*;

verus! {

/// Kind of a note event on the wire.
#[derive(Debug, Clone, Copy, PartialEq, Eq, Structural)]
pub enum EventType {
    NoteOff,
    NoteOn,
}

impl EventType {
    /// Decodes the event-type byte of a note record.
    pub fn try_from(value: u8) -> (r: Result<EventType, &'static str>)
        ensures
            value == 0 ==> r == Ok::<EventType, &'static str>(EventType::NoteOff),
            value == 1 ==> r == Ok::<EventType, &'static str>(EventType::NoteOn),
            value >= 2 <==> r is Err,
    {
        match value {
            0 => Ok(EventType::NoteOff),
            1 => Ok(EventType::NoteOn),
            _ => Err("unknown note event type"),
        }
    }
}

/// Waveform of an oscillator.
#[derive(Debug, Clone, Copy, PartialEq, Eq, Structural)]
pub enum WaveType {
    Sine,
    Square,
    Saw,
    Triangle,
}

impl WaveType {
    /// Decodes a waveform byte of an oscillator-control record. Bytes outside
    /// the enum range are rejected, so a malformed update leaves the previous
    /// waveform in place.
    pub fn try_from(value: u8) -> (r: Result<WaveType, &'static str>)
        ensures
            value == 0 ==> r == Ok::<WaveType, &'static str>(WaveType::Sine),
            value == 1 ==> r == Ok::<WaveType, &'static str>(WaveType::Square),
            value == 2 ==> r == Ok::<WaveType, &'static str>(WaveType::Saw),
            value == 3 ==> r == Ok::<WaveType, &'static str>(WaveType::Triangle),
            value >= 4 <==> r is Err,
    {
        match value {
            0 => Ok(WaveType::Sine),
            1 => Ok(WaveType::Square),
            2 => Ok(WaveType::Saw),
            3 => Ok(WaveType::Triangle),
            _ => Err("invalid waveform value"),
        }
    }
}

/// A decoded note event: which key, and how hard. A velocity of zero means
/// the key was released.
#[derive(Debug, Clone, Copy, PartialEq, Eq, Structural)]
pub struct NoteDTO {
    pub value: u8,
    pub velocity: u8,
}

/// Dry/wet balance of an effect, both stored as IEEE-754 single-precision
/// bit patterns.
#[derive(Debug, Clone, Copy, PartialEq, Eq, Structural)]
pub struct Mix {
    pub dry: u32,
    pub wet: u32,
}

} // verus!
