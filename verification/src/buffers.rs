//! The three single-producer/single-consumer event queues and the echo
//! effect's sample memory.
//!
//! Each queue is a fixed-capacity circular record array with a read cursor
//! owned by the consuming audio thread and a write cursor owned by the
//! producing control thread. `read_idx == write_idx` means empty; a producer
//! never advances `write_idx` onto `read_idx`, so one slot stays reserved and
//! a full queue is never mistaken for an empty one. The structs here hold the
//! queue storage as plain owned values; the host layer that maps them onto
//! shared memory performs the atomic cursor loads and stores and hands the
//! same byte layout to these routines.

use vstd::prelude::*;

use crate::constants::FX_QUEUE_CAPACITY;
use crate::constants::MIDI_EVENT_SIZE;
use crate::constants::MIDI_QUEUE_CAPACITY;
use crate::constants::OSC_EVENT_SIZE;
use crate::constants::OSC_QUEUE_CAPACITY;
use crate::lemma_mod_small_range;
use crate::types::NoteDTO;
use crate::wrap_idx;

verus! {

// ---------------------------------------------------------------------------
// The abstract queue protocol and its law.
// ---------------------------------------------------------------------------

/// One step of the queue protocol, seen abstractly: the producer offers a
/// record, or the consumer takes one.
pub enum QueueOp<T> {
    Enqueue(T),
    Dequeue,
}

/// State reached by a run of the queue protocol: the records still pending,
/// the records the consumer took (oldest first), and the records the
/// producer's offers that were accepted (oldest first).
pub struct QueueRun<T> {
    pub pending: Seq<T>,
    pub dequeued: Seq<T>,
    pub accepted: Seq<T>,
}

/// How one operation moves the abstract queue. An offer to a queue already
/// holding `cap - 1` records is refused (the producer keeps one slot
/// reserved); a take from an empty queue returns nothing. The contracts of
/// the executable queues below are exactly the two branches of this function.
pub open spec fn queue_step<T>(s: QueueRun<T>, op: QueueOp<T>, cap: int) -> QueueRun<T> {
    match op {
        QueueOp::Enqueue(r) => {
            if s.pending.len() < cap - 1 {
                QueueRun { pending: s.pending.push(r), accepted: s.accepted.push(r), ..s }
            } else {
                s
            }
        },
        QueueOp::Dequeue => {
            if s.pending.len() > 0 {
                QueueRun {
                    pending: s.pending.drop_first(),
                    dequeued: s.dequeued.push(s.pending.first()),
                    ..s
                }
            } else {
                s
            }
        },
    }
}

/// The state after a whole sequence of interleaved offers and takes, starting
/// from an empty queue.
pub open spec fn queue_run<T>(ops: Seq<QueueOp<T>>, cap: int) -> QueueRun<T>
    decreases ops.len(),
{
    if ops.len() == 0 {
        QueueRun { pending: Seq::empty(), dequeued: Seq::empty(), accepted: Seq::empty() }
    } else {
        queue_step(queue_run(ops.drop_last(), cap), ops.last(), cap)
    }
}

/// Under the single-producer/single-consumer discipline no record is lost or
/// duplicated and FIFO order is preserved: after any interleaving of offers
/// and takes, the records taken out, followed by those still pending, are
/// exactly the accepted records in the order they were offered.
pub proof fn lemma_queue_fifo<T>(ops: Seq<QueueOp<T>>, cap: int)
    ensures
        queue_run(ops, cap).dequeued + queue_run(ops, cap).pending =~= queue_run(ops, cap).accepted,
    decreases ops.len(),
{
    if ops.len() == 0 {
    } else {
        lemma_queue_fifo(ops.drop_last(), cap);
        let prev = queue_run(ops.drop_last(), cap);
        match ops.last() {
            QueueOp::Enqueue(r) => {
                if prev.pending.len() < cap - 1 {
                    assert(prev.dequeued + prev.pending.push(r) =~= (prev.dequeued
                        + prev.pending).push(r));
                }
            },
            QueueOp::Dequeue => {
                if prev.pending.len() > 0 {
                    assert(prev.dequeued.push(prev.pending.first()) + prev.pending.drop_first()
                        =~= prev.dequeued + prev.pending);
                }
            },
        }
    }
}

// ---------------------------------------------------------------------------
// The note queue.
// ---------------------------------------------------------------------------

/// The note-event queue block: a byte array of fixed-size records
/// `[event_type, note_value, velocity, reserved]` behind the two cursors.
pub struct MidiBuffers {
    pub queue: Vec<u8>,
    pub read_idx: u32,
    pub write_idx: u32,
}

impl MidiBuffers {
    pub open spec fn wf(self) -> bool {
        &&& self.queue.len() == MIDI_QUEUE_CAPACITY * MIDI_EVENT_SIZE
        &&& self.read_idx < MIDI_QUEUE_CAPACITY
        &&& self.write_idx < MIDI_QUEUE_CAPACITY
    }

    /// The note record stored in slot `pos`: the wire format carries the
    /// event kind in its first byte, but which of the two note operations is
    /// meant travels in the velocity (zero means note-off), so the decoded
    /// record keeps only note value and velocity.
    pub open spec fn record_at(self, pos: int) -> NoteDTO {
        NoteDTO {
            value: self.queue[pos * (MIDI_EVENT_SIZE as int) + 1],
            velocity: self.queue[pos * (MIDI_EVENT_SIZE as int) + 2],
        }
    }

    pub open spec fn pending_len(self) -> int {
        if self.read_idx <= self.write_idx {
            self.write_idx - self.read_idx
        } else {
            self.write_idx - self.read_idx + MIDI_QUEUE_CAPACITY
        }
    }

    /// The records the consumer has not yet taken, oldest first.
    pub open spec fn pending(self) -> Seq<NoteDTO> {
        Seq::new(
            self.pending_len() as nat,
            |i: int| self.record_at(wrap_idx(self.read_idx + i, MIDI_QUEUE_CAPACITY as int)),
        )
    }

    pub fn new() -> (q: MidiBuffers)
        ensures
            q.wf(),
            q.pending().len() == 0,
    {
        MidiBuffers {
            queue: vec![0u8; (MIDI_QUEUE_CAPACITY * MIDI_EVENT_SIZE) as usize],
            read_idx: 0,
            write_idx: 0,
        }
    }

    /// Takes the oldest pending note record, if any: load both cursors,
    /// return nothing when they meet, otherwise decode the record under the
    /// read cursor and advance it one slot, wrapping at the capacity.
    pub fn dequeue_event(&mut self) -> (r: Option<NoteDTO>)
        requires
            old(self).wf(),
        ensures
            final(self).wf(),
            final(self).queue == old(self).queue,
            final(self).write_idx == old(self).write_idx,
            old(self).pending().len() == 0 ==> r is None && *final(self) == *old(self),
            old(self).pending().len() > 0 ==> r == Some(old(self).pending()[0])
                && final(self).pending() == old(self).pending().drop_first(),
    {
        let read_pos = self.read_idx;
        let write_pos = self.write_idx;

        if read_pos == write_pos {
            return None;
        }

        let event_offset = read_pos * MIDI_EVENT_SIZE;
        let note_value = self.queue[event_offset as usize + 1];
        let velocity = self.queue[event_offset as usize + 2];

        let new_read_pos = (read_pos + 1) % MIDI_QUEUE_CAPACITY;
        proof {
            lemma_mod_small_range(read_pos + 1, MIDI_QUEUE_CAPACITY as int);
        }
        self.read_idx = new_read_pos;

        proof {
            assert(self.pending() =~= old(self).pending().drop_first());
        }
        Some(NoteDTO { value: note_value, velocity })
    }

    /// The producer's half of the wire protocol: writes one record
    /// `[event_type, value, velocity, 0]` under the write cursor and advances
    /// it, unless that would move the write cursor onto the read cursor — a
    /// queue holding `capacity - 1` records refuses the offer rather than
    /// silently losing it.
    pub fn enqueue_event(&mut self, event_type: u8, value: u8, velocity: u8) -> (accepted: bool)
        requires
            old(self).wf(),
        ensures
            final(self).wf(),
            final(self).read_idx == old(self).read_idx,
            accepted <==> old(self).pending().len() < MIDI_QUEUE_CAPACITY - 1,
            accepted ==> final(self).pending() == old(self).pending().push(
                NoteDTO { value, velocity },
            ),
            !accepted ==> *final(self) == *old(self),
    {
        let next = (self.write_idx + 1) % MIDI_QUEUE_CAPACITY;
        proof {
            lemma_mod_small_range(self.write_idx + 1, MIDI_QUEUE_CAPACITY as int);
        }
        if next == self.read_idx {
            return false;
        }

        let offset = (self.write_idx * MIDI_EVENT_SIZE) as usize;
        self.queue[offset] = event_type;
        self.queue[offset + 1] = value;
        self.queue[offset + 2] = velocity;
        self.queue[offset + 3] = 0;
        self.write_idx = next;

        proof {
            assert forall|i: int| 0 <= i < old(self).pending().len() implies self.pending()[i]
                == old(self).pending()[i] by {
                let slot = wrap_idx(old(self).read_idx + i, MIDI_QUEUE_CAPACITY as int);
                assert(slot != old(self).write_idx);
            }
            assert(self.pending() =~= old(self).pending().push(NoteDTO { value, velocity }));
        }
        true
    }

    /// Drains every pending record in FIFO order and hands them back; the
    /// count processed is the length of the result.
    pub fn process_all_events(&mut self) -> (events: Vec<NoteDTO>)
        requires
            old(self).wf(),
        ensures
            final(self).wf(),
            events@ == old(self).pending(),
            final(self).pending().len() == 0,
            final(self).queue == old(self).queue,
            final(self).write_idx == old(self).write_idx,
    {
        let mut events: Vec<NoteDTO> = Vec::new();
        while self.read_idx != self.write_idx
            invariant
                self.wf(),
                self.queue == old(self).queue,
                self.write_idx == old(self).write_idx,
                old(self).pending() == events@ + self.pending(),
            decreases self.pending().len(),
        {
            let dto_opt = self.dequeue_event();
            if let Some(dto) = dto_opt {
                events.push(dto);
            }
            proof {
                assert(old(self).pending() =~= events@ + self.pending());
            }
        }
        proof {
            assert(old(self).pending() =~= events@);
        }
        events
    }
}

// ---------------------------------------------------------------------------
// The oscillator-control queue.
// ---------------------------------------------------------------------------

/// A 32-bit value read little-endian from four bytes.
pub open spec fn le_bytes_u32(b0: u8, b1: u8, b2: u8, b3: u8) -> u32 {
    (b0 + b1 * 0x100 + b2 * 0x10000 + b3 * 0x1000000) as u32
}

/// One decoded oscillator-control record. The last four bytes of the record
/// carry a little-endian single-precision float; it is kept here as its raw
/// bit pattern.
#[derive(Debug, Clone, Copy, PartialEq, Eq, Structural)]
pub struct OscEventDto {
    pub event_type: u8,
    pub osc_index: u8,
    pub key: u8,
    pub value_bits: u32,
}

/// The oscillator-control queue block: fixed-size 8-byte records
/// `[event_type, osc_index, key, value as little-endian float bits, unused]`
/// behind the two cursors.
pub struct OscillatorBuffers {
    pub queue: Vec<u8>,
    pub read_idx: u32,
    pub write_idx: u32,
}

impl OscillatorBuffers {
    pub open spec fn wf(self) -> bool {
        &&& self.queue.len() == OSC_QUEUE_CAPACITY * OSC_EVENT_SIZE
        &&& self.read_idx < OSC_QUEUE_CAPACITY
        &&& self.write_idx < OSC_QUEUE_CAPACITY
    }

    pub open spec fn record_at(self, pos: int) -> OscEventDto {
        let base = pos * (OSC_EVENT_SIZE as int);
        OscEventDto {
            event_type: self.queue[base],
            osc_index: self.queue[base + 1],
            key: self.queue[base + 2],
            value_bits: le_bytes_u32(
                self.queue[base + 3],
                self.queue[base + 4],
                self.queue[base + 5],
                self.queue[base + 6],
            ),
        }
    }

    pub open spec fn pending_len(self) -> int {
        if self.read_idx <= self.write_idx {
            self.write_idx - self.read_idx
        } else {
            self.write_idx - self.read_idx + OSC_QUEUE_CAPACITY
        }
    }

    /// The records the consumer has not yet taken, oldest first.
    pub open spec fn pending(self) -> Seq<OscEventDto> {
        Seq::new(
            self.pending_len() as nat,
            |i: int| self.record_at(wrap_idx(self.read_idx + i, OSC_QUEUE_CAPACITY as int)),
        )
    }

    pub fn new() -> (q: OscillatorBuffers)
        ensures
            q.wf(),
            q.pending().len() == 0,
    {
        OscillatorBuffers {
            queue: vec![0u8; (OSC_QUEUE_CAPACITY * OSC_EVENT_SIZE) as usize],
            read_idx: 0,
            write_idx: 0,
        }
    }

    /// The producer's half of the wire protocol: writes one 8-byte record
    /// under the write cursor and advances it, refusing the offer when the
    /// queue already holds `capacity - 1` records.
    pub fn enqueue_event(&mut self, event_type: u8, osc_index: u8, key: u8, value_bits: u32) -> (accepted:
        bool)
        requires
            old(self).wf(),
        ensures
            final(self).wf(),
            final(self).read_idx == old(self).read_idx,
            accepted <==> old(self).pending().len() < OSC_QUEUE_CAPACITY - 1,
            accepted ==> final(self).pending() == old(self).pending().push(
                OscEventDto { event_type, osc_index, key, value_bits },
            ),
            !accepted ==> *final(self) == *old(self),
    {
        let next = (self.write_idx + 1) % OSC_QUEUE_CAPACITY;
        proof {
            lemma_mod_small_range(self.write_idx + 1, OSC_QUEUE_CAPACITY as int);
        }
        if next == self.read_idx {
            return false;
        }

        let b0: u32 = value_bits % 0x100;
        let b1: u32 = (value_bits / 0x100) % 0x100;
        let b2: u32 = (value_bits / 0x10000) % 0x100;
        let b3: u32 = value_bits / 0x1000000;
        proof {
            assert(b0 + b1 * 0x100 + b2 * 0x10000 + b3 * 0x1000000 == value_bits) by (bit_vector)
                requires
                    b0 == value_bits % 0x100,
                    b1 == (value_bits / 0x100) % 0x100,
                    b2 == (value_bits / 0x10000) % 0x100,
                    b3 == value_bits / 0x1000000,
            ;
        }

        let offset = (self.write_idx * OSC_EVENT_SIZE) as usize;
        self.queue[offset] = event_type;
        self.queue[offset + 1] = osc_index;
        self.queue[offset + 2] = key;
        self.queue[offset + 3] = b0 as u8;
        self.queue[offset + 4] = b1 as u8;
        self.queue[offset + 5] = b2 as u8;
        self.queue[offset + 6] = b3 as u8;
        self.queue[offset + 7] = 0;
        self.write_idx = next;

        proof {
            assert forall|i: int| 0 <= i < old(self).pending().len() implies self.pending()[i]
                == old(self).pending()[i] by {
                let slot = wrap_idx(old(self).read_idx + i, OSC_QUEUE_CAPACITY as int);
                assert(slot != old(self).write_idx);
            }
            assert(self.pending() =~= old(self).pending().push(
                OscEventDto { event_type, osc_index, key, value_bits },
            ));
        }
        true
    }

    /// Drains every pending record in FIFO order, decoding each 8-byte
    /// record as it goes and publishing the read cursor once at the end.
    pub fn drain(&mut self) -> (events: Vec<OscEventDto>)
        requires
            old(self).wf(),
        ensures
            final(self).wf(),
            events@ == old(self).pending(),
            final(self).pending().len() == 0,
            final(self).queue == old(self).queue,
            final(self).write_idx == old(self).write_idx,
    {
        let mut events: Vec<OscEventDto> = Vec::new();
        let mut read_pos = self.read_idx;
        let write_pos = self.write_idx;

        while read_pos != write_pos
            invariant
                self.queue == old(self).queue,
                self.read_idx == old(self).read_idx,
                self.write_idx == old(self).write_idx,
                self.wf(),
                read_pos < OSC_QUEUE_CAPACITY,
                write_pos == self.write_idx,
                events@.len() <= old(self).pending_len(),
                read_pos == wrap_idx(
                    old(self).read_idx + events@.len(),
                    OSC_QUEUE_CAPACITY as int,
                ),
                events@ == old(self).pending().subrange(0, events@.len() as int),
            decreases old(self).pending_len() - events@.len(),
        {
            let offset = (read_pos * OSC_EVENT_SIZE) as usize;
            let event_type = self.queue[offset];
            let osc_index = self.queue[offset + 1];
            let key = self.queue[offset + 2];
            let v0 = self.queue[offset + 3];
            let v1 = self.queue[offset + 4];
            let v2 = self.queue[offset + 5];
            let v3 = self.queue[offset + 6];
            let value_bits: u32 = v0 as u32 + v1 as u32 * 0x100 + v2 as u32 * 0x10000 + v3 as u32
                * 0x1000000;

            proof {
                assert(events@.len() < old(self).pending_len());
                assert(old(self).pending()[events@.len() as int] == OscEventDto {
                    event_type,
                    osc_index,
                    key,
                    value_bits,
                });
            }
            events.push(OscEventDto { event_type, osc_index, key, value_bits });

            let next_read = (read_pos + 1) % OSC_QUEUE_CAPACITY;
            proof {
                lemma_mod_small_range(read_pos + 1, OSC_QUEUE_CAPACITY as int);
            }
            read_pos = next_read;
            proof {
                assert(events@ =~= old(self).pending().subrange(0, events@.len() as int));
            }
        }

        self.read_idx = read_pos;
        proof {
            assert(events@.len() == old(self).pending_len());
            assert(events@ =~= old(self).pending());
        }
        events
    }
}

// ---------------------------------------------------------------------------
// The effect-control queue.
// ---------------------------------------------------------------------------

/// One decoded effect-control record. The float field of the wire format is
/// kept as its raw bit pattern.
#[derive(Debug, Clone, Copy, PartialEq, Eq, Structural)]
pub struct FxEventDto {
    pub id: u32,
    pub param_index: u32,
    pub event_type: u32,
    pub value_bits: u32,
}

/// The effect-control queue block: two parallel arrays behind the two
/// cursors — three 32-bit integers per record (`fx_id, event_type,
/// param_index`) and one 32-bit float per record.
pub struct FxBuffers {
    pub queue_int: Vec<i32>,
    pub queue_float: Vec<u32>,
    pub read_idx: u32,
    pub write_idx: u32,
}

impl FxBuffers {
    pub open spec fn wf(self) -> bool {
        &&& self.queue_int.len() == 3 * FX_QUEUE_CAPACITY
        &&& self.queue_float.len() == FX_QUEUE_CAPACITY
        &&& self.read_idx < FX_QUEUE_CAPACITY
        &&& self.write_idx < FX_QUEUE_CAPACITY
    }

    pub open spec fn record_at(self, pos: int) -> FxEventDto {
        FxEventDto {
            id: self.queue_int[pos * 3] as u32,
            event_type: self.queue_int[pos * 3 + 1] as u32,
            param_index: self.queue_int[pos * 3 + 2] as u32,
            value_bits: self.queue_float[pos],
        }
    }

    pub open spec fn pending_len(self) -> int {
        if self.read_idx <= self.write_idx {
            self.write_idx - self.read_idx
        } else {
            self.write_idx - self.read_idx + FX_QUEUE_CAPACITY
        }
    }

    /// The records the consumer has not yet taken, oldest first.
    pub open spec fn pending(self) -> Seq<FxEventDto> {
        Seq::new(
            self.pending_len() as nat,
            |i: int| self.record_at(wrap_idx(self.read_idx + i, FX_QUEUE_CAPACITY as int)),
        )
    }

    pub fn new() -> (q: FxBuffers)
        ensures
            q.wf(),
            q.pending().len() == 0,
    {
        FxBuffers {
            queue_int: vec![0i32; (3 * FX_QUEUE_CAPACITY) as usize],
            queue_float: vec![0u32; FX_QUEUE_CAPACITY as usize],
            read_idx: 0,
            write_idx: 0,
        }
    }

    /// Takes the oldest pending effect record, if any, advancing the read
    /// cursor one slot.
    pub fn dequeue_event(&mut self) -> (r: Option<FxEventDto>)
        requires
            old(self).wf(),
        ensures
            final(self).wf(),
            final(self).queue_int == old(self).queue_int,
            final(self).queue_float == old(self).queue_float,
            final(self).write_idx == old(self).write_idx,
            old(self).pending().len() == 0 ==> r is None && *final(self) == *old(self),
            old(self).pending().len() > 0 ==> r == Some(old(self).pending()[0])
                && final(self).pending() == old(self).pending().drop_first(),
    {
        let read_pos = self.read_idx;
        let write_pos = self.write_idx;

        if read_pos == write_pos {
            return None;
        }

        let int_offset = (read_pos * 3) as usize;
        let float_offset = read_pos as usize;

        let fx_id = self.queue_int[int_offset] as u32;
        let event_type = self.queue_int[int_offset + 1] as u32;
        let param_index = self.queue_int[int_offset + 2] as u32;
        let value_bits = self.queue_float[float_offset];

        let new_read_pos = (read_pos + 1) % FX_QUEUE_CAPACITY;
        proof {
            lemma_mod_small_range(read_pos + 1, FX_QUEUE_CAPACITY as int);
        }
        self.read_idx = new_read_pos;

        proof {
            assert(self.pending() =~= old(self).pending().drop_first());
        }
        Some(FxEventDto { id: fx_id, param_index, event_type, value_bits })
    }

    /// The producer's half of the wire protocol: writes the three integer
    /// fields and the float field of one record under the write cursor and
    /// advances it, refusing the offer when the queue already holds
    /// `capacity - 1` records.
    pub fn enqueue_event(&mut self, id: u32, event_type: u32, param_index: u32, value_bits: u32) -> (accepted:
        bool)
        requires
            old(self).wf(),
        ensures
            final(self).wf(),
            final(self).read_idx == old(self).read_idx,
            accepted <==> old(self).pending().len() < FX_QUEUE_CAPACITY - 1,
            accepted ==> final(self).pending() == old(self).pending().push(
                FxEventDto { id, param_index, event_type, value_bits },
            ),
            !accepted ==> *final(self) == *old(self),
    {
        let next = (self.write_idx + 1) % FX_QUEUE_CAPACITY;
        proof {
            lemma_mod_small_range(self.write_idx + 1, FX_QUEUE_CAPACITY as int);
        }
        if next == self.read_idx {
            return false;
        }

        proof {
            assert((id as i32) as u32 == id) by (bit_vector);
            assert((event_type as i32) as u32 == event_type) by (bit_vector);
            assert((param_index as i32) as u32 == param_index) by (bit_vector);
        }

        let int_offset = (self.write_idx * 3) as usize;
        self.queue_int[int_offset] = id as i32;
        self.queue_int[int_offset + 1] = event_type as i32;
        self.queue_int[int_offset + 2] = param_index as i32;
        self.queue_float[self.write_idx as usize] = value_bits;
        self.write_idx = next;

        proof {
            assert forall|i: int| 0 <= i < old(self).pending().len() implies self.pending()[i]
                == old(self).pending()[i] by {
                let slot = wrap_idx(old(self).read_idx + i, FX_QUEUE_CAPACITY as int);
                assert(slot != old(self).write_idx);
            }
            assert(self.pending() =~= old(self).pending().push(
                FxEventDto { id, param_index, event_type, value_bits },
            ));
        }
        true
    }

    /// Drains every pending record in FIFO order and hands them back; the
    /// count processed is the length of the result.
    pub fn process_all_events(&mut self) -> (events: Vec<FxEventDto>)
        requires
            old(self).wf(),
        ensures
            final(self).wf(),
            events@ == old(self).pending(),
            final(self).pending().len() == 0,
            final(self).queue_int == old(self).queue_int,
            final(self).queue_float == old(self).queue_float,
            final(self).write_idx == old(self).write_idx,
    {
        let mut events: Vec<FxEventDto> = Vec::new();
        while self.read_idx != self.write_idx
            invariant
                self.wf(),
                self.queue_int == old(self).queue_int,
                self.queue_float == old(self).queue_float,
                self.write_idx == old(self).write_idx,
                old(self).pending() == events@ + self.pending(),
            decreases self.pending().len(),
        {
            let dto_opt = self.dequeue_event();
            if let Some(dto) = dto_opt {
                events.push(dto);
            }
            proof {
                assert(old(self).pending() =~= events@ + self.pending());
            }
        }
        proof {
            assert(old(self).pending() =~= events@);
        }
        events
    }
}

// ---------------------------------------------------------------------------
// The echo effect's circular sample memory.
// ---------------------------------------------------------------------------

/// Circular stereo sample memory owned by the echo effect. Samples are
/// interleaved left/right pairs, kept as IEEE-754 single-precision bit
/// patterns; the write cursor always stands on an even slot.
pub struct MemoryBuffer {
    pub buffer: Vec<u32>,
    pub size: usize,
    pub write_index: usize,
}

impl MemoryBuffer {
    pub open spec fn wf(self) -> bool {
        &&& self.buffer.len() == self.size
        &&& self.size >= 2
        &&& self.size % 2 == 0
        &&& self.write_index < self.size
        &&& self.write_index % 2 == 0
    }

    /// A memory holding `duration_seconds` of interleaved stereo signal at
    /// `sample_rate` frames per second, initially silent.
    pub fn new(sample_rate: usize, duration_seconds: usize) -> (m: MemoryBuffer)
        requires
            sample_rate >= 1,
            duration_seconds >= 1,
            sample_rate * duration_seconds * 2 <= usize::MAX,
        ensures
            m.wf(),
            m.size == sample_rate * duration_seconds * 2,
            m.write_index == 0,
            forall|i: int| 0 <= i < m.size ==> m.buffer[i] == 0,
    {
        proof {
            assert(sample_rate * duration_seconds >= 1) by (nonlinear_arith)
                requires
                    sample_rate >= 1,
                    duration_seconds >= 1,
            ;
            vstd::arithmetic::div_mod::lemma_mod_multiples_basic(
                (sample_rate * duration_seconds) as int,
                2,
            );
        }
        let size = sample_rate * duration_seconds * 2;
        MemoryBuffer { buffer: vec![0u32; size], size, write_index: 0 }
    }

    /// Stores one stereo frame under the write cursor and advances it two
    /// slots, wrapping at the end of the memory.
    pub fn write(&mut self, sample_l: u32, sample_r: u32)
        requires
            old(self).wf(),
        ensures
            final(self).wf(),
            final(self).size == old(self).size,
            final(self).buffer@ == old(self).buffer@.update(
                old(self).write_index as int,
                sample_l,
            ).update(old(self).write_index + 1, sample_r),
            final(self).write_index == wrap_idx(old(self).write_index + 2, old(self).size as int),
    {
        let w = self.write_index;
        self.buffer[w] = sample_l;
        self.buffer[w + 1] = sample_r;
        let next = (w + 2) % self.size;
        proof {
            lemma_mod_small_range(w + 2, self.size as int);
        }
        self.write_index = next;
    }

    /// Reads the stereo frame `delay_samples` slots behind the write cursor.
    /// The delay must be even so that the pair read is an aligned frame.
    pub fn read_mono(&self, delay_samples: usize) -> (r: (u32, u32))
        requires
            self.wf(),
            delay_samples <= self.size,
            delay_samples % 2 == 0,
        ensures
            r.0 == self.buffer[wrap_idx(
                self.size + self.write_index - delay_samples,
                self.size as int,
            )],
            r.1 == self.buffer[wrap_idx(
                self.size + self.write_index - delay_samples,
                self.size as int,
            ) + 1],
    {
        let read_index = if delay_samples <= self.write_index {
            self.write_index - delay_samples
        } else {
            self.size - delay_samples + self.write_index
        };
        (self.buffer[read_index], self.buffer[read_index + 1])
    }

    /// Reads the left sample `delay_samples` frames behind the write cursor.
    pub fn read_left(&self, delay_samples: usize) -> (r: u32)
        requires
            self.wf(),
            delay_samples * 2 <= self.size,
        ensures
            r == self.buffer[wrap_idx(
                self.size + self.write_index - delay_samples * 2,
                self.size as int,
            )],
    {
        let offset = delay_samples * 2;
        let read_index = if offset <= self.write_index {
            self.write_index - offset
        } else {
            self.size - offset + self.write_index
        };
        self.buffer[read_index]
    }

    /// Reads the right sample of the same frame `read_left` reads, the slot
    /// one past it, wrapping at the end of the memory.
    pub fn read_right(&self, delay_samples: usize) -> (r: u32)
        requires
            self.wf(),
            delay_samples * 2 <= self.size,
        ensures
            r == self.buffer[wrap_idx(
                wrap_idx(self.size + self.write_index - delay_samples * 2, self.size as int) + 1,
                self.size as int,
            )],
    {
        let offset = delay_samples * 2;
        let read_index = if offset <= self.write_index {
            self.write_index - offset
        } else {
            self.size - offset + self.write_index
        };
        let second = (read_index + 1) % self.size;
        proof {
            lemma_mod_small_range(read_index + 1, self.size as int);
        }
        self.buffer[second]
    }
}

} // verus!
