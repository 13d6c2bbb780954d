//! The audio ring buffer: finished interleaved stereo samples, written by
//! the engine and drained by the host's playback side.
//!
//! The buffer is circular; the engine owns the write cursor, the consumer
//! the read cursor, and the caller computes the space for one write as
//! `(read_idx - write_idx - 1 + capacity) % capacity`, so one slot stays
//! reserved and a write never reaches all the way around. Samples are kept
//! as IEEE-754 single-precision bit patterns; the host layer that maps this
//! buffer onto shared memory stores them as floats and publishes the new
//! write cursor only after the data, so a consumer never observes the cursor
//! ahead of the samples.

use vstd::prelude::*;

use crate::wrap_idx;

verus! {

/// Where sample `j` of the buffer stands relative to a write that starts at
/// `w`: the number of steps the write cursor takes before it reaches `j`.
pub open spec fn ring_offset(j: int, w: int, cap: int) -> int {
    if j >= w {
        j - w
    } else {
        j - w + cap
    }
}

/// The buffer contents after writing the run `s` starting at cursor `w`,
/// wrapping at the end: a slot within `s.len()` steps of `w` takes the
/// corresponding sample, every other slot keeps its old value.
pub open spec fn ring_write_spec(buf: Seq<u32>, w: int, s: Seq<u32>) -> Seq<u32> {
    Seq::new(
        buf.len(),
        |j: int|
            if ring_offset(j, w, buf.len() as int) < s.len() {
                s[ring_offset(j, w, buf.len() as int)]
            } else {
                buf[j]
            },
    )
}

/// The run of `count` samples read from the buffer starting at `start`,
/// wrapping at the end: the consumer's view of one span.
pub open spec fn ring_read_spec(buf: Seq<u32>, start: int, count: nat) -> Seq<u32> {
    Seq::new(count, |i: int| buf[wrap_idx(start + i, buf.len() as int)])
}

/// Writing a run of fewer samples than the capacity and reading the same
/// span back by cursor arithmetic yields the identical run, wraparound
/// included.
pub proof fn lemma_ring_round_trip(buf: Seq<u32>, w: int, s: Seq<u32>)
    requires
        buf.len() > 0,
        0 <= w < buf.len(),
        s.len() < buf.len(),
    ensures
        ring_read_spec(ring_write_spec(buf, w, s), w, s.len()) =~= s,
{
    let written = ring_write_spec(buf, w, s);
    assert forall|i: int| 0 <= i < s.len() implies ring_read_spec(written, w, s.len())[i]
        == s[i] by {
        let cap = buf.len() as int;
        let j = wrap_idx(w + i, cap);
        assert(ring_offset(j, w, cap) == i);
    }
}

/// The engine's handle on the ring buffer.
pub struct RingBufferManager {
    pub ring_buffer: Vec<u32>,
    pub write_idx: u32,
}

impl RingBufferManager {
    pub open spec fn capacity(self) -> int {
        self.ring_buffer.len() as int
    }

    pub open spec fn wf(self) -> bool {
        &&& self.ring_buffer.len() > 0
        &&& self.ring_buffer.len() <= u32::MAX
        &&& self.write_idx < self.ring_buffer.len()
    }

    pub fn new(capacity: u32) -> (m: RingBufferManager)
        requires
            capacity > 0,
        ensures
            m.wf(),
            m.capacity() == capacity,
            m.write_idx == 0,
            forall|j: int| 0 <= j < capacity ==> m.ring_buffer[j] == 0,
    {
        RingBufferManager { ring_buffer: vec![0u32; capacity as usize], write_idx: 0 }
    }

    /// Writes a contiguous run of samples starting at the current write
    /// cursor, wrapping at the capacity, and moves the cursor past the run.
    /// The run must be shorter than the capacity — the caller writes at most
    /// the available space, which reserves one slot.
    pub fn write_samples(&mut self, samples: &Vec<u32>)
        requires
            old(self).wf(),
            samples.len() < old(self).ring_buffer.len(),
        ensures
            final(self).wf(),
            final(self).capacity() == old(self).capacity(),
            final(self).ring_buffer@ == ring_write_spec(
                old(self).ring_buffer@,
                old(self).write_idx as int,
                samples@,
            ),
            final(self).write_idx == wrap_idx(
                old(self).write_idx + samples.len(),
                old(self).capacity(),
            ),
    {
        let cap: usize = self.ring_buffer.len();
        let w: usize = self.write_idx as usize;
        let len: usize = samples.len();

        let mut i: usize = 0;
        while i < len
            invariant
                self.ring_buffer.len() == cap,
                self.write_idx == old(self).write_idx,
                w == old(self).write_idx,
                w < cap,
                len == samples.len(),
                len < cap,
                i <= len,
                forall|j: int| 0 <= j < cap && ring_offset(j, w as int, cap as int) >= i
                    ==> self.ring_buffer[j] == old(self).ring_buffer[j],
                forall|k: int| 0 <= k < i ==> self.ring_buffer[wrap_idx(w + k, cap as int)]
                    == samples[k],
            decreases len - i,
        {
            let idx: usize = if i < cap - w {
                w + i
            } else {
                i - (cap - w)
            };
            self.ring_buffer[idx] = samples[i];
            i += 1;
        }

        let new_w: usize = if len < cap - w {
            w + len
        } else {
            len - (cap - w)
        };
        self.write_idx = new_w as u32;

        proof {
            assert(self.ring_buffer@ =~= ring_write_spec(
                old(self).ring_buffer@,
                old(self).write_idx as int,
                samples@,
            ));
        }
    }

    /// Reads back a span of `count` samples starting at `start`, wrapping at
    /// the capacity: the consumer's drain, by the same cursor arithmetic.
    pub fn read_span(&self, start: u32, count: u32) -> (span: Vec<u32>)
        requires
            self.wf(),
            start < self.capacity(),
            count <= self.capacity(),
        ensures
            span@ == ring_read_spec(self.ring_buffer@, start as int, count as nat),
    {
        let cap: usize = self.ring_buffer.len();
        let s: usize = start as usize;
        let n: usize = count as usize;

        let mut span: Vec<u32> = Vec::new();
        let mut i: usize = 0;
        while i < n
            invariant
                cap == self.ring_buffer.len(),
                self.wf(),
                s == start,
                s < cap,
                n == count,
                n <= cap,
                i <= n,
                span@.len() == i,
                forall|k: int| 0 <= k < i ==> span@[k] == self.ring_buffer[wrap_idx(
                    s + k,
                    cap as int,
                )],
            decreases n - i,
        {
            let idx: usize = if i < cap - s {
                s + i
            } else {
                i - (cap - s)
            };
            span.push(self.ring_buffer[idx]);
            i += 1;
        }
        proof {
            assert(span@ =~= ring_read_spec(self.ring_buffer@, start as int, count as nat));
        }
        span
    }
}

/// How a run that starts at `write_idx` splits at the wrap boundary: the
/// length of the first, contiguous part, and the cursor after the whole run.
/// The host writes the first `contiguous` samples at `write_idx` and the
/// remaining `len - contiguous` at slot zero, then publishes `new_write`.
pub fn write_split(write_idx: u32, len: u32, capacity: u32) -> (r: (u32, u32))
    requires
        capacity > 0,
        write_idx < capacity,
        len <= capacity,
    ensures
        r.0 == if len < capacity - write_idx {
            len as int
        } else {
            capacity - write_idx
        },
        r.1 == wrap_idx(write_idx + len, capacity as int),
{
    let contiguous = if len < capacity - write_idx {
        len
    } else {
        capacity - write_idx
    };
    let new_write = if len < capacity - write_idx {
        write_idx + len
    } else {
        len - (capacity - write_idx)
    };
    (contiguous, new_write)
}

} // verus!
