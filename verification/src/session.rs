//! One streaming session: an immutable mono buffer, a negotiated capacity,
//! a cycle counter, and the verified shape of each transmission cycle.
//!
//! The session's connection and its forever-loop live with the caller; this
//! module decides what each cycle sends (every buffered sample up to the
//! capacity, in ascending index order) and how long to pace after it.

use vstd::prelude::*;

use rand::RngExt;

use crate::extract::MonoSampleBuffer;
use crate::wire::format_sample_line;
use crate::wire::sample_line;

verus! {

/// The pacing jitter bound, in milliseconds: every cycle sleeps the
/// configured base delay plus a uniform random addition below this.
pub const JITTER_BOUND_MS: u64 = 2000;

/// The bytes of one transmission cycle over the first `n` buffered samples:
/// the `SMPL` lines for indices `0 .. n`, concatenated in ascending order.
pub open spec fn payload_prefix(samples: Seq<i64>, n: nat) -> Seq<u8>
    decreases n,
{
    if n == 0 {
        Seq::<u8>::empty()
    } else {
        payload_prefix(samples, (n - 1) as nat) + sample_line(
            (n - 1) as nat,
            samples[n - 1] as int,
        )
    }
}

/// How many samples one cycle transmits: every buffered sample, capped by
/// the negotiated capacity.
pub open spec fn spec_sends_per_cycle(buffer_len: nat, capacity: nat) -> nat {
    if buffer_len <= capacity {
        buffer_len
    } else {
        capacity
    }
}

/// One independent streaming session: its immutable sample buffer and
/// negotiated capacity, and a monotonically increasing cycle counter that
/// is surfaced for observability only.
pub struct StreamSession {
    pub buffer: MonoSampleBuffer,
    pub capacity: usize,
    pub cycles_completed: u64,
}

impl StreamSession {
    /// A session is well formed when its buffer is: no sample's rendering
    /// can overflow.
    pub open spec fn wf(&self) -> bool {
        self.buffer.wf()
    }

    /// Binds one negotiated connection's buffer and capacity into a fresh
    /// session with no cycles completed.
    pub fn new(buffer: MonoSampleBuffer, capacity: usize) -> (s: Self)
        ensures
            s.buffer == buffer,
            s.capacity == capacity,
            s.cycles_completed == 0,
    {
        StreamSession { buffer, capacity, cycles_completed: 0 }
    }

    /// The whole payload of one transmission cycle: the `SMPL` lines for
    /// indices `0 .. min(buffer length, capacity)`, in ascending order.
    /// With capacity zero the payload is empty and the cycle is a no-op.
    pub fn cycle_payload(&self) -> (out: Vec<u8>)
        requires
            self.wf(),
        ensures
            out@ == payload_prefix(
                self.buffer@,
                spec_sends_per_cycle(self.buffer@.len(), self.capacity as nat),
            ),
    {
        let len: usize = self.buffer.len();
        let count: usize = if len <= self.capacity {
            len
        } else {
            self.capacity
        };
        let mut out: Vec<u8> = Vec::new();
        let mut i: usize = 0;
        while i < count
            invariant
                0 <= i <= count,
                count == spec_sends_per_cycle(self.buffer@.len(), self.capacity as nat),
                count <= self.buffer@.len(),
                self.wf(),
                out@ == payload_prefix(self.buffer@, i as nat),
            decreases count - i,
        {
            let v: i64 = self.buffer.sample_at(i);
            let mut line: Vec<u8> = format_sample_line(i, v);
            out.append(&mut line);
            i = i + 1;
        }
        out
    }

    /// Marks one complete cycle: the counter increases by one and nothing
    /// else about the session changes.
    pub fn advance_cycle(&mut self)
        requires
            old(self).cycles_completed < u64::MAX,
        ensures
            final(self).cycles_completed == old(self).cycles_completed + 1,
            final(self).buffer == old(self).buffer,
            final(self).capacity == old(self).capacity,
    {
        self.cycles_completed = self.cycles_completed + 1;
    }
}

/// Relies on `rand::RngExt::random_range` over the thread-local generator:
/// a draw from the non-empty range `0 .. JITTER_BOUND_MS` lies in it.
#[verifier::external_body]
fn random_jitter_ms() -> (r: u64)
    ensures
        r < JITTER_BOUND_MS,
{
    rand::rng().random_range(0..JITTER_BOUND_MS)
}

/// The pacing delay before the next cycle: the configured base delay plus a
/// random jitter below `JITTER_BOUND_MS` milliseconds, so even a zero base
/// delay paces the loop.
pub fn cycle_delay_ms(base_delay_ms: u64) -> (d: u64)
    requires
        base_delay_ms + JITTER_BOUND_MS <= u64::MAX,
    ensures
        base_delay_ms <= d < base_delay_ms + JITTER_BOUND_MS,
{
    base_delay_ms + random_jitter_ms()
}

} // verus!
