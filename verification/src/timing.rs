//! The frame clock: time since start and since the previous frame.
//!
//! Timestamps come from the caller as nanoseconds measured on a monotonic
//! clock, so every derived quantity is exact integer arithmetic.

use vstd::prelude::*;

verus! {

/// Frame timing state over monotonic nanosecond timestamps.
pub struct Timing {
    /// The timestamp taken at creation; immutable afterwards.
    pub start_nanos: u64,
    /// The timestamp of the most recent `update`.
    pub last_frame_nanos: u64,
    /// Nanoseconds between the two most recent `update` calls.
    pub time_delta_nanos: u64,
}

impl Timing {
    /// Well-formedness: the last frame is not before the start.
    pub open spec fn wf(self) -> bool {
        self.start_nanos <= self.last_frame_nanos
    }

    /// A clock anchored at `now`, with an empty first delta.
    pub fn new(now: u64) -> (t: Timing)
        ensures
            t == (Timing { start_nanos: now, last_frame_nanos: now, time_delta_nanos: 0 }),
            t.wf(),
    {
        Timing { start_nanos: now, last_frame_nanos: now, time_delta_nanos: 0 }
    }

    /// Close the current frame at `now`: the delta becomes the time since
    /// the previous frame, and `now` becomes the previous frame.
    pub fn update(&mut self, now: u64)
        requires
            old(self).wf(),
            old(self).last_frame_nanos <= now,
        ensures
            *final(self) == (Timing {
                start_nanos: old(self).start_nanos,
                last_frame_nanos: now,
                time_delta_nanos: (now - old(self).last_frame_nanos) as u64,
            }),
            final(self).wf(),
    {
        self.time_delta_nanos = now - self.last_frame_nanos;
        self.last_frame_nanos = now;
    }

    /// Nanoseconds between `now` and the moment the clock was created.
    pub fn time_since_start(&self, now: u64) -> (r: u64)
        requires
            self.start_nanos <= now,
        ensures
            r == now - self.start_nanos,
    {
        now - self.start_nanos
    }

    /// Nanoseconds between the two most recent `update` calls.
    pub fn time_delta(&self) -> (r: u64)
        ensures
            r == self.time_delta_nanos,
    {
        self.time_delta_nanos
    }

    /// Frames per second derived from the last delta: the number of whole
    /// deltas that fit in one second. A zero delta yields the sentinel 0
    /// rather than a division fault.
    pub fn fps(&self) -> (r: u32)
        ensures
            self.time_delta_nanos == 0 ==> r == 0,
            self.time_delta_nanos > 0 ==> r == 1_000_000_000u64 / self.time_delta_nanos,
    {
        if self.time_delta_nanos == 0 {
            0
        } else {
            (1_000_000_000u64 / self.time_delta_nanos) as u32
        }
    }
}

} // verus!
