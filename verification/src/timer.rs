//! A resettable countdown used for periodic actions, independent of the
//! main clock. All durations are in nanoseconds.

use vstd::prelude::*;

verus! {

/// A countdown from `duration` nanoseconds to zero, optionally looping.
///
/// The timer only counts down while `started` is true, except that a
/// countdown whose remaining time is smaller than the elapsed step snaps to
/// zero and finishes even when stopped. A looping timer auto-resets on the
/// update after the one in which it finished.
pub struct Timer {
    /// The full countdown length, in nanoseconds.
    pub duration: u64,
    /// Nanoseconds still to run; never exceeds `duration`.
    pub remaining: u64,
    /// Whether the countdown is running.
    pub started: bool,
    /// Whether the timer restarts automatically after finishing.
    pub looping: bool,
    /// Whether the countdown has reached zero by snapping.
    pub finished: bool,
}

impl Timer {
    /// Well-formedness: the remaining time never exceeds the full duration.
    pub open spec fn wf(self) -> bool {
        self.remaining <= self.duration
    }

    /// The state after `reset`: a full countdown, not finished, running
    /// exactly when the timer loops.
    pub open spec fn spec_reset(self) -> Timer {
        Timer {
            duration: self.duration,
            remaining: self.duration,
            started: self.looping,
            looping: self.looping,
            finished: false,
        }
    }

    /// The state after `update(time_delta)`: a finished looping timer
    /// resets first; then a countdown smaller than the step snaps to zero
    /// and finishes, and otherwise a running countdown shrinks by the step.
    pub open spec fn spec_update(self, time_delta: u64) -> Timer {
        let t = if self.finished && self.looping {
            self.spec_reset()
        } else {
            self
        };
        if t.remaining < time_delta {
            Timer {
                duration: t.duration,
                remaining: 0,
                started: t.started,
                looping: t.looping,
                finished: true,
            }
        } else if t.started {
            Timer {
                duration: t.duration,
                remaining: (t.remaining - time_delta) as u64,
                started: t.started,
                looping: t.looping,
                finished: t.finished,
            }
        } else {
            t
        }
    }

    /// A fresh timer: full countdown, stopped, not finished.
    pub fn new(duration: u64, looping: bool) -> (t: Timer)
        ensures
            t == (Timer {
                duration,
                remaining: duration,
                started: false,
                looping,
                finished: false,
            }),
            t.wf(),
    {
        Timer { duration, remaining: duration, started: false, looping, finished: false }
    }

    /// Advance the countdown by `time_delta` nanoseconds.
    ///
    /// A looping timer that finished on an earlier update resets before the
    /// step is applied, so it can finish and restart within one call when
    /// its duration is smaller than the step.
    pub fn update(&mut self, time_delta: u64)
        requires
            old(self).wf(),
        ensures
            *final(self) == old(self).spec_update(time_delta),
            final(self).wf(),
    {
        if self.finished() && self.looping {
            self.reset();
        }

        if self.remaining < time_delta {
            self.remaining = 0;
            self.finished = true;
        } else if self.started {
            self.remaining = self.remaining - time_delta;
        }
    }

    /// Restore the full countdown; a looping timer keeps running across
    /// resets while a one-shot timer stops.
    pub fn reset(&mut self)
        requires
            old(self).wf(),
        ensures
            *final(self) == old(self).spec_reset(),
            final(self).wf(),
    {
        self.remaining = self.duration;
        self.finished = false;
        self.started = self.looping;
    }

    /// Begin counting down.
    pub fn start(&mut self)
        ensures
            *final(self) == (Timer {
                duration: old(self).duration,
                remaining: old(self).remaining,
                started: true,
                looping: old(self).looping,
                finished: old(self).finished,
            }),
    {
        self.started = true;
    }

    /// Whether the countdown is running.
    pub fn started(&self) -> (r: bool)
        ensures
            r == self.started,
    {
        self.started
    }

    /// Pause the countdown, preserving the remaining time.
    pub fn stop(&mut self)
        ensures
            *final(self) == (Timer {
                duration: old(self).duration,
                remaining: old(self).remaining,
                started: false,
                looping: old(self).looping,
                finished: old(self).finished,
            }),
    {
        self.started = false;
    }

    /// Whether the countdown has snapped to zero.
    pub fn finished(&self) -> (r: bool)
        ensures
            r == self.finished,
    {
        self.finished
    }

    /// Nanoseconds of the countdown already consumed.
    pub fn elapsed(&self) -> (r: u64)
        requires
            self.wf(),
        ensures
            r == self.duration - self.remaining,
    {
        self.duration - self.remaining
    }

    /// Nanoseconds still to run.
    pub fn remaining(&self) -> (r: u64)
        ensures
            r == self.remaining,
    {
        self.remaining
    }
}

/// A finished one-shot timer stays finished with nothing remaining, no
/// matter how often or by how much it is updated further.
pub proof fn lemma_one_shot_stays_finished(t: Timer, time_delta: u64)
    requires
        t.finished,
        !t.looping,
        t.remaining == 0,
    ensures
        t.spec_update(time_delta).finished,
        t.spec_update(time_delta).remaining == 0,
        !t.spec_update(time_delta).looping,
{
}

/// A looping timer that has finished restores the full countdown on its
/// very next update, before that update's own step is applied: a step no
/// larger than the duration leaves `duration - step` remaining and the
/// timer running; a larger step finishes it again within the same call.
pub proof fn lemma_looping_timer_resets_after_finish(t: Timer, time_delta: u64)
    requires
        t.finished,
        t.looping,
        t.wf(),
    ensures
        time_delta <= t.duration ==> t.spec_update(time_delta) == (Timer {
            duration: t.duration,
            remaining: (t.duration - time_delta) as u64,
            started: true,
            looping: true,
            finished: false,
        }),
        time_delta > t.duration ==> t.spec_update(time_delta) == (Timer {
            duration: t.duration,
            remaining: 0,
            started: true,
            looping: true,
            finished: true,
        }),
{
}

} // verus!
