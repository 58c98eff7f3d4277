//! Waits of the run loop, as decisions.
//!
//! The driver that owns the renderer alternates two things: it blocks on the
//! wake signal and pumps the renderer once, and it asks one of the waits here
//! whether to go on. A wait never reads a clock and never blocks: the driver
//! hands it the time, in nanoseconds on a clock of its own that never runs
//! backwards, and what it observed of the page.
//!
//! Deadlines are kept in 128 bits, so that a start time plus any timeout is
//! exact: a timeout too long to ever pass simply never passes.

use vstd::prelude::*;
use crate::types::{NANOS_PER_MILLI, NANOS_PER_SEC};

verus! {

/// What the driver does after a poll.
#[derive(Debug, Clone, Copy, PartialEq, Eq, Structural)]
pub enum Step {
    /// Block on the wake signal for one slice, pump the renderer once, clear
    /// the signal, then poll again.
    Pump,
    /// Stop. `true` if what was waited for happened, `false` on timeout.
    Finished(bool),
}

/// `secs` seconds in nanoseconds.
pub open spec fn secs_to_nanos(secs: u64) -> int {
    secs * NANOS_PER_SEC
}

/// `millis` milliseconds in nanoseconds.
pub open spec fn millis_to_nanos(millis: u64) -> int {
    millis * NANOS_PER_MILLI
}

/// `count` units of `unit` nanoseconds each, exactly.
fn scale(count: u64, unit: u64) -> (nanos: u128)
    ensures
        nanos == count * unit,
        nanos <= 0xFFFF_FFFF_FFFF_FFFF * 0xFFFF_FFFF_FFFF_FFFF,
{
    assert(count * unit <= 0xFFFF_FFFF_FFFF_FFFF * 0xFFFF_FFFF_FFFF_FFFF) by (nonlinear_arith)
        requires
            0 <= count <= 0xFFFF_FFFF_FFFF_FFFF,
            0 <= unit <= 0xFFFF_FFFF_FFFF_FFFF,
    ;
    count as u128 * (unit as u128)
}

/// A point on the driver's clock, in nanoseconds.
#[derive(Debug, Clone, Copy, PartialEq, Eq, Structural)]
pub struct Deadline {
    pub at: u128,
}

impl Deadline {
    /// The deadline `nanos` nanoseconds after `now`.
    pub fn after_nanos(now: u64, nanos: u64) -> (deadline: Deadline)
        ensures
            deadline.at == now + nanos,
    {
        Deadline { at: now as u128 + nanos as u128 }
    }

    /// The deadline `millis` milliseconds after `now`.
    pub fn after_millis(now: u64, millis: u64) -> (deadline: Deadline)
        ensures
            deadline.at == now + millis_to_nanos(millis),
    {
        let span: u128 = scale(millis, NANOS_PER_MILLI);
        Deadline { at: now as u128 + span }
    }

    /// The deadline `secs` seconds after `now`.
    pub fn after_secs(now: u64, secs: u64) -> (deadline: Deadline)
        ensures
            deadline.at == now + secs_to_nanos(secs),
    {
        let span: u128 = scale(secs, NANOS_PER_SEC);
        Deadline { at: now as u128 + span }
    }

    /// Whether the deadline has been reached at `now`.
    pub fn reached(&self, now: u64) -> (reached: bool)
        ensures
            reached == (now >= self.at),
    {
        now as u128 >= self.at
    }
}

/// Waits until a condition holds or a timeout passes.
#[derive(Debug, Clone, Copy)]
pub struct SpinUntil {
    pub deadline: Deadline,
}

impl SpinUntil {
    /// Begins a wait of at most `timeout_secs` seconds.
    pub fn start(now: u64, timeout_secs: u64) -> (wait: SpinUntil)
        ensures
            wait.deadline.at == now + secs_to_nanos(timeout_secs),
    {
        SpinUntil { deadline: Deadline::after_secs(now, timeout_secs) }
    }

    /// The step for a poll at `now`, where `done` says whether the condition
    /// holds.
    pub open spec fn step(self, done: bool, now: u64) -> Step {
        if done {
            Step::Finished(true)
        } else if now >= self.deadline.at {
            Step::Finished(false)
        } else {
            Step::Pump
        }
    }

    /// Decides the next step. The condition is looked at first: a wait whose
    /// condition holds succeeds even past its deadline.
    pub fn poll(&self, done: bool, now: u64) -> (step: Step)
        ensures
            step == self.step(done, now),
    {
        if done {
            Step::Finished(true)
        } else if self.deadline.reached(now) {
            Step::Finished(false)
        } else {
            Step::Pump
        }
    }
}

/// Keeps the renderer pumped for a fixed time.
#[derive(Debug, Clone, Copy)]
pub struct SpinFor {
    pub deadline: Deadline,
}

impl SpinFor {
    /// Begins a wait of `nanos` nanoseconds.
    pub fn start(now: u64, nanos: u64) -> (wait: SpinFor)
        ensures
            wait.deadline.at == now + nanos,
    {
        SpinFor { deadline: Deadline::after_nanos(now, nanos) }
    }

    /// Pump while the time has not passed; then finish.
    pub fn poll(&self, now: u64) -> (step: Step)
        ensures
            step == if now < self.deadline.at {
                Step::Pump
            } else {
                Step::Finished(true)
            },
    {
        if self.deadline.reached(now) {
            Step::Finished(true)
        } else {
            Step::Pump
        }
    }
}

/// Waits for the frame counter of a page to move.
#[derive(Debug, Clone, Copy)]
pub struct FrameWait {
    /// The frame counter when the wait began.
    pub start_count: u64,
    pub deadline: Deadline,
}

impl FrameWait {
    /// Begins a wait of at most `timeout_nanos` for a frame after
    /// `frame_count`.
    pub fn start(now: u64, frame_count: u64, timeout_nanos: u64) -> (wait: FrameWait)
        ensures
            wait.start_count == frame_count,
            wait.deadline.at == now + timeout_nanos,
    {
        FrameWait { start_count: frame_count, deadline: Deadline::after_nanos(now, timeout_nanos) }
    }

    /// Begins a wait of at most `timeout_secs` seconds for a frame after
    /// `frame_count`.
    pub fn start_secs(now: u64, frame_count: u64, timeout_secs: u64) -> (wait: FrameWait)
        ensures
            wait.start_count == frame_count,
            wait.deadline.at == now + secs_to_nanos(timeout_secs),
    {
        FrameWait { start_count: frame_count, deadline: Deadline::after_secs(now, timeout_secs) }
    }

    /// The step for a poll at `now` with the page's frame counter at
    /// `frame_count`.
    pub open spec fn step(self, frame_count: u64, now: u64) -> Step {
        if frame_count != self.start_count {
            Step::Finished(true)
        } else if now >= self.deadline.at {
            Step::Finished(false)
        } else {
            Step::Pump
        }
    }

    /// Decides the next step.
    pub fn poll(&self, frame_count: u64, now: u64) -> (step: Step)
        ensures
            step == self.step(frame_count, now),
    {
        if frame_count != self.start_count {
            Step::Finished(true)
        } else if self.deadline.reached(now) {
            Step::Finished(false)
        } else {
            Step::Pump
        }
    }
}

/// Waits until the page has painted no frame for a while.
///
/// The driver pumps once before the first `observe` and once before each
/// later one, for as long as `observe` answers `false`.
#[derive(Debug, Clone, Copy)]
pub struct IdleWait {
    /// The wait ends here whatever the page does.
    pub max_deadline: Deadline,
    /// The wait ends here unless a frame is painted before.
    pub idle_deadline: Deadline,
    /// The frame counter at the last observation.
    pub last: u64,
    /// The quiet time asked for, in nanoseconds.
    pub idle_nanos: u64,
}

impl IdleWait {
    /// Begins a wait for `idle_nanos` without a frame, of at most
    /// `max_secs` seconds in all.
    pub fn start(now: u64, frame_count: u64, idle_nanos: u64, max_secs: u64) -> (wait: IdleWait)
        ensures
            wait.max_deadline.at == now + secs_to_nanos(max_secs),
            wait.idle_deadline.at == now + idle_nanos,
            wait.last == frame_count,
            wait.idle_nanos == idle_nanos,
    {
        IdleWait {
            max_deadline: Deadline::after_secs(now, max_secs),
            idle_deadline: Deadline::after_nanos(now, idle_nanos),
            last: frame_count,
            idle_nanos,
        }
    }

    /// The wait after an observation at `now` of the frame counter at
    /// `frame_count`: a new frame moves the idle deadline to `now` plus the
    /// quiet time.
    pub open spec fn observed(self, frame_count: u64, now: u64) -> IdleWait {
        IdleWait {
            max_deadline: self.max_deadline,
            idle_deadline: if frame_count != self.last {
                Deadline { at: (now + self.idle_nanos) as u128 }
            } else {
                self.idle_deadline
            },
            last: frame_count,
            idle_nanos: self.idle_nanos,
        }
    }

    /// Whether the wait is over at `now`.
    pub open spec fn over(self, now: u64) -> bool {
        now >= self.idle_deadline.at || now >= self.max_deadline.at
    }

    /// Takes one observation, made after a pump. Answers whether the wait
    /// is over.
    pub fn observe(&mut self, frame_count: u64, now: u64) -> (finished: bool)
        ensures
            *final(self) == old(self).observed(frame_count, now),
            finished == final(self).over(now),
    {
        if frame_count != self.last {
            self.last = frame_count;
            self.idle_deadline = Deadline::after_nanos(now, self.idle_nanos);
        }
        self.idle_deadline.reached(now) || self.max_deadline.reached(now)
    }
}

/// Waits until the page has made no network request for a while.
///
/// Driven as `IdleWait` is. What is watched is the time of the last request
/// seen, which is `None` until there is one.
#[derive(Debug, Clone, Copy)]
pub struct NetworkIdleWait {
    pub max_deadline: Deadline,
    pub idle_deadline: Deadline,
    /// The time of the last request at the last observation.
    pub last_seen: Option<u64>,
    /// The quiet time asked for, in milliseconds.
    pub idle_millis: u64,
}

impl NetworkIdleWait {
    /// Begins a wait for `idle_millis` milliseconds without a request, of at
    /// most `max_secs` seconds in all.
    pub fn start(now: u64, last_request_time: Option<u64>, idle_millis: u64, max_secs: u64) -> (wait:
        NetworkIdleWait)
        ensures
            wait.max_deadline.at == now + secs_to_nanos(max_secs),
            wait.idle_deadline.at == now + millis_to_nanos(idle_millis),
            wait.last_seen == last_request_time,
            wait.idle_millis == idle_millis,
    {
        NetworkIdleWait {
            max_deadline: Deadline::after_secs(now, max_secs),
            idle_deadline: Deadline::after_millis(now, idle_millis),
            last_seen: last_request_time,
            idle_millis,
        }
    }

    /// The wait after an observation at `now`: a new request moves the idle
    /// deadline to `now` plus the quiet time.
    pub open spec fn observed(self, last_request_time: Option<u64>, now: u64) -> NetworkIdleWait {
        NetworkIdleWait {
            max_deadline: self.max_deadline,
            idle_deadline: if last_request_time != self.last_seen {
                Deadline { at: (now + millis_to_nanos(self.idle_millis)) as u128 }
            } else {
                self.idle_deadline
            },
            last_seen: last_request_time,
            idle_millis: self.idle_millis,
        }
    }

    /// The step at `now`: settled once the idle deadline is reached, which is
    /// looked at first; timed out once the overall deadline is.
    pub open spec fn step(self, now: u64) -> Step {
        if now >= self.idle_deadline.at {
            Step::Finished(true)
        } else if now >= self.max_deadline.at {
            Step::Finished(false)
        } else {
            Step::Pump
        }
    }

    /// Takes one observation, made after a pump, and decides the next step.
    pub fn observe(&mut self, last_request_time: Option<u64>, now: u64) -> (step: Step)
        ensures
            *final(self) == old(self).observed(last_request_time, now),
            step == final(self).step(now),
    {
        let changed = match (last_request_time, self.last_seen) {
            (Some(a), Some(b)) => a != b,
            (None, None) => false,
            _ => true,
        };
        if changed {
            self.last_seen = last_request_time;
            self.idle_deadline = Deadline::after_millis(now, self.idle_millis);
        }
        if self.idle_deadline.reached(now) {
            Step::Finished(true)
        } else if self.max_deadline.reached(now) {
            Step::Finished(false)
        } else {
            Step::Pump
        }
    }
}

/// A wait on a condition reports a timeout only at or after its deadline,
/// never while the condition holds, and never asks for a pump once the
/// deadline is reached.
pub proof fn lemma_spin_until_times_out_on_time(start: u64, timeout_secs: u64, done: bool, now: u64)
    ensures
        ({
            let wait = SpinUntil { deadline: Deadline { at: (start + secs_to_nanos(timeout_secs)) as u128 } };
            &&& wait.step(done, now) == Step::Finished(false) ==> !done && now - start
                >= secs_to_nanos(timeout_secs)
            &&& wait.step(done, now) == Step::Pump ==> now - start < secs_to_nanos(timeout_secs)
            &&& done ==> wait.step(done, now) == Step::Finished(true)
        }),
{
}

/// An idle wait that sees no new frame ends exactly when the earlier of its
/// two deadlines is reached; one that sees a new frame before the overall
/// deadline, with a quiet time above zero, goes on.
pub proof fn lemma_idle_wait_rolls(wait: IdleWait, frame_count: u64, now: u64)
    ensures
        frame_count == wait.last ==> wait.observed(frame_count, now) == wait,
        frame_count == wait.last ==> (wait.observed(frame_count, now).over(now) <==> now
            >= wait.idle_deadline.at || now >= wait.max_deadline.at),
        frame_count != wait.last && wait.idle_nanos > 0 && now < wait.max_deadline.at
            ==> !wait.observed(frame_count, now).over(now),
        now >= wait.max_deadline.at ==> wait.observed(frame_count, now).over(now),
        wait.observed(frame_count, now).max_deadline == wait.max_deadline,
{
}

} // verus!
