//! Frame pacing: the control loop's state machine. It ties the capture
//! cadence to a target frame rate, suppresses early wakeups caused by
//! unrelated window events, and turns a close request into a terminal
//! state. The loop's driver performs the actions (capture, render, wait)
//! and reports back; all timing decisions are made here, through the one
//! `next_wakeup` instant the pacer owns.
//!
//! Instants are monotonic clock readings in nanoseconds.

use vstd::prelude::*;

verus! {

/// Nanoseconds in one second.
pub const NANOS_PER_SEC: u32 = 1_000_000_000;

/// The target interval between ticks, in nanoseconds, for a target frame
/// rate, with integer (nanosecond) granularity.
pub fn target_interval_ns(target_fps: u32) -> (r: u32)
    requires
        target_fps >= 1,
    ensures
        r == NANOS_PER_SEC / target_fps,
        r <= NANOS_PER_SEC,
{
    NANOS_PER_SEC / target_fps
}

/// An event delivered to the control loop by its event source.
#[derive(Clone, Copy, Debug, PartialEq, Eq, Structural)]
pub enum LoopEvent {
    /// The event source woke the loop: either the scheduled wake is due or
    /// some unrelated cause woke it early.
    Wakeup,
    /// The user asked to close the window.
    CloseRequested,
    /// Any other window event; it never triggers work.
    Other,
}

/// What the loop's driver must do next.
#[derive(Clone, Copy, Debug, PartialEq, Eq, Structural)]
pub enum LoopAction {
    /// Perform one tick (capture, correct, upload, draw, present), then
    /// report the tick's elapsed time via `Pacer::complete_tick`.
    Tick,
    /// Block until the given instant or until an event arrives.
    WaitUntil(u64),
    /// Stop the loop and release all resources.
    Stop,
    /// Nothing to do; keep the current wait.
    Continue,
}

/// The pacing state machine. `next_wakeup` is the only state carried
/// across loop iterations, and the pacer is its sole owner.
pub struct Pacer {
    /// The target interval between ticks, in nanoseconds.
    pub interval_ns: u32,
    /// The instant before which no tick may start.
    pub next_wakeup: u64,
    /// Set once a close request was seen; no tick happens afterwards.
    pub terminated: bool,
}

/// True exactly when the pacer starts a tick on this event: the loop woke,
/// it has not terminated, and the scheduled wake is due.
pub open spec fn spec_ticks(p: Pacer, event: LoopEvent, now_ns: u64) -> bool {
    &&& !p.terminated
    &&& event is Wakeup
    &&& now_ns >= p.next_wakeup
}

/// The wake instant scheduled after a tick that finished at `now` and took
/// `elapsed` of wall-clock time: the remainder of the target interval,
/// clamped at zero. The cadence is never accelerated to catch up.
pub open spec fn spec_next_wakeup(interval: int, now: int, elapsed: int) -> int {
    if elapsed <= interval {
        now + (interval - elapsed)
    } else {
        now
    }
}

impl Pacer {
    /// A fresh pacer whose first tick is due immediately.
    pub fn new(target_fps: u32, now_ns: u64) -> (p: Pacer)
        requires
            target_fps >= 1,
        ensures
            p.interval_ns == NANOS_PER_SEC / target_fps,
            p.next_wakeup == now_ns,
            !p.terminated,
    {
        Pacer { interval_ns: target_interval_ns(target_fps), next_wakeup: now_ns, terminated: false }
    }

    /// Decide what the loop does for one delivered event at instant
    /// `now_ns`. A wakeup before `next_wakeup` is early: it re-arms the
    /// wait for the same instant and does no work, so events arriving
    /// faster than the target rate never cause extra ticks. A close
    /// request makes the state terminal.
    pub fn step(&mut self, event: LoopEvent, now_ns: u64) -> (a: LoopAction)
        ensures
            final(self).interval_ns == old(self).interval_ns,
            final(self).next_wakeup == old(self).next_wakeup,
            final(self).terminated == (old(self).terminated || event is CloseRequested),
            a is Tick <==> spec_ticks(*old(self), event, now_ns),
            a is Stop <==> (old(self).terminated || event is CloseRequested),
            a is WaitUntil <==> (!old(self).terminated && event is Wakeup && now_ns
                < old(self).next_wakeup),
            a matches LoopAction::WaitUntil(t) ==> t == old(self).next_wakeup,
            a is Continue <==> (!old(self).terminated && event is Other),
    {
        if self.terminated {
            return LoopAction::Stop;
        }
        match event {
            LoopEvent::CloseRequested => {
                self.terminated = true;
                LoopAction::Stop
            },
            LoopEvent::Wakeup => {
                if now_ns < self.next_wakeup {
                    LoopAction::WaitUntil(self.next_wakeup)
                } else {
                    LoopAction::Tick
                }
            },
            LoopEvent::Other => LoopAction::Continue,
        }
    }

    /// Record a finished tick. `now_ns` is the instant the tick's present
    /// completed and `elapsed_ns` its measured wall-clock duration; the
    /// next wake is scheduled `max(interval - elapsed, 0)` after `now_ns`.
    pub fn complete_tick(&mut self, now_ns: u64, elapsed_ns: u64) -> (a: LoopAction)
        requires
            !old(self).terminated,
            now_ns + old(self).interval_ns <= u64::MAX,
        ensures
            final(self).interval_ns == old(self).interval_ns,
            !final(self).terminated,
            final(self).next_wakeup == spec_next_wakeup(
                old(self).interval_ns as int,
                now_ns as int,
                elapsed_ns as int,
            ),
            a == LoopAction::WaitUntil(final(self).next_wakeup),
    {
        if elapsed_ns <= self.interval_ns as u64 {
            self.next_wakeup = now_ns + (self.interval_ns as u64 - elapsed_ns);
        } else {
            self.next_wakeup = now_ns;
        }
        LoopAction::WaitUntil(self.next_wakeup)
    }
}

/// Rate bound between consecutive ticks. A tick starts at `start1`, its
/// work takes `elapsed1`, and its present completes at `finish1` (no
/// earlier than `start1 + elapsed1`). The next wake is then scheduled by
/// `spec_next_wakeup`, and a second tick starts only once that instant is
/// reached. Whatever the tick's duration, the second start is at least one
/// full target interval after the first: the measured interval between
/// consecutive ticks' start times never undercuts the target.
pub proof fn lemma_tick_spacing(interval: int, start1: int, elapsed1: int, finish1: int, start2: int)
    requires
        0 <= interval,
        0 <= elapsed1,
        finish1 >= start1 + elapsed1,
        start2 >= spec_next_wakeup(interval, finish1, elapsed1),
    ensures
        start2 >= start1 + interval,
{
}

/// Early-wakeup suppression. While the scheduled wake is not due, a wakeup
/// never starts a tick, however many such events arrive.
pub proof fn lemma_early_wakeup_suppressed(p: Pacer, event: LoopEvent, now_ns: u64)
    requires
        now_ns < p.next_wakeup,
    ensures
        !spec_ticks(p, event, now_ns),
{
}

/// Terminal state. Once the pacer has terminated, no event at any instant
/// starts a tick.
pub proof fn lemma_no_tick_after_close(p: Pacer)
    requires
        p.terminated,
    ensures
        forall|event: LoopEvent, now_ns: u64| !spec_ticks(p, event, now_ns),
{
}

} // verus!
