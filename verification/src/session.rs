//! A whole mirroring session: the geometry fixed at startup together with
//! the pacing state machine. The geometry never changes once the session
//! exists — no method touches it, and the session-run lemma shows it is
//! the same after any sequence of loop steps.

use vstd::prelude::*;
use crate::frame::Geometry;
use crate::pacer::LoopAction;
use crate::pacer::LoopEvent;
use crate::pacer::Pacer;
use crate::pacer::NANOS_PER_SEC;
use crate::pacer::spec_next_wakeup;
use crate::pacer::spec_ticks;

verus! {

/// The state a session carries across loop iterations.
pub struct Session {
    /// Capture, window and texture size, read once at startup.
    pub geometry: Geometry,
    /// The pacing state machine.
    pub pacer: Pacer,
}

/// One observed loop iteration: the event and the instants the spec
/// transition depends on. `now_ns` is when the event was handled,
/// `finish_ns` when a tick's present completed, and `elapsed_ns` the
/// tick's measured duration; the latter two matter only on a tick.
pub struct StepRecord {
    pub event: LoopEvent,
    pub now_ns: u64,
    pub finish_ns: u64,
    pub elapsed_ns: u64,
}

/// The session after one loop iteration: a close request terminates the
/// pacer; a due wakeup runs a tick and reschedules the next wake; any
/// other event changes nothing. The geometry is carried through intact.
pub open spec fn spec_session_step(s: Session, r: StepRecord) -> Session {
    let terminated = s.pacer.terminated || r.event is CloseRequested;
    let next_wakeup = if spec_ticks(s.pacer, r.event, r.now_ns) {
        spec_next_wakeup(s.pacer.interval_ns as int, r.finish_ns as int, r.elapsed_ns as int) as u64
    } else {
        s.pacer.next_wakeup
    };
    Session {
        geometry: s.geometry,
        pacer: Pacer { interval_ns: s.pacer.interval_ns, next_wakeup, terminated },
    }
}

/// The session after a sequence of loop iterations.
pub open spec fn spec_session_run(s: Session, steps: Seq<StepRecord>) -> Session
    decreases steps.len(),
{
    if steps.len() == 0 {
        s
    } else {
        spec_session_run(spec_session_step(s, steps[0]), steps.drop_first())
    }
}

/// No silent resize: after any sequence of loop iterations the session's
/// geometry — the size of every texture upload and draw — is exactly the
/// geometry captured at startup. The target interval is fixed too.
pub proof fn lemma_geometry_fixed(s: Session, steps: Seq<StepRecord>)
    ensures
        spec_session_run(s, steps).geometry == s.geometry,
        spec_session_run(s, steps).pacer.interval_ns == s.pacer.interval_ns,
    decreases steps.len(),
{
    if steps.len() > 0 {
        lemma_geometry_fixed(spec_session_step(s, steps[0]), steps.drop_first());
    }
}

/// The pacer state when step `k` of a run is about to be handled.
pub open spec fn spec_pacer_at(s: Session, steps: Seq<StepRecord>, k: int) -> Pacer {
    spec_session_run(s, steps.subrange(0, k)).pacer
}

/// True when step `k` of a run performs a tick.
pub open spec fn spec_ticks_at(s: Session, steps: Seq<StepRecord>, k: int) -> bool {
    spec_ticks(spec_pacer_at(s, steps, k), steps[k].event, steps[k].now_ns)
}

/// A step record is consistently measured: the tick's present completes
/// no earlier than its measured duration after its start, and scheduling
/// one interval past the finish stays on the clock.
pub open spec fn spec_measured(r: StepRecord, interval: int) -> bool {
    &&& r.finish_ns >= r.now_ns + r.elapsed_ns
    &&& r.finish_ns + interval <= u64::MAX
}

/// Running one more step is stepping the state the run reached.
pub proof fn lemma_run_push(s: Session, steps: Seq<StepRecord>, r: StepRecord)
    ensures
        spec_session_run(s, steps.push(r)) == spec_session_step(spec_session_run(s, steps), r),
    decreases steps.len(),
{
    let extended = steps.push(r);
    assert(extended.len() == steps.len() + 1);
    if steps.len() == 0 {
        assert(extended[0] == r);
        assert(extended.drop_first() =~= steps);
        assert(spec_session_run(s, extended) == spec_session_run(
            spec_session_step(s, r),
            extended.drop_first(),
        ));
    } else {
        let tail = steps.drop_first();
        assert(extended[0] == steps[0]);
        assert(extended.drop_first() =~= tail.push(r));
        lemma_run_push(spec_session_step(s, steps[0]), tail, r);
        assert(spec_session_run(s, extended) == spec_session_run(
            spec_session_step(s, steps[0]),
            extended.drop_first(),
        ));
        assert(spec_session_run(s, steps) == spec_session_run(spec_session_step(s, steps[0]), tail));
    }
}

/// After a tick at step `i`, as long as no later step ticks, the
/// scheduled wake stays put, at least one target interval after the
/// tick's start.
pub proof fn lemma_wakeup_after_tick(s: Session, steps: Seq<StepRecord>, i: int, k: int)
    requires
        0 <= i < k <= steps.len(),
        spec_ticks_at(s, steps, i),
        spec_measured(steps[i], s.pacer.interval_ns as int),
        forall|m: int| i < m < k ==> !spec_ticks_at(s, steps, m),
    ensures
        spec_pacer_at(s, steps, k).next_wakeup >= steps[i].now_ns + s.pacer.interval_ns,
    decreases k - i,
{
    lemma_geometry_fixed(s, steps.subrange(0, i));
    let interval = s.pacer.interval_ns as int;
    let r = steps[i];
    if k == i + 1 {
        assert(steps.subrange(0, k) =~= steps.subrange(0, i).push(r));
        lemma_run_push(s, steps.subrange(0, i), r);
        let scheduled = spec_next_wakeup(interval, r.finish_ns as int, r.elapsed_ns as int);
        assert(0 <= scheduled <= u64::MAX);
        crate::pacer::lemma_tick_spacing(
            interval,
            r.now_ns as int,
            r.elapsed_ns as int,
            r.finish_ns as int,
            scheduled,
        );
    } else {
        lemma_wakeup_after_tick(s, steps, i, k - 1);
        assert(steps.subrange(0, k) =~= steps.subrange(0, k - 1).push(steps[k - 1]));
        lemma_run_push(s, steps.subrange(0, k - 1), steps[k - 1]);
        assert(!spec_ticks_at(s, steps, k - 1));
    }
}

/// Rate bound over a whole session run: a tick at step `i`, the next tick
/// at step `j`, none between — then the second tick starts at least one
/// full target interval after the first. Ticks never exceed the target
/// rate, however many events the run delivers in between.
pub proof fn lemma_session_tick_spacing(s: Session, steps: Seq<StepRecord>, i: int, j: int)
    requires
        0 <= i < j < steps.len(),
        spec_ticks_at(s, steps, i),
        spec_ticks_at(s, steps, j),
        spec_measured(steps[i], s.pacer.interval_ns as int),
        forall|m: int| i < m < j ==> !spec_ticks_at(s, steps, m),
    ensures
        steps[j].now_ns >= steps[i].now_ns + s.pacer.interval_ns,
{
    lemma_wakeup_after_tick(s, steps, i, j);
}

impl Session {
    /// A fresh session over the startup geometry, whose first tick is due
    /// immediately.
    pub fn new(geometry: Geometry, target_fps: u32, now_ns: u64) -> (s: Session)
        requires
            target_fps >= 1,
        ensures
            s.geometry == geometry,
            s.pacer.interval_ns == NANOS_PER_SEC / target_fps,
            s.pacer.next_wakeup == now_ns,
            !s.pacer.terminated,
    {
        Session { geometry, pacer: Pacer::new(target_fps, now_ns) }
    }

    /// Decide what the loop does for one event; see `Pacer::step`. The
    /// geometry is untouched.
    pub fn step(&mut self, event: LoopEvent, now_ns: u64) -> (a: LoopAction)
        ensures
            final(self).geometry == old(self).geometry,
            final(self).pacer.interval_ns == old(self).pacer.interval_ns,
            final(self).pacer.next_wakeup == old(self).pacer.next_wakeup,
            final(self).pacer.terminated == (old(self).pacer.terminated
                || event is CloseRequested),
            a is Tick <==> spec_ticks(old(self).pacer, event, now_ns),
            a is Stop <==> (old(self).pacer.terminated || event is CloseRequested),
            a is WaitUntil <==> (!old(self).pacer.terminated && event is Wakeup && now_ns
                < old(self).pacer.next_wakeup),
            a matches LoopAction::WaitUntil(t) ==> t == old(self).pacer.next_wakeup,
            a is Continue <==> (!old(self).pacer.terminated && event is Other),
    {
        self.pacer.step(event, now_ns)
    }

    /// Record a finished tick; see `Pacer::complete_tick`. The geometry is
    /// untouched.
    pub fn complete_tick(&mut self, now_ns: u64, elapsed_ns: u64) -> (a: LoopAction)
        requires
            !old(self).pacer.terminated,
            now_ns + old(self).pacer.interval_ns <= u64::MAX,
        ensures
            final(self).geometry == old(self).geometry,
            final(self).pacer.interval_ns == old(self).pacer.interval_ns,
            !final(self).pacer.terminated,
            final(self).pacer.next_wakeup == spec_next_wakeup(
                old(self).pacer.interval_ns as int,
                now_ns as int,
                elapsed_ns as int,
            ),
            a == LoopAction::WaitUntil(final(self).pacer.next_wakeup),
    {
        self.pacer.complete_tick(now_ns, elapsed_ns)
    }
}

} // verus!
