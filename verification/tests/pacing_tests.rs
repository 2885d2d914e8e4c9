use screen_splitter::frame::Geometry;
use screen_splitter::pacer::{target_interval_ns, LoopAction, LoopEvent, Pacer};
use screen_splitter::session::Session;

#[test]
fn target_interval_for_common_rates() {
    assert_eq!(target_interval_ns(30), 33_333_333);
    assert_eq!(target_interval_ns(60), 16_666_666);
    assert_eq!(target_interval_ns(1), 1_000_000_000);
}

#[test]
fn tick_taking_10ms_at_30fps_schedules_wake_23ms_later() {
    // A tick of 10ms wall-clock at 30 frames per second leaves
    // 1/30 s - 10 ms of the interval: the next wake is about 23.3 ms out.
    let mut p = Pacer::new(30, 0);
    assert!(matches!(p.step(LoopEvent::Wakeup, 0), LoopAction::Tick));
    let now: u64 = 10_000_000;
    let a = p.complete_tick(now, 10_000_000);
    assert_eq!(p.next_wakeup, now + 23_333_333);
    assert_eq!(a, LoopAction::WaitUntil(now + 23_333_333));
}

#[test]
fn early_wakeup_rearms_the_same_instant() {
    let mut p = Pacer::new(30, 0);
    assert!(matches!(p.step(LoopEvent::Wakeup, 0), LoopAction::Tick));
    p.complete_tick(5_000_000, 5_000_000);
    let scheduled = p.next_wakeup;
    // Events arriving before the scheduled wake never cause a tick, and
    // the wait is re-armed for the unchanged instant.
    assert_eq!(p.step(LoopEvent::Wakeup, scheduled - 1), LoopAction::WaitUntil(scheduled));
    assert_eq!(p.step(LoopEvent::Wakeup, scheduled - 1_000_000), LoopAction::WaitUntil(scheduled));
    assert_eq!(p.next_wakeup, scheduled);
    // Once the instant is reached, the tick runs.
    assert!(matches!(p.step(LoopEvent::Wakeup, scheduled), LoopAction::Tick));
}

#[test]
fn overlong_tick_schedules_immediate_wake() {
    let mut p = Pacer::new(30, 0);
    assert!(matches!(p.step(LoopEvent::Wakeup, 0), LoopAction::Tick));
    // The tick took longer than the whole interval: the next wake is now,
    // with no attempt to catch up by accelerating the cadence.
    let finish: u64 = 50_000_000;
    p.complete_tick(finish, 50_000_000);
    assert_eq!(p.next_wakeup, finish);
}

#[test]
fn consecutive_tick_starts_are_an_interval_apart() {
    let mut p = Pacer::new(100, 0);
    let interval: u64 = target_interval_ns(100) as u64; // 10ms
    let start1: u64 = 0;
    assert!(matches!(p.step(LoopEvent::Wakeup, start1), LoopAction::Tick));
    let elapsed: u64 = 4_000_000;
    p.complete_tick(start1 + elapsed, elapsed);
    // No wakeup before next_wakeup ticks; the first instant that can tick
    // is a full interval after the previous start.
    assert!(p.next_wakeup >= start1 + interval);
    assert!(matches!(p.step(LoopEvent::Wakeup, p.next_wakeup - 1), LoopAction::WaitUntil(_)));
    let start2 = p.next_wakeup;
    assert!(start2 - start1 >= interval);
    assert!(matches!(p.step(LoopEvent::Wakeup, start2), LoopAction::Tick));
}

#[test]
fn other_window_events_do_nothing() {
    let mut p = Pacer::new(30, 100);
    assert_eq!(p.step(LoopEvent::Other, 0), LoopAction::Continue);
    assert_eq!(p.next_wakeup, 100);
    assert!(!p.terminated);
}

#[test]
fn close_request_while_idle_waiting_terminates() {
    let mut p = Pacer::new(30, 0);
    assert!(matches!(p.step(LoopEvent::Wakeup, 0), LoopAction::Tick));
    p.complete_tick(1_000_000, 1_000_000);
    // The loop is idle-waiting for the next wake; a close request makes
    // the state terminal at once.
    assert_eq!(p.step(LoopEvent::CloseRequested, 2_000_000), LoopAction::Stop);
    assert!(p.terminated);
    // No further event ever ticks again.
    assert_eq!(p.step(LoopEvent::Wakeup, u64::MAX), LoopAction::Stop);
    assert_eq!(p.step(LoopEvent::Other, u64::MAX), LoopAction::Stop);
    assert!(p.terminated);
}

#[test]
fn session_keeps_geometry_through_the_loop() {
    let geo = Geometry { width: 1920, height: 1080 };
    let mut s = Session::new(geo, 30, 0);
    assert!(matches!(s.step(LoopEvent::Wakeup, 0), LoopAction::Tick));
    s.complete_tick(3_000_000, 3_000_000);
    s.step(LoopEvent::Other, 4_000_000);
    s.step(LoopEvent::Wakeup, 5_000_000);
    s.step(LoopEvent::CloseRequested, 6_000_000);
    assert_eq!(s.geometry, geo);
}
