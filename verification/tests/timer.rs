use grass::timer::Timer;
use grass::timing::Timing;

const MS: u64 = 1_000_000;

#[test]
fn fresh_timer_is_stopped_and_full() {
    let t = Timer::new(1000 * MS, false);
    assert!(!t.started());
    assert!(!t.finished());
    assert_eq!(t.remaining(), 1000 * MS);
    assert_eq!(t.elapsed(), 0);
}

#[test]
fn stopped_timer_does_not_count_down() {
    let mut t = Timer::new(1000 * MS, false);
    t.update(100 * MS);
    t.update(100 * MS);
    assert_eq!(t.remaining(), 1000 * MS);
    assert!(!t.finished());
}

#[test]
fn one_shot_timer_runs_out_after_ten_steps() {
    let mut t = Timer::new(1000 * MS, false);
    t.start();
    for step in 1..=10u64 {
        t.update(100 * MS);
        assert_eq!(t.remaining(), (1000 - 100 * step) * MS);
    }
    // The countdown is exhausted on the tenth step; the finished flag is
    // raised by the update that finds the countdown smaller than its step.
    assert_eq!(t.remaining(), 0);
    assert!(!t.finished());
    t.update(100 * MS);
    assert!(t.finished());
    assert_eq!(t.remaining(), 0);
    // Not looping: it stays finished with nothing remaining.
    for _ in 0..5 {
        t.update(100 * MS);
        assert!(t.finished());
        assert_eq!(t.remaining(), 0);
    }
    assert_eq!(t.elapsed(), 1000 * MS);
}

#[test]
fn looping_timer_resets_to_full_after_finishing() {
    let mut t = Timer::new(1000 * MS, true);
    t.start();
    for _ in 0..10 {
        t.update(100 * MS);
    }
    assert_eq!(t.remaining(), 0);
    t.update(100 * MS);
    assert!(t.finished());
    // The update after the finishing one restores the full countdown
    // before applying its own step.
    t.update(100 * MS);
    assert!(!t.finished());
    assert!(t.started());
    assert_eq!(t.remaining(), 900 * MS);
}

#[test]
fn countdown_smaller_than_the_step_snaps_to_zero() {
    let mut t = Timer::new(50 * MS, false);
    t.start();
    t.update(100 * MS);
    assert!(t.finished());
    assert_eq!(t.remaining(), 0);
}

#[test]
fn snap_happens_even_when_stopped() {
    let mut t = Timer::new(50 * MS, false);
    t.update(100 * MS);
    assert!(t.finished());
    assert_eq!(t.remaining(), 0);
    assert!(!t.started());
}

#[test]
fn stop_preserves_the_remaining_time() {
    let mut t = Timer::new(1000 * MS, false);
    t.start();
    t.update(300 * MS);
    t.stop();
    assert!(!t.started());
    t.update(300 * MS);
    assert_eq!(t.remaining(), 700 * MS);
    t.start();
    t.update(300 * MS);
    assert_eq!(t.remaining(), 400 * MS);
}

#[test]
fn reset_restores_the_full_countdown() {
    let mut t = Timer::new(1000 * MS, false);
    t.start();
    t.update(400 * MS);
    t.reset();
    assert_eq!(t.remaining(), 1000 * MS);
    assert!(!t.finished());
    // A one-shot timer stops across a reset; a looping one keeps running.
    assert!(!t.started());
    let mut looping = Timer::new(1000 * MS, true);
    looping.start();
    looping.update(400 * MS);
    looping.reset();
    assert!(looping.started());
}

#[test]
fn looping_timer_can_finish_and_restart_within_one_update() {
    let mut t = Timer::new(10 * MS, true);
    t.start();
    t.update(100 * MS);
    assert!(t.finished());
    // The auto-reset happens first, and the same update then finds the
    // fresh countdown still smaller than the step: finished again.
    t.update(100 * MS);
    assert!(t.finished());
    assert_eq!(t.remaining(), 0);
}

#[test]
fn clock_measures_deltas_and_time_since_start() {
    let mut clock = Timing::new(5_000);
    assert_eq!(clock.time_delta(), 0);
    clock.update(5_000 + 16 * MS);
    assert_eq!(clock.time_delta(), 16 * MS);
    assert_eq!(clock.time_since_start(5_000 + 20 * MS), 20 * MS);
    clock.update(5_000 + 20 * MS);
    assert_eq!(clock.time_delta(), 4 * MS);
}

#[test]
fn fps_is_the_whole_deltas_per_second() {
    let mut clock = Timing::new(0);
    assert_eq!(clock.fps(), 0);
    clock.update(16 * MS);
    assert_eq!(clock.fps(), 62);
    clock.update(16 * MS + 10 * MS);
    assert_eq!(clock.fps(), 100);
    clock.update(16 * MS + 10 * MS + 1_000 * MS);
    assert_eq!(clock.fps(), 1);
}

#[test]
fn zero_delta_yields_the_fps_sentinel() {
    let mut clock = Timing::new(77);
    clock.update(77);
    assert_eq!(clock.time_delta(), 0);
    assert_eq!(clock.fps(), 0);
}
