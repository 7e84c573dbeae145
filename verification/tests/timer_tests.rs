use chess_clock::timer::Timer;

#[test]
fn new_timer_is_stopped_with_full_remaining() {
    let t = Timer::new(300_000, 200);
    assert_eq!(t.remaining(), 300_000);
    assert!(!t.is_running);
    assert!(!t.is_expired());
}

#[test]
fn zero_duration_timer_is_expired_at_birth() {
    let t = Timer::new(0, 200);
    assert!(t.is_expired());
}

#[test]
fn tick_does_nothing_while_stopped() {
    let mut t = Timer::new(1_000, 200);
    assert!(!t.tick());
    assert_eq!(t.remaining(), 1_000);
}

#[test]
fn run_then_ceil_ticks_expires() {
    // duration 500 ms, interval 200 ms: ceil(500 / 200) = 3 ticks reach zero
    let mut t = Timer::new(500, 200);
    t.run();
    assert!(t.is_running);
    t.tick();
    assert_eq!(t.remaining(), 300);
    t.tick();
    assert_eq!(t.remaining(), 100);
    t.tick();
    assert_eq!(t.remaining(), 0);
    assert!(t.is_expired());
}

#[test]
fn tick_never_goes_below_zero() {
    let mut t = Timer::new(100, 200);
    t.run();
    t.tick();
    assert_eq!(t.remaining(), 0);
}

#[test]
fn tick_reports_second_boundary_crossings_only() {
    let mut t = Timer::new(1_400, 200);
    t.run();
    // 1400 -> 1200 -> 1000 stay within the same displayed second
    assert!(!t.tick());
    assert!(!t.tick());
    // 1000 % 1000 == 0 < 200: crossing into 0:00 territory of that second
    assert!(t.tick());
    assert_eq!(t.remaining(), 800);
}

#[test]
fn expired_running_timer_gives_one_final_notification() {
    let mut t = Timer::new(200, 200);
    t.run();
    // 200 % 1000 == 200 is not below the interval: no boundary reported yet
    assert!(!t.tick());
    assert_eq!(t.remaining(), 0);
    assert!(t.is_running);
    // the tick that finds it expired halts it and still reports a change
    assert!(t.tick());
    assert!(!t.is_running);
    // after that, ticks are silent
    assert!(!t.tick());
}

#[test]
fn run_has_no_effect_on_expired_timer() {
    let mut t = Timer::new(0, 200);
    t.run();
    assert!(!t.is_running);
}

#[test]
fn increment_adds_even_while_running() {
    let mut t = Timer::new(1_000, 200);
    t.run();
    t.increment(2_500);
    assert_eq!(t.remaining(), 3_500);
    assert!(t.is_running);
}

#[test]
fn increment_saturates_at_the_representable_maximum() {
    let mut t = Timer::new(u32::MAX - 10, 200);
    t.increment(100);
    assert_eq!(t.remaining(), u32::MAX);
}

#[test]
fn reset_restores_configured_duration_and_halts() {
    let mut t = Timer::new(2_000, 200);
    t.run();
    t.tick();
    t.increment(10_000);
    t.reset();
    assert!(!t.is_running);
    assert_eq!(t.remaining(), 2_000);
}

#[test]
fn halt_is_idempotent() {
    let mut t = Timer::new(2_000, 200);
    t.run();
    t.halt();
    assert!(!t.is_running);
    t.halt();
    assert!(!t.is_running);
}

#[test]
fn timer_report_confirms_press_after_threshold() {
    let mut t = Timer::new(1_000, 200);
    // arm: 50 consecutive inactive samples confirm the idle state
    for _ in 0..50 {
        assert!(!t.report(false));
    }
    // 49 active samples make progress without confirming
    for _ in 0..49 {
        assert!(!t.report(true));
    }
    // the fiftieth confirms the press
    assert!(t.report(true));
}

#[test]
fn timer_report_bounce_resets_progress() {
    let mut t = Timer::new(1_000, 200);
    for _ in 0..50 {
        t.report(false);
    }
    for _ in 0..49 {
        t.report(true);
    }
    // one bounce back to inactive clears the pending confirmation count
    assert!(!t.report(false));
    for _ in 0..49 {
        assert!(!t.report(true));
    }
    assert!(t.report(true));
}
