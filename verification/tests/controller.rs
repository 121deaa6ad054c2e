use screen_diags::ConfigError;
use screen_diags::FpsSample;
use screen_diags::ScreenDiagsState;
use screen_diags::TickAction;
use screen_diags::text::cleared_text;

fn settled(interval_ms: u64, enabled: bool) -> ScreenDiagsState {
    let mut s = ScreenDiagsState::new(interval_ms, enabled).unwrap();
    // Consume the forced update of a fresh controller.
    let action = s.on_tick(0);
    assert_ne!(action, TickAction::Skip);
    s
}

#[test]
fn rejects_zero_interval() {
    let r = ScreenDiagsState::new(0, true);
    assert_eq!(r.unwrap_err(), ConfigError::ZeroInterval);
}

#[test]
fn accepts_positive_interval() {
    let s = ScreenDiagsState::new(250, false).unwrap();
    assert!(!s.enabled());
    assert!(s.update_pending());
    assert_eq!(s.interval_ms(), 250);
    assert_eq!(s.last_value(), None);
}

#[test]
fn default_is_one_second_enabled_forced() {
    let s = ScreenDiagsState::default();
    assert_eq!(s.interval_ms(), 1000);
    assert!(s.enabled());
    assert!(s.update_pending());
    assert_eq!(s.last_value(), None);
}

#[test]
fn enable_twice_is_idempotent() {
    let mut s = settled(1000, false);
    s.enable();
    s.enable();
    assert!(s.enabled());
    assert!(s.update_pending());
    // Exactly one forced update pending: the next tick consumes it ...
    assert_eq!(s.on_tick(0), TickAction::Poll);
    assert!(!s.update_pending());
    // ... and the tick after that has nothing left to act on.
    assert_eq!(s.on_tick(0), TickAction::Skip);
}

#[test]
fn disable_twice_is_idempotent() {
    let mut s = settled(1000, true);
    s.disable();
    s.disable();
    assert!(!s.enabled());
    assert!(s.update_pending());
    assert_eq!(s.on_tick(0), TickAction::Clear);
    assert!(!s.update_pending());
    assert_eq!(s.on_tick(0), TickAction::Skip);
}

#[test]
fn no_redundant_polling_below_interval() {
    let mut s = settled(1000, true);
    // 300 + 300 + 300 < 1000: no poll, no write.
    assert_eq!(s.on_tick(300), TickAction::Skip);
    assert_eq!(s.on_tick(300), TickAction::Skip);
    assert_eq!(s.on_tick(300), TickAction::Skip);
}

#[test]
fn interval_cadence_one_poll_per_completed_interval() {
    let mut s = settled(1000, true);
    // Five 400 ms ticks sum to 2000 ms: exactly two completed intervals.
    let mut polls = 0;
    for _ in 0..5 {
        match s.on_tick(400) {
            TickAction::Poll => polls += 1,
            TickAction::Skip => {}
            TickAction::Clear => panic!("clear while enabled"),
        }
    }
    assert_eq!(polls, 2);
}

#[test]
fn interval_cadence_exact_deltas() {
    let mut s = settled(1000, true);
    for _ in 0..3 {
        assert_eq!(s.on_tick(1000), TickAction::Poll);
    }
}

#[test]
fn disable_clears_display() {
    let mut s = settled(1000, true);
    assert_eq!(s.on_tick(1000), TickAction::Poll);
    let shown = s.apply_sample(Some(FpsSample::from_tenths(600)));
    assert_eq!(shown, "FPS: 60");
    s.disable();
    // One tick, far from the end of the interval, must already clear.
    assert_eq!(s.on_tick(1), TickAction::Clear);
    assert_eq!(cleared_text(), "");
}

#[test]
fn enable_forces_immediate_refresh() {
    let mut s = settled(1000, false);
    s.enable();
    // Near-zero elapsed time still triggers exactly one poll and write.
    assert_eq!(s.on_tick(1), TickAction::Poll);
    let shown = s.apply_sample(Some(FpsSample::from_tenths(600)));
    assert_eq!(shown, "FPS: 60");
    assert_eq!(s.on_tick(1), TickAction::Skip);
}

#[test]
fn placeholder_until_first_sample() {
    let mut s = ScreenDiagsState::new(100, true).unwrap();
    assert_eq!(s.on_tick(0), TickAction::Poll);
    assert_eq!(s.apply_sample(None), "FPS: ...");
    assert_eq!(s.on_tick(100), TickAction::Poll);
    assert_eq!(s.apply_sample(None), "FPS: ...");
    assert_eq!(s.on_tick(100), TickAction::Poll);
    assert_eq!(s.apply_sample(Some(FpsSample::from_tenths(596))), "FPS: 60");
}

#[test]
fn absent_sample_keeps_last_reading() {
    let mut s = settled(1000, true);
    assert_eq!(s.on_tick(1000), TickAction::Poll);
    assert_eq!(s.apply_sample(Some(FpsSample::from_tenths(425))), "FPS: 43");
    assert_eq!(s.on_tick(1000), TickAction::Poll);
    assert_eq!(s.apply_sample(None), "FPS: 43");
    assert_eq!(s.last_value(), Some(FpsSample::from_tenths(425)));
}

#[test]
fn formats_rounded_to_integer() {
    let mut s = settled(1000, true);
    assert_eq!(s.on_tick(1000), TickAction::Poll);
    // 59.6 frames per second rounds up to 60.
    assert_eq!(s.apply_sample(Some(FpsSample::from_tenths(596))), "FPS: 60");
    assert_eq!(s.on_tick(1000), TickAction::Poll);
    // 0.0 renders as a bare zero.
    assert_eq!(s.apply_sample(Some(FpsSample::from_tenths(0))), "FPS: 0");
}

#[test]
fn rounding_is_halves_up() {
    assert_eq!(FpsSample::from_tenths(594).rounded(), 59);
    assert_eq!(FpsSample::from_tenths(595).rounded(), 60);
    assert_eq!(FpsSample::from_tenths(596).rounded(), 60);
    assert_eq!(FpsSample::from_tenths(9).rounded(), 1);
    assert_eq!(FpsSample::from_tenths(4).rounded(), 0);
}

#[test]
fn formats_large_readings() {
    let mut s = settled(1000, true);
    assert_eq!(s.on_tick(1000), TickAction::Poll);
    let huge = FpsSample::from_tenths(u64::MAX);
    assert_eq!(huge.rounded(), 1844674407370955162);
    assert_eq!(s.apply_sample(Some(huge)), "FPS: 1844674407370955162");
}

#[test]
fn spanning_tick_fires_once_and_wraps() {
    let mut s = settled(1000, true);
    // A single 2500 ms tick completes the period once; the timer wraps to
    // 500 ms of progress toward the next redraw.
    assert_eq!(s.on_tick(2500), TickAction::Poll);
    assert_eq!(s.on_tick(499), TickAction::Skip);
    assert_eq!(s.on_tick(1), TickAction::Poll);
}

#[test]
fn timer_frozen_while_disabled() {
    let mut s = settled(10, false);
    // Time passing while suspended neither fires the timer nor accumulates.
    assert_eq!(s.on_tick(10_000), TickAction::Skip);
    assert_eq!(s.on_tick(10_000), TickAction::Skip);
    s.enable();
    assert_eq!(s.on_tick(0), TickAction::Poll);
    // The frozen timer restarts from where it stopped: still 10 ms to go.
    assert_eq!(s.on_tick(9), TickAction::Skip);
    assert_eq!(s.on_tick(1), TickAction::Poll);
}

#[test]
fn huge_tick_wraps_the_timer() {
    let mut s = settled(5, true);
    // u64::MAX is divisible by 5, so the wrapped timer lands on zero.
    assert_eq!(s.on_tick(u64::MAX), TickAction::Poll);
    assert_eq!(s.on_tick(4), TickAction::Skip);
    assert_eq!(s.on_tick(1), TickAction::Poll);
}
