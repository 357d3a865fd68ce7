use std::time::Duration;

use hydebar::ticker::{BusFlushOutcome, MicroTicker};

#[test]
fn ticker_slows_after_threshold_idle_ticks() {
    let mut ticker = MicroTicker::new(Duration::from_millis(16), Duration::from_millis(33), 3);
    assert_eq!(ticker.interval(), Duration::from_millis(16));
    ticker.record_idle();
    ticker.record_idle();
    assert_eq!(ticker.interval(), Duration::from_millis(16));
    ticker.record_idle();
    assert_eq!(ticker.interval(), Duration::from_millis(33));
    ticker.record_idle();
    assert_eq!(ticker.interval(), Duration::from_millis(33));
    ticker.record_activity();
    assert_eq!(ticker.interval(), Duration::from_millis(16));
}

#[test]
fn default_ticker_uses_sixteen_and_thirty_three_ms() {
    let mut ticker = MicroTicker::default();
    assert_eq!(ticker.interval(), Duration::from_millis(16));
    for _ in 0..3 {
        ticker.record_idle();
    }
    assert_eq!(ticker.interval(), Duration::from_millis(33));
}

#[test]
fn zero_threshold_slows_on_first_idle_tick() {
    let mut ticker = MicroTicker::new(Duration::from_millis(5), Duration::from_millis(50), 0);
    ticker.record_idle();
    assert_eq!(ticker.interval(), Duration::from_millis(50));
}

#[test]
fn bus_flush_outcome_reports_events_and_errors() {
    let empty = BusFlushOutcome::<u8>::empty();
    assert!(empty.is_empty());
    assert!(!empty.had_error());
    let outcome = BusFlushOutcome::with_events(vec![1u8, 2], true);
    assert!(!outcome.is_empty());
    assert!(outcome.had_error());
    assert_eq!(outcome.into_events(), vec![1, 2]);
}

#[test]
fn bus_flush_drives_the_ticker() {
    let mut ticker = MicroTicker::new(Duration::from_millis(16), Duration::from_millis(33), 1);
    ticker.record_flush(&BusFlushOutcome::<u8>::empty());
    assert_eq!(ticker.interval(), Duration::from_millis(33));
    ticker.record_flush(&BusFlushOutcome::with_events(vec![7u8], false));
    assert_eq!(ticker.interval(), Duration::from_millis(16));
    ticker.record_flush(&BusFlushOutcome::<u8>::empty());
    ticker.record_flush(&BusFlushOutcome::<u8>::with_events(vec![], true));
    assert_eq!(ticker.interval(), Duration::from_millis(16));
}

#[test]
fn activity_restarts_the_slow_down_count() {
    let mut ticker = MicroTicker::default();
    for _ in 0..5 {
        ticker.record_idle();
    }
    assert_eq!(ticker.interval(), Duration::from_millis(33));
    ticker.record_activity();
    assert_eq!(ticker.interval(), Duration::from_millis(16));
    ticker.record_idle();
    ticker.record_idle();
    assert_eq!(ticker.interval(), Duration::from_millis(16));
    ticker.record_idle();
    assert_eq!(ticker.interval(), Duration::from_millis(33));
    for _ in 0..300 {
        ticker.record_idle();
    }
    assert_eq!(ticker.interval(), Duration::from_millis(33));
}
