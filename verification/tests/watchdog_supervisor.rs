use render_supervisor::watchdog::{
    run_supervised, RunOutcome, Stall, Supervisor, SupervisorAction, SupervisorPhase,
    WatchdogConfig, WatchdogTimer, WATCHDOG_FEED_PERIOD_MS, WATCHDOG_TIMEOUT_MS,
};

#[test]
fn config_needs_period_below_timeout() {
    assert!(WatchdogConfig::new(2000, 500).is_some());
    assert!(WatchdogConfig::new(2, 1).is_some());
    assert!(WatchdogConfig::new(500, 500).is_none());
    assert!(WatchdogConfig::new(500, 501).is_none());
    assert!(WatchdogConfig::new(500, 0).is_none());
    assert!(WatchdogConfig::new(0, 0).is_none());
    let c = WatchdogConfig::new(u64::MAX, u64::MAX - 1).unwrap();
    assert_eq!(c.timeout_ms(), u64::MAX);
    assert_eq!(c.feed_period_ms(), u64::MAX - 1);
}

#[test]
fn standard_config_is_two_seconds_fed_every_half() {
    let c = WatchdogConfig::standard();
    assert_eq!(c.timeout_ms(), 2000);
    assert_eq!(c.feed_period_ms(), 500);
    assert_eq!(WATCHDOG_TIMEOUT_MS, 2000);
    assert_eq!(WATCHDOG_FEED_PERIOD_MS, 500);
    assert_eq!(Some(c), WatchdogConfig::new(2000, 500));
}

#[test]
fn supervisor_enables_then_feeds_and_sleeps_forever() {
    let mut task = Supervisor::new(WatchdogConfig::new(900, 300).unwrap());
    assert_eq!(task.phase(), SupervisorPhase::Starting);
    assert_eq!(task.step(), SupervisorAction::Enable { timeout_ms: 900 });
    for _ in 0..1000 {
        assert_eq!(task.phase(), SupervisorPhase::Feeding);
        assert_eq!(task.step(), SupervisorAction::Feed);
        assert_eq!(task.phase(), SupervisorPhase::Sleeping);
        assert_eq!(task.step(), SupervisorAction::Sleep { period_ms: 300 });
    }
}

#[test]
fn timer_fires_when_idle_time_reaches_timeout() {
    let mut t = WatchdogTimer::new();
    assert!(!t.is_enabled());
    assert!(!t.advance(u64::MAX));
    assert_eq!(t.resets(), 0);
    t.enable(2000);
    assert!(t.is_enabled());
    assert!(!t.advance(1999));
    assert_eq!(t.idle_ms(), 1999);
    t.feed();
    assert_eq!(t.idle_ms(), 0);
    assert!(!t.advance(1000));
    assert!(t.advance(1000));
    assert_eq!(t.resets(), 1);
    assert!(!t.is_enabled());
    assert!(!t.advance(5000));
    t.feed();
    assert_eq!(t.resets(), 1);
    t.enable(10);
    assert!(t.advance(u64::MAX));
    assert_eq!(t.resets(), 2);
}

#[test]
fn timer_with_zero_timeout_stays_disabled() {
    let mut t = WatchdogTimer::new();
    t.enable(0);
    assert!(!t.is_enabled());
    assert!(!t.advance(1));
    t.enable(5);
    t.enable(0);
    assert!(!t.is_enabled());
    assert_eq!(t.resets(), 0);
}

#[test]
fn supervisor_alone_never_misses_a_deadline() {
    for &(t, p) in &[(2000u64, 500u64), (2, 1), (1000, 999), (u64::MAX, 1), (u64::MAX, u64::MAX - 1)] {
        let config = WatchdogConfig::new(t, p).unwrap();
        let stalls = vec![Stall { start_ms: 0, hold_ms: 0 }; 500];
        assert_eq!(run_supervised(config, &stalls), RunOutcome { rounds: 500, resets: 0 });
        assert_eq!(run_supervised(config, &[]), RunOutcome { rounds: 0, resets: 0 });
    }
}

#[test]
fn short_stalls_leave_the_watchdog_fed() {
    let config = WatchdogConfig::standard();
    let stalls = vec![
        Stall { start_ms: 0, hold_ms: 1500 },
        Stall { start_ms: 499, hold_ms: 1500 },
        Stall { start_ms: 100, hold_ms: 100 },
        Stall { start_ms: 499, hold_ms: 1 },
        Stall { start_ms: 0, hold_ms: 1999 },
    ];
    assert_eq!(run_supervised(config, &stalls), RunOutcome { rounds: 5, resets: 0 });
}

#[test]
fn long_stall_fires_the_watchdog_exactly_once() {
    let config = WatchdogConfig::standard();
    let stalls = vec![
        Stall { start_ms: 0, hold_ms: 0 },
        Stall { start_ms: 10, hold_ms: 1000 },
        Stall { start_ms: 0, hold_ms: 2000 },
        Stall { start_ms: 0, hold_ms: 5000 },
        Stall { start_ms: 0, hold_ms: 0 },
    ];
    assert_eq!(run_supervised(config, &stalls), RunOutcome { rounds: 2, resets: 1 });
    let late = [Stall { start_ms: 500, hold_ms: 1500 }];
    assert_eq!(run_supervised(config, &late), RunOutcome { rounds: 0, resets: 1 });
    let huge = [Stall { start_ms: u64::MAX, hold_ms: u64::MAX }];
    assert_eq!(run_supervised(config, &huge), RunOutcome { rounds: 0, resets: 1 });
    let edge = WatchdogConfig::new(u64::MAX, 1).unwrap();
    assert_eq!(run_supervised(edge, &huge), RunOutcome { rounds: 0, resets: 1 });
    let just = [Stall { start_ms: 0, hold_ms: u64::MAX - 1 }];
    assert_eq!(run_supervised(edge, &just), RunOutcome { rounds: 1, resets: 0 });
}
