use worker_supervisor::health::{
    health_url, is_success_status, wait_for_health, HealthCheckConfig, HealthProbe, ProbeDecision,
    DEFAULT_BACKOFF_PERMILLE, DEFAULT_INITIAL_DELAY_MS, DEFAULT_MAX_DELAY_MS,
    STARTUP_HEALTH_TIMEOUT_MS,
};

fn config(timeout: u64, initial: u64, permille: u32, max: u64) -> HealthCheckConfig {
    HealthCheckConfig {
        url: String::from("http://127.0.0.1:8000/health"),
        overall_timeout_ms: timeout,
        initial_delay_ms: initial,
        backoff_permille: permille,
        max_delay_ms: max,
    }
}

/// Polls an endpoint that never succeeds and returns the sleeps ordered
/// until polling was given up; there is one attempt before each sleep and
/// none after the last.
fn delays_until_timeout(cfg: HealthCheckConfig) -> Vec<u64> {
    let mut probe = HealthProbe::new(cfg);
    let mut delays = Vec::new();
    loop {
        match wait_for_health(&mut probe, None) {
            ProbeDecision::RetryAfter(ms) => delays.push(ms),
            ProbeDecision::GiveUpAfter(ms) => {
                delays.push(ms);
                return delays;
            }
            ProbeDecision::TimedOut => return delays,
            ProbeDecision::Healthy => panic!("a missing response is not a success"),
        }
        assert!(delays.len() < 10_000);
    }
}

#[test]
fn standard_schedule_has_the_documented_values() {
    let cfg = HealthCheckConfig::standard(String::from("http://x/health"), 1234);
    assert_eq!(cfg.url, "http://x/health");
    assert_eq!(cfg.overall_timeout_ms, 1234);
    assert_eq!(cfg.initial_delay_ms, 300);
    assert_eq!(cfg.backoff_permille, 1500);
    assert_eq!(cfg.max_delay_ms, 2000);
    assert_eq!(DEFAULT_INITIAL_DELAY_MS, 300);
    assert_eq!(DEFAULT_BACKOFF_PERMILLE, 1500);
    assert_eq!(DEFAULT_MAX_DELAY_MS, 2000);
    assert_eq!(STARTUP_HEALTH_TIMEOUT_MS, 20_000);
}

#[test]
fn standard_delays_grow_by_half_and_stop_at_two_seconds() {
    let delays = delays_until_timeout(config(9_000, 300, 1500, 2000));
    assert_eq!(delays, vec![300, 450, 675, 1012, 1518, 2000, 2000, 2000]);
}

#[test]
fn grow_rounds_down_and_caps() {
    let cfg = config(0, 300, 1500, 2000);
    assert_eq!(cfg.first_delay(), 300);
    assert_eq!(cfg.grow(300), 450);
    assert_eq!(cfg.grow(675), 1012);
    assert_eq!(cfg.grow(1518), 2000);
    assert_eq!(cfg.grow(2000), 2000);
    assert_eq!(cfg.grow(0), 0);
    assert_eq!(cfg.grow(1), 1);
    assert_eq!(cfg.grow(u64::MAX), 2000);
}

#[test]
fn first_delay_is_capped() {
    let cfg = config(10_000, 5000, 1500, 2000);
    assert_eq!(cfg.first_delay(), 2000);
    let delays = delays_until_timeout(cfg);
    assert_eq!(delays, vec![2000, 2000, 2000, 2000, 2000]);
}

#[test]
fn endpoint_failing_for_two_seconds_then_succeeding() {
    let mut probe = HealthProbe::new(config(10_000, 300, 1500, 2000));
    let mut now: u64 = 0;
    let mut attempts_at = Vec::new();
    let healthy = loop {
        attempts_at.push(now);
        let status = if now < 2000 { Some(500) } else { Some(200) };
        match wait_for_health(&mut probe, status) {
            ProbeDecision::Healthy => break true,
            ProbeDecision::TimedOut | ProbeDecision::GiveUpAfter(_) => break false,
            ProbeDecision::RetryAfter(ms) => now += ms,
        }
    };
    assert!(healthy);
    assert_eq!(attempts_at, vec![0, 300, 750, 1425, 2437]);
    assert_eq!(probe.waited_ms(), 2437);
}

#[test]
fn endpoint_that_never_responds_times_out() {
    let cfg = config(1000, 300, 1500, 2000);
    let mut probe = HealthProbe::new(cfg);
    assert_eq!(wait_for_health(&mut probe, None), ProbeDecision::RetryAfter(300));
    assert_eq!(probe.waited_ms(), 300);
    assert_eq!(wait_for_health(&mut probe, None), ProbeDecision::RetryAfter(450));
    assert_eq!(probe.waited_ms(), 750);
    // The third sleep takes the time slept past the timeout: no attempt follows it.
    assert_eq!(wait_for_health(&mut probe, None), ProbeDecision::GiveUpAfter(675));
    assert_eq!(probe.waited_ms(), 1425);
}

#[test]
fn timeout_is_reached_exactly() {
    let mut probe = HealthProbe::new(config(750, 300, 1500, 2000));
    assert_eq!(wait_for_health(&mut probe, Some(500)), ProbeDecision::RetryAfter(300));
    assert_eq!(wait_for_health(&mut probe, Some(500)), ProbeDecision::GiveUpAfter(450));
    assert_eq!(probe.waited_ms(), 750);
    let mut probe = HealthProbe::new(config(751, 300, 1500, 2000));
    assert_eq!(wait_for_health(&mut probe, Some(500)), ProbeDecision::RetryAfter(300));
    assert_eq!(wait_for_health(&mut probe, Some(500)), ProbeDecision::RetryAfter(450));
    assert_eq!(wait_for_health(&mut probe, Some(500)), ProbeDecision::GiveUpAfter(675));
}

#[test]
fn zero_timeout_allows_one_attempt() {
    let mut failing = HealthProbe::new(config(0, 300, 1500, 2000));
    assert_eq!(wait_for_health(&mut failing, None), ProbeDecision::TimedOut);
    let mut succeeding = HealthProbe::new(config(0, 300, 1500, 2000));
    assert_eq!(wait_for_health(&mut succeeding, Some(200)), ProbeDecision::Healthy);
}

#[test]
fn no_attempt_follows_the_sleep_that_reaches_the_timeout() {
    // One request, one sleep of 300 ms, and the wait is over.
    let mut probe = HealthProbe::new(config(300, 300, 1500, 2000));
    assert_eq!(wait_for_health(&mut probe, None), ProbeDecision::GiveUpAfter(300));
    assert_eq!(probe.waited_ms(), 300);
    assert_eq!(delays_until_timeout(config(300, 300, 1500, 2000)), vec![300]);
    assert_eq!(delays_until_timeout(config(1, 300, 1500, 2000)), vec![300]);
    assert_eq!(delays_until_timeout(config(301, 300, 1500, 2000)), vec![300, 450]);
}

#[test]
fn success_ends_the_wait_on_any_attempt() {
    let mut probe = HealthProbe::new(config(10_000, 300, 1500, 2000));
    assert_eq!(wait_for_health(&mut probe, None), ProbeDecision::RetryAfter(300));
    assert_eq!(wait_for_health(&mut probe, Some(404)), ProbeDecision::RetryAfter(450));
    assert_eq!(wait_for_health(&mut probe, Some(204)), ProbeDecision::Healthy);
    assert_eq!(probe.waited_ms(), 750);
}

#[test]
fn only_2xx_is_success() {
    for code in [200u16, 201, 204, 250, 299] {
        assert!(is_success_status(Some(code)), "{}", code);
    }
    for code in [0u16, 100, 199, 300, 301, 404, 500, 503, 999, u16::MAX] {
        assert!(!is_success_status(Some(code)), "{}", code);
    }
    assert!(!is_success_status(None));
}

#[test]
fn delays_never_decrease_until_the_cap() {
    for (initial, permille, max) in
        [(7u64, 1100u32, 50u64), (1, 1000, 10), (1, 2000, 1000), (300, 1500, 2000), (3, 1001, 9)]
    {
        let delays = delays_until_timeout(config(5_000, initial, permille, max));
        assert!(!delays.is_empty());
        for pair in delays.windows(2) {
            assert!(pair[0] <= pair[1]);
            assert!(pair[1] <= max);
            if pair[0] == max {
                assert_eq!(pair[1], max);
            }
        }
        let total: u64 = delays.iter().sum();
        let before_last: u64 = total - delays[delays.len() - 1];
        assert!(total >= 5_000);
        assert!(before_last < 5_000);
        assert!(total < 5_000 + max);
    }
}

#[test]
fn factor_below_one_shrinks_the_delay() {
    let cfg = config(180, 100, 500, 2000);
    let delays = delays_until_timeout(cfg);
    assert_eq!(delays, vec![100, 50, 25, 12]);
}

#[test]
fn waited_time_saturates() {
    let mut probe = HealthProbe::new(config(u64::MAX, u64::MAX - 1, 1000, u64::MAX));
    assert_eq!(wait_for_health(&mut probe, None), ProbeDecision::RetryAfter(u64::MAX - 1));
    assert_eq!(probe.waited_ms(), u64::MAX - 1);
    assert_eq!(wait_for_health(&mut probe, None), ProbeDecision::GiveUpAfter(u64::MAX - 1));
    assert_eq!(probe.waited_ms(), u64::MAX);
}

#[test]
fn probe_keeps_its_address() {
    let probe = HealthProbe::new(HealthCheckConfig::standard(health_url(8000), 20_000));
    assert_eq!(probe.url(), "http://127.0.0.1:8000/health");
    assert_eq!(health_url(0), "http://127.0.0.1:0/health");
    assert_eq!(health_url(65535), "http://127.0.0.1:65535/health");
}
