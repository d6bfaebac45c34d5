//! Health gating: the retry schedule that decides when the worker's health
//! endpoint is polled and when polling gives up.
//!
//! The prober itself performs no request and never sleeps. It is a decision
//! procedure: the caller makes one request, hands the response status to
//! [`wait_for_health`], and does what the returned [`ProbeDecision`] says.
//! All durations are whole milliseconds.

use vstd::prelude::*;
use crate::text::{decimal, decimal_text};

verus! {

/// Delay before the second attempt of the standard schedule.
pub const DEFAULT_INITIAL_DELAY_MS: u64 = 300;

/// Growth factor of the standard schedule, in thousandths (1.5 times).
pub const DEFAULT_BACKOFF_PERMILLE: u32 = 1500;

/// Largest delay of the standard schedule.
pub const DEFAULT_MAX_DELAY_MS: u64 = 2000;

/// How long the window stays hidden at most while the worker starts.
pub const STARTUP_HEALTH_TIMEOUT_MS: u64 = 20000;

/// How a health endpoint is polled.
///
/// The growth factor is kept in thousandths so that the schedule is exact:
/// a delay `d` is followed by `d * backoff_permille / 1000`, rounded down and
/// capped at `max_delay_ms`.
pub struct HealthCheckConfig {
    pub url: String,
    pub overall_timeout_ms: u64,
    pub initial_delay_ms: u64,
    pub backoff_permille: u32,
    pub max_delay_ms: u64,
}

/// What the caller does after an attempt.
#[derive(Clone, Copy, Debug, PartialEq, Eq, Structural)]
pub enum ProbeDecision {
    /// The endpoint answered with a success status: stop polling.
    Healthy,
    /// The time budget was used up before this attempt: stop polling at once,
    /// the worker is not known to be healthy.
    TimedOut,
    /// Sleep for this many milliseconds, then make the next attempt.
    RetryAfter(u64),
    /// Sleep for this many milliseconds, then stop polling without a further
    /// attempt: that sleep uses up the time budget, and the worker is not
    /// known to be healthy.
    GiveUpAfter(u64),
}

/// The address of the worker's health endpoint on the loopback interface.
pub open spec fn health_url_text(port: u16) -> Seq<char> {
    "http://127.0.0.1:"@ + decimal_text(port as nat) + "/health"@
}

/// Builds the address of the worker's health endpoint.
pub fn health_url(port: u16) -> (url: String)
    ensures
        url@ == health_url_text(port),
{
    let mut url = String::from_str("http://127.0.0.1:");
    let digits = decimal(port as u64);
    url.append(digits.as_str());
    url.append("/health");
    url
}

/// Whether a response status means success: any code from 200 to 299.
pub open spec fn status_is_success(status: Option<u16>) -> bool {
    match status {
        Some(code) => 200 <= code < 300,
        None => false,
    }
}

/// Classifies the outcome of one request. `None` stands for a request that
/// produced no response at all (connection refused, request timeout).
pub fn is_success_status(status: Option<u16>) -> (ok: bool)
    ensures
        ok == status_is_success(status),
{
    match status {
        Some(code) => 200 <= code && code < 300,
        None => false,
    }
}

impl HealthCheckConfig {
    /// The delay that follows a delay of `d` milliseconds.
    pub open spec fn next_delay(&self, d: nat) -> nat {
        let grown = d * (self.backoff_permille as nat) / 1000;
        if grown <= self.max_delay_ms {
            grown
        } else {
            self.max_delay_ms as nat
        }
    }

    /// The sleep between attempt `k` and attempt `k + 1` (attempts count from 0).
    pub open spec fn delay_at(&self, k: nat) -> nat
        decreases k,
    {
        if k == 0 {
            if self.initial_delay_ms <= self.max_delay_ms {
                self.initial_delay_ms as nat
            } else {
                self.max_delay_ms as nat
            }
        } else {
            self.next_delay(self.delay_at((k - 1) as nat))
        }
    }

    /// Total time slept before attempt `k` is made.
    pub open spec fn waited_before(&self, k: nat) -> nat
        decreases k,
    {
        if k == 0 {
            0
        } else {
            self.waited_before((k - 1) as nat) + self.delay_at((k - 1) as nat)
        }
    }

    /// What follows attempt `k` when it yields `status`.
    ///
    /// A success ends the wait. After a failure the next delay is slept; if
    /// the time slept then reaches the timeout, the wait ends there, without
    /// a further attempt. An attempt made with the timeout already reached
    /// (attempt 0 under a timeout of zero) is not followed by any sleep.
    pub open spec fn decision_at(&self, k: nat, status: Option<u16>) -> ProbeDecision {
        if status_is_success(status) {
            ProbeDecision::Healthy
        } else if self.waited_before(k) >= self.overall_timeout_ms {
            ProbeDecision::TimedOut
        } else if self.waited_before(k) + self.delay_at(k) >= self.overall_timeout_ms {
            ProbeDecision::GiveUpAfter(self.delay_at(k) as u64)
        } else {
            ProbeDecision::RetryAfter(self.delay_at(k) as u64)
        }
    }

    /// The standard schedule: 300 ms at first, growing by half each time, at most 2 s.
    pub fn standard(url: String, overall_timeout_ms: u64) -> (cfg: HealthCheckConfig)
        ensures
            cfg.url == url,
            cfg.overall_timeout_ms == overall_timeout_ms,
            cfg.initial_delay_ms == DEFAULT_INITIAL_DELAY_MS,
            cfg.backoff_permille == DEFAULT_BACKOFF_PERMILLE,
            cfg.max_delay_ms == DEFAULT_MAX_DELAY_MS,
    {
        HealthCheckConfig {
            url,
            overall_timeout_ms,
            initial_delay_ms: DEFAULT_INITIAL_DELAY_MS,
            backoff_permille: DEFAULT_BACKOFF_PERMILLE,
            max_delay_ms: DEFAULT_MAX_DELAY_MS,
        }
    }

    /// The first delay: the configured one, capped.
    pub fn first_delay(&self) -> (d: u64)
        ensures
            d == self.delay_at(0),
    {
        if self.initial_delay_ms <= self.max_delay_ms {
            self.initial_delay_ms
        } else {
            self.max_delay_ms
        }
    }

    /// Grows a delay by the configured factor and caps it.
    pub fn grow(&self, d: u64) -> (next: u64)
        ensures
            next == self.next_delay(d as nat),
            next <= self.max_delay_ms,
    {
        let wide: u128 = d as u128;
        let factor: u128 = self.backoff_permille as u128;
        assert(wide * factor <= 0xffff_ffff_ffff_ffff * 0xffff_ffff) by (nonlinear_arith)
            requires
                0 <= wide <= 0xffff_ffff_ffff_ffff,
                0 <= factor <= 0xffff_ffff,
        ;
        let grown: u128 = wide * factor / 1000;
        if grown <= self.max_delay_ms as u128 {
            grown as u64
        } else {
            self.max_delay_ms
        }
    }
}

/// The prober's position in its schedule.
pub struct HealthProbe {
    cfg: HealthCheckConfig,
    delay_ms: u64,
    elapsed_ms: u64,
    attempts: Ghost<nat>,
}

impl HealthProbe {
    /// The schedule being followed.
    pub closed spec fn config(&self) -> HealthCheckConfig {
        self.cfg
    }

    /// How many attempts have been answered with a retry so far; the next
    /// attempt handed in is attempt number `attempts()`.
    pub closed spec fn attempts(&self) -> nat {
        self.attempts@
    }

    /// The prober is at a point of its own schedule.
    pub closed spec fn wf(&self) -> bool {
        &&& self.delay_ms == self.cfg.delay_at(self.attempts@)
        &&& self.elapsed_ms == if self.cfg.waited_before(self.attempts@) <= u64::MAX {
            self.cfg.waited_before(self.attempts@)
        } else {
            u64::MAX as nat
        }
    }

    /// A prober that has made no attempt yet.
    pub fn new(cfg: HealthCheckConfig) -> (probe: HealthProbe)
        ensures
            probe.wf(),
            probe.config() == cfg,
            probe.attempts() == 0,
    {
        let delay_ms = cfg.first_delay();
        HealthProbe { cfg, delay_ms, elapsed_ms: 0, attempts: Ghost(0) }
    }

    /// The address to request.
    pub fn url(&self) -> (u: &String)
        ensures
            *u == self.config().url,
    {
        &self.cfg.url
    }

    /// Total time slept so far in milliseconds (saturating).
    pub fn waited_ms(&self) -> (ms: u64)
        requires
            self.wf(),
        ensures
            self.config().waited_before(self.attempts()) <= u64::MAX ==> ms
                == self.config().waited_before(self.attempts()),
            self.config().waited_before(self.attempts()) > u64::MAX ==> ms == u64::MAX,
    {
        self.elapsed_ms
    }

    /// Moves on by one attempt: the pending sleep is counted as slept and
    /// the next sleep is grown from it.
    fn advance(&mut self) -> (sleep_ms: u64)
        requires
            old(self).wf(),
        ensures
            final(self).wf(),
            final(self).config() == old(self).config(),
            final(self).attempts() == old(self).attempts() + 1,
            sleep_ms == old(self).config().delay_at(old(self).attempts()),
    {
        proof {
            lemma_delay_bounded(self.cfg, self.attempts@);
        }
        let sleep_ms = self.delay_ms;
        self.elapsed_ms = self.elapsed_ms.saturating_add(sleep_ms);
        self.delay_ms = self.cfg.grow(sleep_ms);
        proof {
            self.attempts@ = self.attempts@ + 1;
        }
        sleep_ms
    }

    /// Whether the time slept so far has reached the timeout.
    fn out_of_time(&self) -> (over: bool)
        requires
            self.wf(),
        ensures
            over == (self.config().waited_before(self.attempts())
                >= self.config().overall_timeout_ms),
    {
        self.elapsed_ms >= self.cfg.overall_timeout_ms
    }

    /// Whether the pending sleep takes the time slept to the timeout.
    fn next_sleep_is_last(&self) -> (last: bool)
        requires
            self.wf(),
        ensures
            last == (self.config().waited_before(self.attempts()) + self.config().delay_at(
                self.attempts(),
            ) >= self.config().overall_timeout_ms),
    {
        self.elapsed_ms.saturating_add(self.delay_ms) >= self.cfg.overall_timeout_ms
    }
}

/// Takes the outcome of the attempt just made and says how the wait for a
/// healthy worker goes on.
///
/// A success status ends polling at once. After anything else (a
/// non-success status or no response) the caller is told how long to sleep,
/// and the prober moves on by one attempt. If that sleep takes the time
/// slept to the timeout or beyond, the answer is `GiveUpAfter`: the caller
/// sleeps and then reports the worker as not healthy, without a further
/// attempt. Otherwise the answer is `RetryAfter`, and the caller makes the
/// next attempt after the sleep. Only an attempt made with the timeout
/// already reached, which is the first attempt under a timeout of zero, is
/// answered `TimedOut`, with no sleep. The caller requests the address and
/// calls this with the status it got (`None` for no response).
pub fn wait_for_health(probe: &mut HealthProbe, status: Option<u16>) -> (decision: ProbeDecision)
    requires
        old(probe).wf(),
    ensures
        final(probe).wf(),
        final(probe).config() == old(probe).config(),
        decision == old(probe).config().decision_at(old(probe).attempts(), status),
        decision is RetryAfter || decision is GiveUpAfter ==> final(probe).attempts() == old(
            probe,
        ).attempts() + 1,
        decision is Healthy || decision is TimedOut ==> final(probe).attempts() == old(
            probe,
        ).attempts(),
{
    if is_success_status(status) {
        return ProbeDecision::Healthy;
    }
    if probe.out_of_time() {
        return ProbeDecision::TimedOut;
    }
    let last = probe.next_sleep_is_last();
    let sleep_ms = probe.advance();
    if last {
        ProbeDecision::GiveUpAfter(sleep_ms)
    } else {
        ProbeDecision::RetryAfter(sleep_ms)
    }
}

/// No delay of the schedule exceeds the configured maximum.
pub proof fn lemma_delay_bounded(cfg: HealthCheckConfig, k: nat)
    ensures
        cfg.delay_at(k) <= cfg.max_delay_ms,
    decreases k,
{
    if k > 0 {
        lemma_delay_bounded(cfg, (k - 1) as nat);
    }
}

/// A delay never shrinks when the growth factor is at least one: the
/// successor of a delay within the cap is at least that delay.
pub proof fn lemma_next_delay_grows(cfg: HealthCheckConfig, d: nat)
    requires
        cfg.backoff_permille >= 1000,
        d <= cfg.max_delay_ms,
    ensures
        d <= cfg.next_delay(d) <= cfg.max_delay_ms,
{
    let p = cfg.backoff_permille as nat;
    assert(d * p / 1000 >= d) by (nonlinear_arith)
        requires
            p >= 1000,
    ;
}

/// With a growth factor of at least one, the delays are non-decreasing.
pub proof fn lemma_delay_monotone(cfg: HealthCheckConfig, i: nat, j: nat)
    requires
        cfg.backoff_permille >= 1000,
        i <= j,
    ensures
        cfg.delay_at(i) <= cfg.delay_at(j),
    decreases j,
{
    if i < j {
        lemma_delay_monotone(cfg, i, (j - 1) as nat);
        lemma_delay_bounded(cfg, (j - 1) as nat);
        lemma_next_delay_grows(cfg, cfg.delay_at((j - 1) as nat));
    }
}

/// With a growth factor of at least one, a schedule that has reached the
/// maximum delay stays there.
pub proof fn law_delay_stays_at_max(cfg: HealthCheckConfig, i: nat, j: nat)
    requires
        cfg.backoff_permille >= 1000,
        i <= j,
        cfg.delay_at(i) == cfg.max_delay_ms,
    ensures
        cfg.delay_at(j) == cfg.max_delay_ms,
{
    lemma_delay_monotone(cfg, i, j);
    lemma_delay_bounded(cfg, j);
}

/// The time slept before an attempt never decreases from one attempt to a later one.
pub proof fn lemma_waited_monotone(cfg: HealthCheckConfig, i: nat, j: nat)
    requires
        i <= j,
    ensures
        cfg.waited_before(i) <= cfg.waited_before(j),
    decreases j,
{
    if i < j {
        lemma_waited_monotone(cfg, i, (j - 1) as nat);
    }
}

/// When every delay is at least one millisecond, `k` sleeps take at least `k` milliseconds.
proof fn lemma_waited_at_least(cfg: HealthCheckConfig, k: nat)
    requires
        cfg.backoff_permille >= 1000,
        cfg.delay_at(0) >= 1,
    ensures
        cfg.waited_before(k) >= k,
    decreases k,
{
    if k > 0 {
        lemma_waited_at_least(cfg, (k - 1) as nat);
        lemma_delay_monotone(cfg, 0, (k - 1) as nat);
    }
}

/// Whether attempt `k` is the last one made on an endpoint that never
/// succeeds: the sleep after it is the first to take the time slept to the
/// timeout.
pub open spec fn last_attempt_at(cfg: HealthCheckConfig, k: nat) -> bool {
    &&& cfg.waited_before(k + 1) >= cfg.overall_timeout_ms
    &&& forall|j: nat| 0 < j <= k ==> cfg.waited_before(j) < cfg.overall_timeout_ms
}

/// The polling schedule, for every configuration whose growth factor is at
/// least one.
///
/// * The delays never decrease and never exceed the maximum delay; once the
///   maximum is reached every later delay equals it.
/// * A failed attempt `k` is followed by a sleep of `delay_at(k)` and a
///   further attempt exactly when the time slept stays below the timeout
///   after that sleep. When the sleep reaches the timeout it is the last
///   thing done: no attempt follows it. An attempt made with the timeout
///   already reached is followed by nothing.
/// * On an endpoint that never succeeds, every attempt before the last is
///   answered with a retry, the last is not, and under a timeout above zero
///   polling ends with less than one maximum delay slept beyond the timeout.
pub proof fn law_polling_schedule(cfg: HealthCheckConfig, k: nat, status: Option<u16>)
    requires
        cfg.backoff_permille >= 1000,
        !status_is_success(status),
    ensures
        cfg.delay_at(k) <= cfg.delay_at(k + 1) <= cfg.max_delay_ms,
        cfg.delay_at(k) == cfg.max_delay_ms ==> cfg.delay_at(k + 1) == cfg.max_delay_ms,
        cfg.waited_before(k + 1) == cfg.waited_before(k) + cfg.delay_at(k),
        cfg.decision_at(k, status) is TimedOut <==> cfg.waited_before(k)
            >= cfg.overall_timeout_ms,
        cfg.decision_at(k, status) is GiveUpAfter <==> cfg.waited_before(k)
            < cfg.overall_timeout_ms <= cfg.waited_before(k + 1),
        cfg.decision_at(k, status) is RetryAfter <==> cfg.waited_before(k + 1)
            < cfg.overall_timeout_ms,
        cfg.decision_at(k, status) matches ProbeDecision::GiveUpAfter(ms) ==> ms == cfg.delay_at(
            k,
        ),
        cfg.decision_at(k, status) matches ProbeDecision::RetryAfter(ms) ==> ms == cfg.delay_at(k),
        last_attempt_at(cfg, k) ==> !(cfg.decision_at(k, status) is RetryAfter) && (forall|j: nat|
            j < k ==> cfg.decision_at(j, status) is RetryAfter),
        last_attempt_at(cfg, k) && cfg.overall_timeout_ms > 0 ==> cfg.decision_at(k, status)
            is GiveUpAfter && cfg.waited_before(k + 1) < cfg.overall_timeout_ms
            + cfg.max_delay_ms,
{
    lemma_delay_monotone(cfg, k, k + 1);
    lemma_delay_bounded(cfg, k + 1);
    lemma_delay_bounded(cfg, k);
    assert(cfg.waited_before(k + 1) == cfg.waited_before(k) + cfg.delay_at(k));
    if last_attempt_at(cfg, k) {
        assert forall|j: nat| j < k implies cfg.decision_at(j, status) is RetryAfter by {
            assert(cfg.waited_before((j + 1) as nat) < cfg.overall_timeout_ms);
            assert(cfg.waited_before(j + 1) == cfg.waited_before(j) + cfg.delay_at(j));
            lemma_delay_bounded(cfg, j);
        }
        if cfg.overall_timeout_ms > 0 && k > 0 {
            assert(cfg.waited_before(k) < cfg.overall_timeout_ms);
        }
    }
}

/// Polling always ends: when the first delay is at least one millisecond and
/// the growth factor at least one, an endpoint that never succeeds gets its
/// last attempt no later than attempt number `overall_timeout_ms`.
pub proof fn law_polling_ends(cfg: HealthCheckConfig) -> (k: nat)
    requires
        cfg.backoff_permille >= 1000,
        cfg.initial_delay_ms >= 1,
        cfg.max_delay_ms >= 1,
    ensures
        k <= cfg.overall_timeout_ms,
        last_attempt_at(cfg, k),
{
    lemma_waited_at_least(cfg, cfg.overall_timeout_ms as nat);
    let m = lemma_first_reach(cfg, cfg.overall_timeout_ms as nat);
    if m == 0 {
        lemma_waited_monotone(cfg, 0, 1);
        0
    } else {
        let k = (m - 1) as nat;
        assert forall|j: nat| 0 < j <= k implies cfg.waited_before(j)
            < cfg.overall_timeout_ms by {
            assert(j < m);
        }
        k
    }
}

/// If the timeout is reached before attempt `n`, some attempt up to `n` is
/// the first before which it is reached.
proof fn lemma_first_reach(cfg: HealthCheckConfig, n: nat) -> (m: nat)
    requires
        cfg.waited_before(n) >= cfg.overall_timeout_ms,
    ensures
        m <= n,
        cfg.waited_before(m) >= cfg.overall_timeout_ms,
        forall|j: nat| j < m ==> cfg.waited_before(j) < cfg.overall_timeout_ms,
    decreases n,
{
    if n > 0 && cfg.waited_before((n - 1) as nat) >= cfg.overall_timeout_ms {
        lemma_first_reach(cfg, (n - 1) as nat)
    } else {
        assert forall|j: nat| j < n implies cfg.waited_before(j) < cfg.overall_timeout_ms by {
            lemma_waited_monotone(cfg, j, (n - 1) as nat);
        }
        n
    }
}

} // verus!
