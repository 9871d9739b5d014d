//! The watchdog supervisor: the task that keeps feeding the hardware
//! watchdog, the decisions it takes, and a model of the hardware timer to
//! run it against.

use vstd::prelude::*;

verus! {

/// Timeout of the watchdog on the panel board, in milliseconds.
pub const WATCHDOG_TIMEOUT_MS: u64 = 2000;

/// Feed period of the supervisor on the panel board, in milliseconds.
pub const WATCHDOG_FEED_PERIOD_MS: u64 = 500;

/// Whether a feed period and a timeout can be used together: the period is
/// positive and strictly shorter than the timeout.
pub open spec fn valid_timing(timeout_ms: int, feed_period_ms: int) -> bool {
    0 < feed_period_ms < timeout_ms
}

/// Timeout and feed period of a supervisor.
#[derive(Clone, Copy, Debug, PartialEq, Eq, Structural)]
pub struct WatchdogConfig {
    timeout_ms: u64,
    feed_period_ms: u64,
}

impl WatchdogConfig {
    #[verifier::type_invariant]
    spec fn inv(&self) -> bool {
        valid_timing(self.timeout_ms as int, self.feed_period_ms as int)
    }

    /// The timeout, in milliseconds.
    pub closed spec fn spec_timeout_ms(&self) -> u64 {
        self.timeout_ms
    }

    /// The feed period, in milliseconds.
    pub closed spec fn spec_feed_period_ms(&self) -> u64 {
        self.feed_period_ms
    }

    /// A configuration with the given timing, unless the feed period is zero
    /// or not strictly shorter than the timeout.
    pub fn new(timeout_ms: u64, feed_period_ms: u64) -> (config: Option<WatchdogConfig>)
        ensures
            config.is_some() <==> valid_timing(timeout_ms as int, feed_period_ms as int),
            config matches Some(c) ==> c.spec_timeout_ms() == timeout_ms
                && c.spec_feed_period_ms() == feed_period_ms,
    {
        if 0 < feed_period_ms && feed_period_ms < timeout_ms {
            Some(WatchdogConfig { timeout_ms, feed_period_ms })
        } else {
            None
        }
    }

    /// The timing of the panel board: a timeout of two seconds, fed every
    /// half second.
    pub fn standard() -> (config: WatchdogConfig)
        ensures
            config.spec_timeout_ms() == WATCHDOG_TIMEOUT_MS,
            config.spec_feed_period_ms() == WATCHDOG_FEED_PERIOD_MS,
    {
        WatchdogConfig { timeout_ms: WATCHDOG_TIMEOUT_MS, feed_period_ms: WATCHDOG_FEED_PERIOD_MS }
    }

    /// The timeout, in milliseconds.
    #[verifier::when_used_as_spec(spec_timeout_ms)]
    pub fn timeout_ms(&self) -> (t: u64)
        ensures
            t == self.spec_timeout_ms(),
            valid_timing(self.spec_timeout_ms() as int, self.spec_feed_period_ms() as int),
    {
        proof {
            use_type_invariant(self);
        }
        self.timeout_ms
    }

    /// The feed period, in milliseconds.
    #[verifier::when_used_as_spec(spec_feed_period_ms)]
    pub fn feed_period_ms(&self) -> (p: u64)
        ensures
            p == self.spec_feed_period_ms(),
            valid_timing(self.spec_timeout_ms() as int, self.spec_feed_period_ms() as int),
    {
        proof {
            use_type_invariant(self);
        }
        self.feed_period_ms
    }
}

/// What the supervisor asks of the hardware or of the scheduler next.
#[derive(Clone, Copy, Debug, PartialEq, Eq, Structural)]
pub enum SupervisorAction {
    /// Enable the watchdog with this timeout.
    Enable { timeout_ms: u64 },
    /// Reset the watchdog's counter.
    Feed,
    /// Suspend for exactly this long.
    Sleep { period_ms: u64 },
}

/// Where the supervisor stands in its cycle: what it will ask for next.
#[derive(Clone, Copy, Debug, PartialEq, Eq, Structural)]
pub enum SupervisorPhase {
    /// Nothing was done yet; the watchdog is to be enabled.
    Starting,
    /// The watchdog is to be fed.
    Feeding,
    /// The task is to sleep for one feed period.
    Sleeping,
}

/// The phase that follows `phase`. No phase is final: the supervisor never
/// ends.
pub open spec fn next_phase(phase: SupervisorPhase) -> SupervisorPhase {
    match phase {
        SupervisorPhase::Starting => SupervisorPhase::Feeding,
        SupervisorPhase::Feeding => SupervisorPhase::Sleeping,
        SupervisorPhase::Sleeping => SupervisorPhase::Feeding,
    }
}

/// The action the supervisor takes in `phase`.
pub open spec fn action_in(
    phase: SupervisorPhase,
    timeout_ms: u64,
    feed_period_ms: u64,
) -> SupervisorAction {
    match phase {
        SupervisorPhase::Starting => SupervisorAction::Enable { timeout_ms },
        SupervisorPhase::Feeding => SupervisorAction::Feed,
        SupervisorPhase::Sleeping => SupervisorAction::Sleep { period_ms: feed_period_ms },
    }
}

/// The watchdog supervisor task, as the decisions it takes. Whoever runs it
/// performs each action and asks for the next, forever.
pub struct Supervisor {
    config: WatchdogConfig,
    phase: SupervisorPhase,
}

impl Supervisor {
    /// The supervisor's timing.
    pub closed spec fn config(&self) -> WatchdogConfig {
        self.config
    }

    /// The supervisor's phase.
    pub closed spec fn spec_phase(&self) -> SupervisorPhase {
        self.phase
    }

    /// A supervisor that has done nothing yet.
    pub fn new(config: WatchdogConfig) -> (task: Supervisor)
        ensures
            task.config() == config,
            task.spec_phase() == SupervisorPhase::Starting,
    {
        Supervisor { config, phase: SupervisorPhase::Starting }
    }

    /// The supervisor's phase.
    #[verifier::when_used_as_spec(spec_phase)]
    pub fn phase(&self) -> (phase: SupervisorPhase)
        ensures
            phase == self.spec_phase(),
    {
        self.phase
    }

    /// The next action: first enabling the watchdog, then feeding and
    /// sleeping one feed period in turn, without end.
    pub fn step(&mut self) -> (action: SupervisorAction)
        ensures
            final(self).config() == old(self).config(),
            final(self).spec_phase() == next_phase(old(self).spec_phase()),
            action == action_in(
                old(self).spec_phase(),
                old(self).config().spec_timeout_ms(),
                old(self).config().spec_feed_period_ms(),
            ),
    {
        match self.phase {
            SupervisorPhase::Starting => {
                self.phase = SupervisorPhase::Feeding;
                SupervisorAction::Enable { timeout_ms: self.config.timeout_ms() }
            },
            SupervisorPhase::Feeding => {
                self.phase = SupervisorPhase::Sleeping;
                SupervisorAction::Feed
            },
            SupervisorPhase::Sleeping => {
                self.phase = SupervisorPhase::Feeding;
                SupervisorAction::Sleep { period_ms: self.config.feed_period_ms() }
            },
        }
    }
}

/// The hardware watchdog as the supervisor sees it: a counter of the time
/// since the last feed, and how often the watchdog has reset the device.
pub struct TimerModel {
    pub enabled: bool,
    pub timeout_ms: int,
    pub idle_ms: int,
    pub resets: int,
}

/// The timer after it was enabled with `timeout_ms`: it counts from zero.
pub open spec fn timer_enabled(m: TimerModel, timeout_ms: int) -> TimerModel {
    TimerModel { enabled: true, timeout_ms, idle_ms: 0, resets: m.resets }
}

/// The timer after a feed: an enabled timer counts from zero again, a
/// disabled one is unchanged.
pub open spec fn timer_fed(m: TimerModel) -> TimerModel {
    if m.enabled {
        TimerModel { idle_ms: 0, ..m }
    } else {
        m
    }
}

/// Whether an enabled timer expires when `dt_ms` more pass without a feed.
pub open spec fn timer_expires(m: TimerModel, dt_ms: int) -> bool {
    m.enabled && m.idle_ms + dt_ms >= m.timeout_ms
}

/// The timer after `dt_ms` passed without a feed. Once the time since the
/// last feed reaches the timeout the watchdog fires: it resets the device
/// once, which leaves the watchdog disabled until it is enabled again.
pub open spec fn timer_advanced(m: TimerModel, dt_ms: int) -> TimerModel {
    if timer_expires(m, dt_ms) {
        TimerModel {
            enabled: false,
            idle_ms: 0,
            resets: if m.resets < u64::MAX { m.resets + 1 } else { m.resets },
            ..m
        }
    } else if m.enabled {
        TimerModel { idle_ms: m.idle_ms + dt_ms, ..m }
    } else {
        m
    }
}

/// A simulated hardware watchdog timer.
pub struct WatchdogTimer {
    enabled: bool,
    timeout_ms: u64,
    idle_ms: u64,
    resets: u64,
}

impl View for WatchdogTimer {
    type V = TimerModel;

    closed spec fn view(&self) -> TimerModel {
        TimerModel {
            enabled: self.enabled,
            timeout_ms: self.timeout_ms as int,
            idle_ms: self.idle_ms as int,
            resets: self.resets as int,
        }
    }
}

impl WatchdogTimer {
    #[verifier::type_invariant]
    spec fn inv(&self) -> bool {
        self.enabled ==> self.idle_ms < self.timeout_ms
    }

    /// A disabled timer that has never fired.
    pub fn new() -> (timer: WatchdogTimer)
        ensures
            timer@ == (TimerModel { enabled: false, timeout_ms: 0, idle_ms: 0, resets: 0 }),
    {
        WatchdogTimer { enabled: false, timeout_ms: 0, idle_ms: 0, resets: 0 }
    }

    /// Enables the timer with `timeout_ms`. A timeout of zero cannot be
    /// met: the timer is left disabled.
    pub fn enable(&mut self, timeout_ms: u64)
        ensures
            timeout_ms > 0 ==> final(self)@ == timer_enabled(old(self)@, timeout_ms as int),
            timeout_ms == 0 ==> final(self)@ == (TimerModel { enabled: false, ..old(self)@ }),
    {
        if timeout_ms > 0 {
            self.enabled = false;
            self.idle_ms = 0;
            self.timeout_ms = timeout_ms;
            self.enabled = true;
        } else {
            self.enabled = false;
        }
    }

    /// Feeds the timer.
    pub fn feed(&mut self)
        ensures
            final(self)@ == timer_fed(old(self)@),
    {
        proof {
            use_type_invariant(&*self);
        }
        if self.enabled {
            self.idle_ms = 0;
        }
    }

    /// Lets `dt_ms` pass without a feed, and says whether the watchdog fired.
    pub fn advance(&mut self, dt_ms: u64) -> (fired: bool)
        ensures
            final(self)@ == timer_advanced(old(self)@, dt_ms as int),
            fired == timer_expires(old(self)@, dt_ms as int),
    {
        proof {
            use_type_invariant(&*self);
        }
        if !self.enabled {
            return false;
        }
        if dt_ms >= self.timeout_ms - self.idle_ms {
            self.enabled = false;
            self.idle_ms = 0;
            if self.resets < u64::MAX {
                self.resets = self.resets + 1;
            }
            true
        } else {
            self.idle_ms = self.idle_ms + dt_ms;
            false
        }
    }

    /// Whether the timer is counting.
    pub fn is_enabled(&self) -> (enabled: bool)
        ensures
            enabled == self@.enabled,
    {
        self.enabled
    }

    /// How often the watchdog has reset the device.
    pub fn resets(&self) -> (resets: u64)
        ensures
            resets == self@.resets,
    {
        self.resets
    }

    /// Time since the last feed, in milliseconds.
    pub fn idle_ms(&self) -> (idle: u64)
        ensures
            idle == self@.idle_ms,
            self@.enabled ==> idle < self@.timeout_ms,
    {
        proof {
            use_type_invariant(self);
        }
        self.idle_ms
    }
}

/// Another task that takes the processor `start_ms` after the supervisor
/// went to sleep and keeps it for `hold_ms` without yielding.
#[derive(Clone, Copy, Debug, PartialEq, Eq, Structural)]
pub struct Stall {
    pub start_ms: u64,
    pub hold_ms: u64,
}

/// Time from one feed to the next when `stall` happens in between: the
/// supervisor wakes after `period_ms`, but runs only once the processor is
/// free.
pub open spec fn round_length(period_ms: int, stall: Stall) -> int {
    if stall.start_ms + stall.hold_ms > period_ms {
        stall.start_ms + stall.hold_ms
    } else {
        period_ms
    }
}

/// Whether the supervisor feeds in time in each of the first `n` rounds.
pub open spec fn on_time(timeout_ms: int, period_ms: int, stalls: Seq<Stall>, n: int) -> bool {
    forall|i: int| 0 <= i < n ==> #[trigger] round_length(period_ms, stalls[i]) < timeout_ms
}

/// How often the watchdog fires while the supervisor runs through `stalls`:
/// not at all if every feed is in time, else once, at the first late feed.
pub open spec fn resets_during(timeout_ms: int, period_ms: int, stalls: Seq<Stall>) -> int {
    if on_time(timeout_ms, period_ms, stalls, stalls.len() as int) {
        0
    } else {
        1
    }
}

/// What a supervised run came to.
#[derive(Clone, Copy, Debug, PartialEq, Eq, Structural)]
pub struct RunOutcome {
    /// Rounds that ended with a feed in time.
    pub rounds: usize,
    /// Times the watchdog reset the device.
    pub resets: u64,
}

/// Runs the supervisor against a simulated watchdog: it enables and feeds
/// the watchdog, then sleeps and feeds once per stall, until the stalls are
/// used up or the watchdog fires.
pub fn run_supervised(config: WatchdogConfig, stalls: &[Stall]) -> (outcome: RunOutcome)
    ensures
        outcome.resets == resets_during(
            config.spec_timeout_ms() as int,
            config.spec_feed_period_ms() as int,
            stalls@,
        ),
        outcome.rounds <= stalls@.len(),
        on_time(
            config.spec_timeout_ms() as int,
            config.spec_feed_period_ms() as int,
            stalls@,
            outcome.rounds as int,
        ),
        outcome.rounds < stalls@.len() ==> round_length(
            config.spec_feed_period_ms() as int,
            stalls@[outcome.rounds as int],
        ) >= config.spec_timeout_ms(),
{
    let timeout_ms = config.timeout_ms();
    let period_ms = config.feed_period_ms();
    let mut task = Supervisor::new(config);
    let mut timer = WatchdogTimer::new();
    if let SupervisorAction::Enable { timeout_ms: t } = task.step() {
        timer.enable(t);
    }
    if let SupervisorAction::Feed = task.step() {
        timer.feed();
    }
    let mut i: usize = 0;
    while i < stalls.len()
        invariant
            i <= stalls@.len(),
            task.config() == config,
            task.spec_phase() == SupervisorPhase::Sleeping,
            timeout_ms == config.spec_timeout_ms(),
            period_ms == config.spec_feed_period_ms(),
            valid_timing(timeout_ms as int, period_ms as int),
            timer@ == (TimerModel {
                enabled: true,
                timeout_ms: timeout_ms as int,
                idle_ms: 0,
                resets: 0,
            }),
            on_time(timeout_ms as int, period_ms as int, stalls@, i as int),
        decreases stalls@.len() - i,
    {
        let stall = stalls[i];
        let mut fired = false;
        if let SupervisorAction::Sleep { period_ms: p } = task.step() {
            let busy = stall.start_ms.saturating_add(stall.hold_ms);
            let elapsed = if busy > p { busy } else { p };
            fired = timer.advance(elapsed);
        }
        assert(fired <==> round_length(period_ms as int, stall) >= timeout_ms);
        if fired {
            return RunOutcome { rounds: i, resets: timer.resets() };
        }
        if let SupervisorAction::Feed = task.step() {
            timer.feed();
        }
        i += 1;
    }
    RunOutcome { rounds: i, resets: timer.resets() }
}

/// Left alone, the supervisor feeds exactly one period after the last feed,
/// which is before the timeout: whatever the valid timing, a round in which
/// nobody holds the processor past the wake-up time is in time.
pub proof fn lemma_alone_feeds_every_period(timeout_ms: int, period_ms: int, stall: Stall)
    requires
        valid_timing(timeout_ms, period_ms),
        stall.start_ms + stall.hold_ms <= period_ms,
    ensures
        round_length(period_ms, stall) == period_ms,
        round_length(period_ms, stall) < timeout_ms,
{
}

/// A run in which the supervisor is left alone in every round never fires
/// the watchdog, however long it lasts.
pub proof fn lemma_alone_never_fires(timeout_ms: int, period_ms: int, stalls: Seq<Stall>)
    requires
        valid_timing(timeout_ms, period_ms),
        forall|i: int|
            0 <= i < stalls.len() ==> (#[trigger] stalls[i]).start_ms + stalls[i].hold_ms
                <= period_ms,
    ensures
        resets_during(timeout_ms, period_ms, stalls) == 0,
{
    assert forall|i: int| 0 <= i < stalls.len() implies #[trigger] round_length(
        period_ms,
        stalls[i],
    ) < timeout_ms by {
        lemma_alone_feeds_every_period(timeout_ms, period_ms, stalls[i]);
    }
}

/// A task that took the processor before the supervisor was due, and keeps
/// it no longer than the timeout less the feed period, never makes a feed
/// late: such a run never fires the watchdog.
pub proof fn lemma_short_stalls_never_fire(timeout_ms: int, period_ms: int, stalls: Seq<Stall>)
    requires
        valid_timing(timeout_ms, period_ms),
        forall|i: int|
            0 <= i < stalls.len() ==> (#[trigger] stalls[i]).start_ms < period_ms
                && stalls[i].hold_ms <= timeout_ms - period_ms,
    ensures
        resets_during(timeout_ms, period_ms, stalls) == 0,
{
    assert forall|i: int| 0 <= i < stalls.len() implies #[trigger] round_length(
        period_ms,
        stalls[i],
    ) < timeout_ms by {
        let s = stalls[i];
        assert(s.start_ms < period_ms && s.hold_ms <= timeout_ms - period_ms);
    }
}

/// A task that keeps the processor for the timeout or longer makes the
/// watchdog fire, and it fires exactly once.
pub proof fn lemma_long_stall_fires_once(
    timeout_ms: int,
    period_ms: int,
    stalls: Seq<Stall>,
    k: int,
)
    requires
        valid_timing(timeout_ms, period_ms),
        0 <= k < stalls.len(),
        stalls[k].hold_ms >= timeout_ms,
    ensures
        resets_during(timeout_ms, period_ms, stalls) == 1,
{
    assert(round_length(period_ms, stalls[k]) >= timeout_ms);
}

} // verus!
