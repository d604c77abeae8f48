//! The latency-prober scheduler of one outbound group.
//!
//! The scheduler here is the decision core: from its own state and a
//! caller-supplied clock reading it decides whether a probe pass is
//! due.  The driver around it owns the timer and the probe I/O; it
//! calls `kick_off` once, then `tick` on every timer firing, and
//! performs a probe pass whenever a call answers `true`.  Individual
//! probe failures only clear a member's alive flag and never reach
//! this type.
use vstd::prelude::*;

verus! {

/// Whether a probe pass is due at `now` for a scheduler with this
/// laziness, interval and last-check time: an eager scheduler probes
/// on every tick, a lazy one only when the interval has elapsed
/// since the state was last refreshed.
pub open spec fn probe_due(lazy: bool, interval: u64, last_check: u64, now: u64) -> bool {
    !lazy || now - last_check >= interval
}

/// Per-group probe scheduler state.
pub struct HealthCheck {
    /// Names of the members a probe pass measures.
    pub proxies: Vec<String>,
    /// The URL a probe fetches through each member.
    pub url: String,
    /// Seconds between scheduled probe passes; zero means never.
    pub interval: u64,
    /// Skip a scheduled pass when the state is already fresh?
    pub lazy: bool,
    /// Clock reading (in seconds) of the last refresh.
    pub last_check: u64,
    /// Is the periodic task running?
    pub running: bool,
}

/// The state `stop` leaves behind: the same scheduler, not running.
pub open spec fn stopped(h: HealthCheck) -> HealthCheck {
    HealthCheck { running: false, ..h }
}

impl HealthCheck {
    /// A scheduler that has never run; `now` is the current clock
    /// reading.
    pub fn new(proxies: Vec<String>, url: String, interval: u64, lazy: bool, now: u64) -> (r: Self)
        ensures
            r.proxies == proxies,
            r.url == url,
            r.interval == interval,
            r.lazy == lazy,
            r.last_check == now,
            !r.running,
    {
        HealthCheck { proxies, url, interval, lazy, last_check: now, running: false }
    }

    /// Starts the scheduler.  Returns `true`: one immediate,
    /// non-blocking probe pass is owed, after which the driver ticks
    /// periodically.
    pub fn kick_off(&mut self) -> (probe_now: bool)
        ensures
            probe_now,
            *final(self) == (HealthCheck { running: true, ..*old(self) }),
    {
        self.running = true;
        true
    }

    /// One timer tick at clock reading `now`.  Answers whether a
    /// probe pass is due; when it is, the pass counts as this
    /// scheduler's refresh.
    pub fn tick(&mut self, now: u64) -> (probe: bool)
        requires
            old(self).running,
            now >= old(self).last_check,
        ensures
            probe == probe_due(old(self).lazy, old(self).interval, old(self).last_check, now),
            probe ==> *final(self) == (HealthCheck { last_check: now, ..*old(self) }),
            !probe ==> *final(self) == *old(self),
    {
        if !self.lazy || now - self.last_check >= self.interval {
            self.last_check = now;
            true
        } else {
            false
        }
    }

    /// Marks the state as fresh at `now` without probing, so that a
    /// lazy scheduler skips its next redundant pass.
    pub fn touch(&mut self, now: u64)
        ensures
            *final(self) == (HealthCheck { last_check: now, ..*old(self) }),
    {
        self.last_check = now;
    }

    /// Cancels the periodic task.  Safe whether or not the scheduler
    /// ever started, and however often it is called.
    pub fn stop(&mut self)
        ensures
            *final(self) == stopped(*old(self)),
    {
        self.running = false;
    }

    /// Replaces the member set measured by future probe passes; an
    /// in-flight pass is unaffected.
    pub fn update(&mut self, proxies: Vec<String>)
        ensures
            *final(self) == (HealthCheck { proxies, ..*old(self) }),
    {
        self.proxies = proxies;
    }

    /// Whether this group auto-probes at all: it does iff the
    /// interval is nonzero.
    pub fn auto(&self) -> (r: bool)
        ensures
            r == (self.interval != 0),
    {
        self.interval != 0
    }
}

/// A lazy scheduler freshly touched stays quiet: a tick less than
/// one interval after the touch triggers no probe pass.
pub proof fn lemma_lazy_touch_suppresses_probe(touched: u64, now: u64, interval: u64)
    requires
        now >= touched,
        now - touched < interval,
    ensures
        !probe_due(true, interval, touched, now),
{
}

/// Stopping is idempotent: a second `stop` finds the state the first
/// one left and leaves it unchanged.
pub proof fn lemma_stop_idempotent(h: HealthCheck)
    ensures
        stopped(stopped(h)) == stopped(h),
{
}

} // verus!
