//! Watchdog over "when did we last hear from the broker".
//!
//! Times are monotonic milliseconds. A live broker must produce some inbound packet (at
//! least a `PINGRESP`) within one keep-alive period; allowing one and a half periods of
//! silence gives a whole period of slack before the session is presumed dead. Only
//! inbound packets count as activity.

use vstd::prelude::*;

verus! {

/// Floor, in milliseconds, for the poll timeout so the loop can never busy-spin.
pub const MIN_CHECK_INTERVAL_MS: u64 = 1000;

#[derive(Debug, Clone, Copy)]
/// When the broker was last heard from, and how long silence is tolerated.
pub struct BrokerActivityWatch {
    keep_alive_ms: u64,
    last_activity_ms: u64,
}

impl BrokerActivityWatch {
    /// The keep-alive period the watch was built with.
    pub closed spec fn keep_alive(self) -> u64 {
        self.keep_alive_ms
    }

    /// When the broker was last heard from.
    pub closed spec fn last_activity(self) -> u64 {
        self.last_activity_ms
    }

    /// One and a half keep-alive periods.
    pub open spec fn stale_after_spec(self) -> int {
        self.keep_alive() * 3 / 2
    }

    /// Time since the last activity; a clock that appears to run backwards gives zero.
    pub open spec fn silence(self, now: u64) -> int {
        if now >= self.last_activity() {
            now - self.last_activity()
        } else {
            0
        }
    }

    /// A watch started at `now_ms` for a session with the given keep-alive.
    pub fn new(keep_alive_ms: u64, now_ms: u64) -> (w: BrokerActivityWatch)
        requires
            keep_alive_ms * 3 <= u64::MAX,
        ensures
            w.keep_alive() == keep_alive_ms,
            w.last_activity() == now_ms,
    {
        BrokerActivityWatch { keep_alive_ms, last_activity_ms: now_ms }
    }

    /// How long a silence from the broker is tolerated before the session is presumed
    /// dead.
    pub fn stale_after(&self) -> (r: u64)
        requires
            self.keep_alive() * 3 <= u64::MAX,
        ensures
            r == self.stale_after_spec(),
    {
        self.keep_alive_ms * 3 / 2
    }

    /// Record that something arrived from the broker, restarting the staleness window.
    pub fn record_activity(&mut self, now_ms: u64)
        ensures
            final(self).keep_alive() == old(self).keep_alive(),
            final(self).last_activity() == now_ms,
    {
        self.last_activity_ms = now_ms;
    }

    /// True once the broker has been silent for strictly longer than `stale_after`.
    pub fn should_force_reconnect(&self, now_ms: u64) -> (r: bool)
        requires
            self.keep_alive() * 3 <= u64::MAX,
        ensures
            r == (self.silence(now_ms) > self.stale_after_spec()),
    {
        let elapsed: u64 = if now_ms >= self.last_activity_ms { now_ms - self.last_activity_ms } else { 0 };
        elapsed > self.stale_after()
    }

    /// How long the poll loop may block before it must re-evaluate staleness: the time
    /// left until the deadline, never less than the floor.
    pub fn next_check_in(&self, now_ms: u64) -> (r: u64)
        requires
            self.keep_alive() * 3 <= u64::MAX,
        ensures
            r == (if self.stale_after_spec() - self.silence(now_ms) > MIN_CHECK_INTERVAL_MS {
                self.stale_after_spec() - self.silence(now_ms)
            } else {
                MIN_CHECK_INTERVAL_MS as int
            }),
    {
        let elapsed: u64 = if now_ms >= self.last_activity_ms { now_ms - self.last_activity_ms } else { 0 };
        let stale = self.stale_after();
        let remaining: u64 = if stale > elapsed { stale - elapsed } else { 0 };
        if remaining > MIN_CHECK_INTERVAL_MS { remaining } else { MIN_CHECK_INTERVAL_MS }
    }
}

/// Right after activity is recorded the session is never stale, and the poll timeout is
/// the whole window (or the floor).
pub proof fn lemma_activity_restarts_window(w: BrokerActivityWatch, w2: BrokerActivityWatch, now: u64)
    requires
        w2.keep_alive() == w.keep_alive(),
        w2.last_activity() == now,
    ensures
        w2.silence(now) == 0,
        !(w2.silence(now) > w2.stale_after_spec()),
{
}

/// Staleness is monotone in time: once the watch says reconnect, it keeps saying so
/// until activity is recorded.
pub proof fn lemma_staleness_monotone(w: BrokerActivityWatch, t1: u64, t2: u64)
    requires
        t1 <= t2,
        w.silence(t1) > w.stale_after_spec(),
    ensures
        w.silence(t2) > w.stale_after_spec(),
{
}

/// A clock that appears to run backwards never forces a reconnect.
pub proof fn lemma_backwards_clock_never_stale(w: BrokerActivityWatch, now: u64)
    requires
        now < w.last_activity(),
    ensures
        !(w.silence(now) > w.stale_after_spec()),
{
}

/// The poll never waits past the deadline while the session is still live, and never
/// less than the floor.
pub proof fn lemma_poll_timeout_bounds(w: BrokerActivityWatch, now: u64, r: int)
    requires
        r == (if w.stale_after_spec() - w.silence(now) > MIN_CHECK_INTERVAL_MS {
            w.stale_after_spec() - w.silence(now)
        } else {
            MIN_CHECK_INTERVAL_MS as int
        }),
    ensures
        r >= MIN_CHECK_INTERVAL_MS,
        r > MIN_CHECK_INTERVAL_MS ==> w.silence(now) + r == w.stale_after_spec(),
{
}

/// Waiting out the poll timeout from a time after the last activity reaches the
/// staleness deadline and never overshoots it: one millisecond after the timeout the
/// session is stale, and, when the timeout is longer than the floor, it is not stale yet
/// at the timeout itself. (Times are kept within `u64` milliseconds.)
pub proof fn lemma_poll_timeout_reaches_deadline(w: BrokerActivityWatch, now: u64, r: int)
    requires
        r == (if w.stale_after_spec() - w.silence(now) > MIN_CHECK_INTERVAL_MS {
            w.stale_after_spec() - w.silence(now)
        } else {
            MIN_CHECK_INTERVAL_MS as int
        }),
        w.last_activity() <= now,
        now + r + 1 <= u64::MAX,
    ensures
        w.silence((now + r + 1) as u64) > w.stale_after_spec(),
        r > MIN_CHECK_INTERVAL_MS ==> !(w.silence((now + r) as u64) > w.stale_after_spec()),
{
}

} // verus!
