//! Timing helpers for latency measurement under the strategy's control.
use vstd::prelude::*;

use crate::fill::elapsed_ns;

verus! {

/// Start a timer from an event timestamp (usually `book.recv_ns` or `fill.recv_ns`).
pub fn start(now_ns: u64) -> (r: u64)
    ensures
        r == now_ns,
{
    now_ns
}

/// Stop a timer and return the elapsed nanoseconds (0 if `now_ns` is earlier).
pub fn stop_ns(start_ns: u64, now_ns: u64) -> (r: u64)
    ensures
        r == elapsed_ns(start_ns, now_ns),
{
    now_ns.saturating_sub(start_ns)
}

/// Elapsed whole microseconds.
pub fn stop_us(start_ns: u64, now_ns: u64) -> (r: u64)
    ensures
        r == elapsed_ns(start_ns, now_ns) / 1000,
{
    stop_ns(start_ns, now_ns) / 1_000
}

/// Elapsed whole milliseconds.
pub fn stop_ms(start_ns: u64, now_ns: u64) -> (r: u64)
    ensures
        r == elapsed_ns(start_ns, now_ns) / 1_000_000,
{
    stop_ns(start_ns, now_ns) / 1_000_000
}

/// Stateful timer for strategies that prefer start/stop on a struct.
#[derive(Debug, Clone, Copy)]
pub struct Timer {
    start_ns: u64,
}

impl Timer {
    /// The time at which the timer was last started.
    pub closed spec fn started_at(self) -> u64 {
        self.start_ns
    }

    /// A timer started at time 0.
    pub fn new() -> (r: Timer)
        ensures
            r.started_at() == 0,
    {
        Timer { start_ns: 0 }
    }

    /// Restart the timer at `now_ns`.
    pub fn start(&mut self, now_ns: u64)
        ensures
            final(self).started_at() == now_ns,
    {
        self.start_ns = now_ns;
    }

    /// Nanoseconds since the timer was started (0 if `now_ns` is earlier).
    pub fn stop_ns(&self, now_ns: u64) -> (r: u64)
        ensures
            r == elapsed_ns(self.started_at(), now_ns),
    {
        now_ns.saturating_sub(self.start_ns)
    }

    /// Whole microseconds since the timer was started.
    pub fn stop_us(&self, now_ns: u64) -> (r: u64)
        ensures
            r == elapsed_ns(self.started_at(), now_ns) / 1000,
    {
        self.stop_ns(now_ns) / 1_000
    }

    /// Whole milliseconds since the timer was started.
    pub fn stop_ms(&self, now_ns: u64) -> (r: u64)
        ensures
            r == elapsed_ns(self.started_at(), now_ns) / 1_000_000,
    {
        self.stop_ns(now_ns) / 1_000_000
    }
}

/// A timer started at time 0.
impl Default for Timer {
    fn default() -> (r: Timer)
        ensures
            r.started_at() == 0,
    {
        Timer::new()
    }
}

/// Stopping a timer measures from the last start: after `start(t)`, stopping
/// at `now` gives `now - t`, or 0 when `now` precedes `t`; the free functions
/// and the timer agree.
pub proof fn law_timer_measures_from_last_start(t: Timer, start_ns: u64, now_ns: u64)
    requires
        t.started_at() == start_ns,
    ensures
        elapsed_ns(t.started_at(), now_ns) == (if now_ns >= start_ns { now_ns - start_ns } else { 0 }),
        elapsed_ns(start_ns, now_ns) <= now_ns,
{
}

/// Coarser units are the finer ones divided down: milliseconds are the
/// microseconds divided by 1000.
pub proof fn law_units_consistent(start_ns: u64, now_ns: u64)
    ensures
        elapsed_ns(start_ns, now_ns) / 1_000_000 == (elapsed_ns(start_ns, now_ns) / 1000) / 1000,
{
    let e = elapsed_ns(start_ns, now_ns) as int;
    assert(e / 1_000_000 == (e / 1000) / 1000) by (nonlinear_arith)
        requires
            e >= 0,
    ;
}

} // verus!
