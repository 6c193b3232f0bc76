//! Whether the server counts as running, and for how long.
//!
//! Times are readings of a monotonic clock in milliseconds, taken by the
//! caller. The tracker goes from idle to running on a launch and back to idle
//! only on a successful kill: a server that exits by itself still counts as
//! running.
use vstd::prelude::*;

use crate::process::KillError;

verus! {

/// Elapsed time at `now` since `start`, or nothing when idle. A reading
/// before the start counts as no time at all.
pub open spec fn uptime_at(started_at: Option<u64>, now: u64) -> Option<u64> {
    match started_at {
        None => None,
        Some(s) => Some(if now >= s { (now - s) as u64 } else { 0 }),
    }
}

pub struct UptimeTracker {
    pub started_at: Option<u64>,
}

impl UptimeTracker {
    pub fn new() -> (r: UptimeTracker)
        ensures
            r.started_at is None,
    {
        UptimeTracker { started_at: None }
    }

    pub fn is_running(&self) -> (r: bool)
        ensures
            r == self.started_at is Some,
    {
        self.started_at.is_some()
    }

    /// A launch succeeded at `now`.
    pub fn record_launch(&mut self, now: u64)
        ensures
            final(self).started_at == Some(now),
    {
        self.started_at = Some(now);
    }

    /// The result of a kill request: success makes the tracker idle, a
    /// failure leaves it as it was.
    pub fn record_kill(&mut self, outcome: &Result<(), KillError>)
        ensures
            outcome is Ok ==> final(self).started_at is None,
            outcome is Err ==> final(self).started_at == old(self).started_at,
    {
        if outcome.is_ok() {
            self.started_at = None;
        }
    }

    /// Milliseconds since the launch, or `None` when not running.
    pub fn uptime(&self, now: u64) -> (r: Option<u64>)
        ensures
            r == uptime_at(self.started_at, now),
    {
        match self.started_at {
            None => None,
            Some(s) => if now >= s {
                Some(now - s)
            } else {
                Some(0)
            },
        }
    }
}

/// Once launched at `start`, a later reading shows a strictly larger uptime;
/// once the tracker is idle again, every reading shows not running.
pub proof fn lemma_uptime_increases(start: u64, earlier: u64, later: u64)
    requires
        start <= earlier < later,
    ensures
        uptime_at(Some(start), earlier) matches Some(a) && uptime_at(Some(start), later) matches Some(
            b,
        ) && a < b,
        uptime_at(None, later) is None,
{
}

} // verus!
